//! Scenarios for the view resource binding and the page derivations.

use quote_client::binding::{ViewBinding, ViewState};
use quote_client::fetch::{classify, FetchError, FetchEvent};
use quote_client::model::{
    Author, AuthorDetailResponse, AuthorResponse, Quote, QuoteResponse, Tag, TagDetailResponse,
    TagResponse,
};
use quote_client::render::{
    render_author_detail, render_authors, render_quotes, render_tag_detail, render_tags, Heading,
    Phase,
};

fn ada() -> Author {
    Author {
        id: 9,
        name: "Ada".to_string(),
    }
}

fn sample_quote() -> Quote {
    Quote {
        author: ada(),
        id: 1,
        quote: "Q1".to_string(),
        related_tags: vec![
            Some(Tag {
                id: 3,
                tag: "wit".to_string(),
            }),
            None,
        ],
    }
}

#[test]
fn new_binding_is_idle() {
    let binding = ViewBinding::<QuoteResponse>::new();
    assert_eq!(binding.token, 0);
    assert!(matches!(binding.state, ViewState::Idle));
}

#[test]
fn activate_moves_to_loading() {
    let mut binding = ViewBinding::<QuoteResponse>::new();
    let token = binding.activate();
    assert_eq!(token, 1);
    assert!(matches!(binding.state, ViewState::Loading));
}

#[test]
fn settle_with_active_token_applies() {
    let mut binding = ViewBinding::<QuoteResponse>::new();
    let token = binding.activate();
    let envelope = QuoteResponse {
        pages: 1,
        quotes: vec![sample_quote()],
    };
    binding.settle(token, Ok(envelope.clone()));
    assert_eq!(binding.state, ViewState::Ready(envelope));
}

#[test]
fn stale_settlement_is_discarded() {
    // Instance A begins a fetch, is superseded by instance B, and A's
    // late settlement must not alter B's state.
    let mut binding = ViewBinding::<AuthorDetailResponse>::new();
    let token_a = binding.activate();
    let token_b = binding.activate();
    assert_ne!(token_a, token_b);
    let late = AuthorDetailResponse {
        author: ada(),
        pages: 1,
        quotes: vec![sample_quote()],
    };
    binding.settle(token_a, Ok(late));
    // B has not settled: its state is still Loading, not A's envelope.
    assert_eq!(binding.state, ViewState::Loading);
    assert_eq!(binding.token, token_b);
    // B's own settlement is applied.
    binding.settle(token_b, Err(FetchError::Network("refused".to_string())));
    assert_eq!(
        binding.state,
        ViewState::Failed(FetchError::Network("refused".to_string()))
    );
}

#[test]
fn stale_settlement_after_b_settles_is_discarded() {
    let mut binding = ViewBinding::<QuoteResponse>::new();
    let token_a = binding.activate();
    let token_b = binding.activate();
    let fresh = QuoteResponse {
        pages: 1,
        quotes: vec![],
    };
    binding.settle(token_b, Ok(fresh.clone()));
    let stale = QuoteResponse {
        pages: 7,
        quotes: vec![sample_quote()],
    };
    binding.settle(token_a, Ok(stale));
    assert_eq!(binding.state, ViewState::Ready(fresh));
}

#[test]
fn settlement_without_activation_is_ignored() {
    // No instance ever held a token for an idle binding: a stray
    // settlement must not move it out of Idle.
    let mut binding = ViewBinding::<QuoteResponse>::new();
    let envelope = QuoteResponse {
        pages: 1,
        quotes: vec![],
    };
    binding.settle(0, Ok(envelope));
    assert!(matches!(binding.state, ViewState::Idle));
}

#[test]
fn second_settlement_with_same_token_is_ignored() {
    // One fetch per activation: once settled, the token is spent.
    let mut binding = ViewBinding::<QuoteResponse>::new();
    let token = binding.activate();
    let first = QuoteResponse {
        pages: 1,
        quotes: vec![],
    };
    binding.settle(token, Ok(first.clone()));
    binding.settle(token, Err(FetchError::Network("late".to_string())));
    assert_eq!(binding.state, ViewState::Ready(first));
}

#[test]
fn classify_received_is_ok() {
    let envelope = QuoteResponse {
        pages: 1,
        quotes: vec![],
    };
    let outcome = classify(FetchEvent::Received(envelope.clone()));
    assert_eq!(outcome, Ok(envelope));
}

#[test]
fn classify_transport_failure_is_network_error() {
    let outcome = classify(FetchEvent::<QuoteResponse>::TransportFailed(
        "connection refused".to_string(),
    ));
    assert_eq!(
        outcome,
        Err(FetchError::Network("connection refused".to_string()))
    );
}

#[test]
fn classify_undecodable_body_is_decode_error() {
    let outcome = classify(FetchEvent::<QuoteResponse>::BodyUndecodable(
        "missing field".to_string(),
    ));
    assert_eq!(
        outcome,
        Err(FetchError::Decode("missing field".to_string()))
    );
}

#[test]
fn quotes_scenario_one_item() {
    // GET /quotes returns {pages: 1, quotes: [{id: 1, quote: "Q1",
    // author: {id: 9, name: "Ada"}, related_tags: [{id: 3, tag: "wit"},
    // null]}]}: the view settles Ready and renders one card linking to
    // author id 9 with exactly one tag badge "wit".
    let mut binding = ViewBinding::<QuoteResponse>::new();
    let token = binding.activate();
    let event = FetchEvent::Received(QuoteResponse {
        pages: 1,
        quotes: vec![sample_quote()],
    });
    binding.settle(token, classify(event));
    let page = render_quotes(&binding.state);
    assert_eq!(page.phase, Phase::Settled);
    assert_eq!(page.cards.len(), 1);
    let card = &page.cards[0];
    assert_eq!(card.quote_text, "Q1");
    assert_eq!(card.author_id, 9);
    assert_eq!(card.author_name, "Ada");
    assert_eq!(card.tags.len(), 1);
    assert_eq!(card.tags[0].id, 3);
    assert_eq!(card.tags[0].tag, "wit");
}

#[test]
fn author_detail_network_failure_shows_fallback() {
    // GET /authors/42 fails with a network error: the view settles
    // Failed and the heading is a non-crashing fallback, not "Ada".
    let mut binding = ViewBinding::<AuthorDetailResponse>::new();
    let token = binding.activate();
    let event = FetchEvent::<AuthorDetailResponse>::TransportFailed("unreachable".to_string());
    binding.settle(token, classify(event));
    assert!(matches!(binding.state, ViewState::Failed(_)));
    let page = render_author_detail(&binding.state);
    assert_eq!(page.heading, Heading::Unavailable);
    assert!(page.cards.is_empty());
}

#[test]
fn author_detail_ready_header_and_count() {
    // Once Ready, the card count equals the envelope's quote count and
    // the heading is the envelope author's name.
    let envelope = AuthorDetailResponse {
        author: ada(),
        pages: 1,
        quotes: vec![sample_quote(), sample_quote()],
    };
    let state = ViewState::Ready(envelope);
    let page = render_author_detail(&state);
    assert_eq!(page.heading, Heading::Title("Ada".to_string()));
    assert_eq!(page.cards.len(), 2);
}

#[test]
fn author_detail_loading_shows_placeholder() {
    let state = ViewState::<AuthorDetailResponse>::Loading;
    let page = render_author_detail(&state);
    assert_eq!(page.heading, Heading::Pending);
    assert!(page.cards.is_empty());
}

#[test]
fn render_ready_twice_identical() {
    // Re-rendering the same settled state produces identical output.
    let state = ViewState::Ready(AuthorDetailResponse {
        author: ada(),
        pages: 1,
        quotes: vec![sample_quote()],
    });
    let once = render_author_detail(&state);
    let again = render_author_detail(&state);
    assert_eq!(once, again);

    let quotes_state = ViewState::Ready(QuoteResponse {
        pages: 1,
        quotes: vec![sample_quote()],
    });
    assert_eq!(render_quotes(&quotes_state), render_quotes(&quotes_state));
}

#[test]
fn tag_detail_ready_header() {
    let envelope = TagDetailResponse {
        tag: Tag {
            id: 3,
            tag: "wit".to_string(),
        },
        pages: 1,
        quotes: vec![sample_quote()],
    };
    let page = render_tag_detail(&ViewState::Ready(envelope));
    assert_eq!(page.heading, Heading::Title("wit".to_string()));
    assert_eq!(page.cards.len(), 1);
}

#[test]
fn tag_detail_decode_failure_shows_fallback() {
    let state = ViewState::<TagDetailResponse>::Failed(FetchError::Decode(
        "bad envelope".to_string(),
    ));
    let page = render_tag_detail(&state);
    assert_eq!(page.heading, Heading::Unavailable);
    assert!(page.cards.is_empty());
}

#[test]
fn authors_list_ready_keeps_order() {
    let envelope = AuthorResponse {
        pages: 1,
        authors: vec![
            ada(),
            Author {
                id: 11,
                name: "Blaise".to_string(),
            },
        ],
    };
    let page = render_authors(&ViewState::Ready(envelope.clone()));
    assert_eq!(page.phase, Phase::Settled);
    assert_eq!(page.authors, envelope.authors);
}

#[test]
fn authors_list_loading_is_pending_and_empty() {
    let page = render_authors(&ViewState::<AuthorResponse>::Loading);
    assert_eq!(page.phase, Phase::Pending);
    assert!(page.authors.is_empty());
}

#[test]
fn tags_list_ready_keeps_order() {
    let envelope = TagResponse {
        pages: 1,
        tags: vec![
            Tag {
                id: 3,
                tag: "wit".to_string(),
            },
            Tag {
                id: 4,
                tag: "wisdom".to_string(),
            },
        ],
    };
    let page = render_tags(&ViewState::Ready(envelope.clone()));
    assert_eq!(page.phase, Phase::Settled);
    assert_eq!(page.tags, envelope.tags);
}

#[test]
fn tags_list_network_failure_is_unavailable() {
    let state = ViewState::<TagResponse>::Failed(FetchError::Network("reset".to_string()));
    let page = render_tags(&state);
    assert_eq!(page.phase, Phase::Unavailable);
    assert!(page.tags.is_empty());
}
