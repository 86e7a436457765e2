//! Scenarios for the entity-model derivations and the request keys.

use quote_client::fetch::Endpoint;
use quote_client::model::{visible_tags, Author, Quote, Tag};
use quote_client::render::quote_card;

fn tag(id: i32, text: &str) -> Tag {
    Tag {
        id,
        tag: text.to_string(),
    }
}

#[test]
fn visible_tags_skips_null_slots_keeping_order() {
    let slots = vec![
        Some(tag(1, "wit")),
        None,
        Some(tag(2, "wisdom")),
        None,
        Some(tag(3, "work")),
    ];
    let shown = visible_tags(&slots);
    assert_eq!(shown, vec![tag(1, "wit"), tag(2, "wisdom"), tag(3, "work")]);
    assert!(shown.len() <= slots.len());
}

#[test]
fn visible_tags_of_empty_is_empty() {
    let slots: Vec<Option<Tag>> = vec![];
    assert!(visible_tags(&slots).is_empty());
}

#[test]
fn visible_tags_of_all_null_is_empty() {
    let slots: Vec<Option<Tag>> = vec![None, None, None];
    assert!(visible_tags(&slots).is_empty());
}

#[test]
fn visible_tags_without_holes_keeps_everything() {
    let slots = vec![Some(tag(1, "a")), Some(tag(2, "b"))];
    assert_eq!(visible_tags(&slots), vec![tag(1, "a"), tag(2, "b")]);
}

#[test]
fn quote_card_links_author_and_filters_tags() {
    let quote = Quote {
        author: Author {
            id: 9,
            name: "Ada".to_string(),
        },
        id: 1,
        quote: "Q1".to_string(),
        related_tags: vec![None, Some(tag(3, "wit"))],
    };
    let card = quote_card(&quote);
    assert_eq!(card.quote_text, "Q1");
    assert_eq!(card.author_id, 9);
    assert_eq!(card.author_name, "Ada");
    assert_eq!(card.tags, vec![tag(3, "wit")]);
}

#[test]
fn only_the_submission_endpoint_carries_a_body() {
    assert!(Endpoint::SubmitQuote.carries_body());
    assert!(!Endpoint::Quotes.carries_body());
    assert!(!Endpoint::Authors.carries_body());
    assert!(!Endpoint::Tags.carries_body());
    let detail = Endpoint::AuthorDetail {
        id: "42".to_string(),
    };
    assert!(!detail.carries_body());
    let tag_detail = Endpoint::TagDetail {
        id: "3".to_string(),
    };
    assert!(!tag_detail.carries_body());
}
