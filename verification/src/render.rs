//! Pure derivation of page models from settled view state.
//!
//! Rendering reads only the view state a binding holds and produces a
//! plain page model — card lists, link lists, a heading. The markup shell
//! turns these models into HTML; everything it shows is decided here. A
//! failed fetch yields a page that is distinguishable from one still
//! loading, and never the stale fields of an earlier envelope.

use vstd::prelude::*;

use crate::binding::ViewState;
use crate::binding::ViewStateV;
use crate::model::Author;
use crate::model::AuthorDetailResponse;
use crate::model::AuthorDetailResponseV;
use crate::model::AuthorResponse;
use crate::model::AuthorResponseV;
use crate::model::AuthorV;
use crate::model::Quote;
use crate::model::QuoteResponse;
use crate::model::QuoteResponseV;
use crate::model::QuoteV;
use crate::model::Tag;
use crate::model::TagDetailResponse;
use crate::model::TagDetailResponseV;
use crate::model::TagResponse;
use crate::model::TagResponseV;
use crate::model::TagV;
use crate::model::visible_of;
use crate::model::visible_tags;

verus! {

/// How far a list view has come: waiting for its first settlement,
/// settled with data, or settled with a failure.
#[derive(Clone, Copy, PartialEq, Eq, Debug)]
pub enum Phase {
    Pending,
    Unavailable,
    Settled,
}

/// The heading of a detail view: a placeholder while the fetch is in
/// flight, a distinct could-not-load indication, or the record's title.
#[derive(Clone, PartialEq, Debug)]
pub enum Heading {
    Pending,
    Unavailable,
    Title(String),
}

/// Ghost image of a [`Heading`].
pub enum HeadingV {
    Pending,
    Unavailable,
    Title(Seq<char>),
}

impl DeepView for Heading {
    type V = HeadingV;

    open spec fn deep_view(&self) -> HeadingV {
        match self {
            Heading::Pending => HeadingV::Pending,
            Heading::Unavailable => HeadingV::Unavailable,
            Heading::Title(title) => HeadingV::Title(title.deep_view()),
        }
    }
}

/// Everything one quote card shows: the quote text, the author link (key
/// and label), and the visible tag badges.
#[derive(Clone, PartialEq, Debug)]
pub struct QuoteCardModel {
    pub quote_text: String,
    pub author_id: i32,
    pub author_name: String,
    pub tags: Vec<Tag>,
}

/// Ghost image of a [`QuoteCardModel`].
pub struct QuoteCardModelV {
    pub quote_text: Seq<char>,
    pub author_id: i32,
    pub author_name: Seq<char>,
    pub tags: Seq<TagV>,
}

impl DeepView for QuoteCardModel {
    type V = QuoteCardModelV;

    open spec fn deep_view(&self) -> QuoteCardModelV {
        QuoteCardModelV {
            quote_text: self.quote_text.deep_view(),
            author_id: self.author_id,
            author_name: self.author_name.deep_view(),
            tags: self.tags.deep_view(),
        }
    }
}

/// The card one quote renders to: its text, a link keyed by its author's
/// id and labelled with the author's name, and the present tags in order.
pub open spec fn card_of(quote: QuoteV) -> QuoteCardModelV {
    QuoteCardModelV {
        quote_text: quote.quote,
        author_id: quote.author.id,
        author_name: quote.author.name,
        tags: visible_of(quote.related_tags),
    }
}

/// The card list an envelope's quotes render to, in envelope order.
pub open spec fn cards_of(quotes: Seq<QuoteV>) -> Seq<QuoteCardModelV>
    decreases quotes.len(),
{
    if quotes.len() == 0 {
        Seq::empty()
    } else {
        cards_of(quotes.drop_last()).push(card_of(quotes.last()))
    }
}

/// One card per quote: the rendered count always equals the envelope's
/// quote count.
pub proof fn lemma_cards_of_len(quotes: Seq<QuoteV>)
    ensures
        cards_of(quotes).len() == quotes.len(),
    decreases quotes.len(),
{
    if quotes.len() > 0 {
        lemma_cards_of_len(quotes.drop_last());
    }
}

/// Builds the card model of one quote.
pub fn quote_card(quote: &Quote) -> (card: QuoteCardModel)
    ensures
        card.deep_view() == card_of(quote.deep_view()),
{
    QuoteCardModel {
        quote_text: quote.quote.clone(),
        author_id: quote.author.id,
        author_name: quote.author.name.clone(),
        tags: visible_tags(&quote.related_tags),
    }
}

/// Builds the card list of a quote sequence, keeping its order.
pub fn quote_cards(quotes: &Vec<Quote>) -> (cards: Vec<QuoteCardModel>)
    ensures
        cards.deep_view() == cards_of(quotes.deep_view()),
{
    let ghost dv = quotes.deep_view();
    let mut cards: Vec<QuoteCardModel> = Vec::new();
    let mut i: usize = 0;
    while i < quotes.len()
        invariant
            i <= quotes.len(),
            dv == quotes.deep_view(),
            cards.deep_view() == cards_of(dv.take(i as int)),
        decreases quotes.len() - i,
    {
        proof {
            assert(dv.take(i + 1 as int).drop_last() =~= dv.take(i as int));
            assert(dv.take(i + 1 as int).last() == dv[i as int]);
        }
        cards.push(quote_card(&quotes[i]));
        proof {
            assert(cards.deep_view() =~= cards_of(dv.take(i + 1 as int)));
        }
        i = i + 1;
    }
    proof {
        assert(dv.take(quotes.len() as int) =~= dv);
    }
    cards
}

/// The quotes list page: its phase and the cards of the settled envelope.
#[derive(Clone, PartialEq, Debug)]
pub struct QuotesPage {
    pub phase: Phase,
    pub cards: Vec<QuoteCardModel>,
}

/// Ghost image of a [`QuotesPage`].
pub struct QuotesPageV {
    pub phase: Phase,
    pub cards: Seq<QuoteCardModelV>,
}

impl DeepView for QuotesPage {
    type V = QuotesPageV;

    open spec fn deep_view(&self) -> QuotesPageV {
        QuotesPageV { phase: self.phase, cards: self.cards.deep_view() }
    }
}

/// The page the quotes view shows for a given state: cards only once the
/// fetch settled `Ready`, and never the cards of an earlier envelope.
pub open spec fn quotes_page_of(state: ViewStateV<QuoteResponseV>) -> QuotesPageV {
    match state {
        ViewStateV::Ready(envelope) => QuotesPageV {
            phase: Phase::Settled,
            cards: cards_of(envelope.quotes),
        },
        ViewStateV::Failed(_) => QuotesPageV { phase: Phase::Unavailable, cards: Seq::empty() },
        _ => QuotesPageV { phase: Phase::Pending, cards: Seq::empty() },
    }
}

/// Renders the quotes list view from its binding's state.
pub fn render_quotes(state: &ViewState<QuoteResponse>) -> (page: QuotesPage)
    ensures
        page.deep_view() == quotes_page_of(state.deep_view()),
{
    match state {
        ViewState::Ready(envelope) => QuotesPage {
            phase: Phase::Settled,
            cards: quote_cards(&envelope.quotes),
        },
        ViewState::Failed(_) => {
            let none: Vec<QuoteCardModel> = Vec::new();
            proof {
                assert(none.deep_view() =~= Seq::<QuoteCardModelV>::empty());
            }
            QuotesPage { phase: Phase::Unavailable, cards: none }
        },
        _ => {
            let none: Vec<QuoteCardModel> = Vec::new();
            proof {
                assert(none.deep_view() =~= Seq::<QuoteCardModelV>::empty());
            }
            QuotesPage { phase: Phase::Pending, cards: none }
        },
    }
}

/// The authors list page: its phase and one link per author, keyed by id
/// and labelled with the name, in envelope order.
#[derive(Clone, PartialEq, Debug)]
pub struct AuthorsPage {
    pub phase: Phase,
    pub authors: Vec<Author>,
}

/// Ghost image of an [`AuthorsPage`].
pub struct AuthorsPageV {
    pub phase: Phase,
    pub authors: Seq<AuthorV>,
}

impl DeepView for AuthorsPage {
    type V = AuthorsPageV;

    open spec fn deep_view(&self) -> AuthorsPageV {
        AuthorsPageV { phase: self.phase, authors: self.authors.deep_view() }
    }
}

/// The page the authors view shows for a given state.
pub open spec fn authors_page_of(state: ViewStateV<AuthorResponseV>) -> AuthorsPageV {
    match state {
        ViewStateV::Ready(envelope) => AuthorsPageV {
            phase: Phase::Settled,
            authors: envelope.authors,
        },
        ViewStateV::Failed(_) => AuthorsPageV { phase: Phase::Unavailable, authors: Seq::empty() },
        _ => AuthorsPageV { phase: Phase::Pending, authors: Seq::empty() },
    }
}

/// Copies an author list, keeping order and every field.
fn copy_authors(authors: &Vec<Author>) -> (listed: Vec<Author>)
    ensures
        listed.deep_view() == authors.deep_view(),
{
    let ghost dv = authors.deep_view();
    let mut listed: Vec<Author> = Vec::new();
    let mut i: usize = 0;
    while i < authors.len()
        invariant
            i <= authors.len(),
            dv == authors.deep_view(),
            listed.deep_view() == dv.take(i as int),
        decreases authors.len() - i,
    {
        let author = &authors[i];
        let copied = Author { id: author.id, name: author.name.clone() };
        proof {
            assert(copied.deep_view() == dv[i as int]);
        }
        let ghost before_at = listed@;
        let ghost before_dv = listed.deep_view();
        listed.push(copied);
        proof {
            assert(before_dv.len() == i as int);
            assert(before_at.len() == i as int);
            assert(listed@ == before_at.push(copied));
            assert forall|j: int| 0 <= j < i + 1 implies listed.deep_view()[j] == dv.take(
                i + 1 as int,
            )[j] by {
                if j < i as int {
                    assert(listed@[j] == before_at[j]);
                    assert(before_dv[j] == before_at[j].deep_view());
                    assert(before_dv[j] == dv[j]);
                } else {
                    assert(listed@[j] == copied);
                }
            }
            assert(listed.deep_view() =~= dv.take(i + 1 as int));
        }
        i = i + 1;
    }
    proof {
        assert(dv.take(authors.len() as int) =~= dv);
    }
    listed
}

/// Renders the authors list view from its binding's state.
pub fn render_authors(state: &ViewState<AuthorResponse>) -> (page: AuthorsPage)
    ensures
        page.deep_view() == authors_page_of(state.deep_view()),
{
    match state {
        ViewState::Ready(envelope) => AuthorsPage {
            phase: Phase::Settled,
            authors: copy_authors(&envelope.authors),
        },
        ViewState::Failed(_) => {
            let none: Vec<Author> = Vec::new();
            proof {
                assert(none.deep_view() =~= Seq::<AuthorV>::empty());
            }
            AuthorsPage { phase: Phase::Unavailable, authors: none }
        },
        _ => {
            let none: Vec<Author> = Vec::new();
            proof {
                assert(none.deep_view() =~= Seq::<AuthorV>::empty());
            }
            AuthorsPage { phase: Phase::Pending, authors: none }
        },
    }
}

/// The tags list page: its phase and one link per tag, keyed by id and
/// labelled with the tag text, in envelope order.
#[derive(Clone, PartialEq, Debug)]
pub struct TagsPage {
    pub phase: Phase,
    pub tags: Vec<Tag>,
}

/// Ghost image of a [`TagsPage`].
pub struct TagsPageV {
    pub phase: Phase,
    pub tags: Seq<TagV>,
}

impl DeepView for TagsPage {
    type V = TagsPageV;

    open spec fn deep_view(&self) -> TagsPageV {
        TagsPageV { phase: self.phase, tags: self.tags.deep_view() }
    }
}

/// The page the tags view shows for a given state.
pub open spec fn tags_page_of(state: ViewStateV<TagResponseV>) -> TagsPageV {
    match state {
        ViewStateV::Ready(envelope) => TagsPageV { phase: Phase::Settled, tags: envelope.tags },
        ViewStateV::Failed(_) => TagsPageV { phase: Phase::Unavailable, tags: Seq::empty() },
        _ => TagsPageV { phase: Phase::Pending, tags: Seq::empty() },
    }
}

/// Copies a tag list, keeping order and every field.
fn copy_tags(tags: &Vec<Tag>) -> (listed: Vec<Tag>)
    ensures
        listed.deep_view() == tags.deep_view(),
{
    let ghost dv = tags.deep_view();
    let mut listed: Vec<Tag> = Vec::new();
    let mut i: usize = 0;
    while i < tags.len()
        invariant
            i <= tags.len(),
            dv == tags.deep_view(),
            listed.deep_view() == dv.take(i as int),
        decreases tags.len() - i,
    {
        let tag = &tags[i];
        let copied = Tag { id: tag.id, tag: tag.tag.clone() };
        proof {
            assert(copied.deep_view() == dv[i as int]);
        }
        let ghost before_at = listed@;
        let ghost before_dv = listed.deep_view();
        listed.push(copied);
        proof {
            assert(before_dv.len() == i as int);
            assert(before_at.len() == i as int);
            assert(listed@ == before_at.push(copied));
            assert forall|j: int| 0 <= j < i + 1 implies listed.deep_view()[j] == dv.take(
                i + 1 as int,
            )[j] by {
                if j < i as int {
                    assert(listed@[j] == before_at[j]);
                    assert(before_dv[j] == before_at[j].deep_view());
                    assert(before_dv[j] == dv[j]);
                } else {
                    assert(listed@[j] == copied);
                }
            }
            assert(listed.deep_view() =~= dv.take(i + 1 as int));
        }
        i = i + 1;
    }
    proof {
        assert(dv.take(tags.len() as int) =~= dv);
    }
    listed
}

/// Renders the tags list view from its binding's state.
pub fn render_tags(state: &ViewState<TagResponse>) -> (page: TagsPage)
    ensures
        page.deep_view() == tags_page_of(state.deep_view()),
{
    match state {
        ViewState::Ready(envelope) => TagsPage {
            phase: Phase::Settled,
            tags: copy_tags(&envelope.tags),
        },
        ViewState::Failed(_) => {
            let none: Vec<Tag> = Vec::new();
            proof {
                assert(none.deep_view() =~= Seq::<TagV>::empty());
            }
            TagsPage { phase: Phase::Unavailable, tags: none }
        },
        _ => {
            let none: Vec<Tag> = Vec::new();
            proof {
                assert(none.deep_view() =~= Seq::<TagV>::empty());
            }
            TagsPage { phase: Phase::Pending, tags: none }
        },
    }
}

/// A detail page: the heading over the record's quotes, and their cards.
#[derive(Clone, PartialEq, Debug)]
pub struct DetailPage {
    pub heading: Heading,
    pub cards: Vec<QuoteCardModel>,
}

/// Ghost image of a [`DetailPage`].
pub struct DetailPageV {
    pub heading: HeadingV,
    pub cards: Seq<QuoteCardModelV>,
}

impl DeepView for DetailPage {
    type V = DetailPageV;

    open spec fn deep_view(&self) -> DetailPageV {
        DetailPageV { heading: self.heading.deep_view(), cards: self.cards.deep_view() }
    }
}

/// The page the author detail view shows: once `Ready`, the heading is
/// the author's name and the cards are the envelope's quotes; while in
/// flight or after failure, a placeholder or could-not-load heading over
/// no cards — never a stale name.
pub open spec fn author_detail_page_of(state: ViewStateV<AuthorDetailResponseV>) -> DetailPageV {
    match state {
        ViewStateV::Ready(envelope) => DetailPageV {
            heading: HeadingV::Title(envelope.author.name),
            cards: cards_of(envelope.quotes),
        },
        ViewStateV::Failed(_) => DetailPageV { heading: HeadingV::Unavailable, cards: Seq::empty() },
        _ => DetailPageV { heading: HeadingV::Pending, cards: Seq::empty() },
    }
}

/// Renders the author detail view from its binding's state. Once `Ready`,
/// the card count equals the envelope's quote count and the heading
/// carries exactly the envelope author's name.
pub fn render_author_detail(state: &ViewState<AuthorDetailResponse>) -> (page: DetailPage)
    ensures
        page.deep_view() == author_detail_page_of(state.deep_view()),
        (*state) matches ViewState::Ready(envelope) ==> {
            &&& page.heading.deep_view() == HeadingV::Title(envelope.author.name.deep_view())
            &&& page.cards@.len() == envelope.quotes@.len()
        },
        (*state) is Failed ==> page.heading is Unavailable && page.cards@.len() == 0,
        (*state) is Idle || (*state) is Loading ==> page.heading is Pending && page.cards@.len()
            == 0,
{
    match state {
        ViewState::Ready(envelope) => {
            let cards = quote_cards(&envelope.quotes);
            proof {
                lemma_cards_of_len(envelope.quotes.deep_view());
            }
            DetailPage { heading: Heading::Title(envelope.author.name.clone()), cards }
        },
        ViewState::Failed(_) => {
            let none: Vec<QuoteCardModel> = Vec::new();
            proof {
                assert(none.deep_view() =~= Seq::<QuoteCardModelV>::empty());
            }
            DetailPage { heading: Heading::Unavailable, cards: none }
        },
        _ => {
            let none: Vec<QuoteCardModel> = Vec::new();
            proof {
                assert(none.deep_view() =~= Seq::<QuoteCardModelV>::empty());
            }
            DetailPage { heading: Heading::Pending, cards: none }
        },
    }
}

/// The page the tag detail view shows: once `Ready`, the heading is the
/// tag's text and the cards are the envelope's quotes.
pub open spec fn tag_detail_page_of(state: ViewStateV<TagDetailResponseV>) -> DetailPageV {
    match state {
        ViewStateV::Ready(envelope) => DetailPageV {
            heading: HeadingV::Title(envelope.tag.tag),
            cards: cards_of(envelope.quotes),
        },
        ViewStateV::Failed(_) => DetailPageV { heading: HeadingV::Unavailable, cards: Seq::empty() },
        _ => DetailPageV { heading: HeadingV::Pending, cards: Seq::empty() },
    }
}

/// Renders the tag detail view from its binding's state. Once `Ready`,
/// the card count equals the envelope's quote count and the heading
/// carries exactly the envelope tag's text.
pub fn render_tag_detail(state: &ViewState<TagDetailResponse>) -> (page: DetailPage)
    ensures
        page.deep_view() == tag_detail_page_of(state.deep_view()),
        (*state) matches ViewState::Ready(envelope) ==> {
            &&& page.heading.deep_view() == HeadingV::Title(envelope.tag.tag.deep_view())
            &&& page.cards@.len() == envelope.quotes@.len()
        },
        (*state) is Failed ==> page.heading is Unavailable && page.cards@.len() == 0,
        (*state) is Idle || (*state) is Loading ==> page.heading is Pending && page.cards@.len()
            == 0,
{
    match state {
        ViewState::Ready(envelope) => {
            let cards = quote_cards(&envelope.quotes);
            proof {
                lemma_cards_of_len(envelope.quotes.deep_view());
            }
            DetailPage { heading: Heading::Title(envelope.tag.tag.clone()), cards }
        },
        ViewState::Failed(_) => {
            let none: Vec<QuoteCardModel> = Vec::new();
            proof {
                assert(none.deep_view() =~= Seq::<QuoteCardModelV>::empty());
            }
            DetailPage { heading: Heading::Unavailable, cards: none }
        },
        _ => {
            let none: Vec<QuoteCardModel> = Vec::new();
            proof {
                assert(none.deep_view() =~= Seq::<QuoteCardModelV>::empty());
            }
            DetailPage { heading: Heading::Pending, cards: none }
        },
    }
}

/// Rendering is a pure function of view state: two pages derived from the
/// same state are identical. Each render function's contract pins its page
/// to such a derivation, so re-rendering a settled state changes nothing.
pub proof fn lemma_rendering_pure(
    state: ViewStateV<AuthorDetailResponseV>,
    once: DetailPageV,
    again: DetailPageV,
)
    requires
        once == author_detail_page_of(state),
        again == author_detail_page_of(state),
    ensures
        once == again,
{
}

} // verus!
