//! Entity records served by the quotes API, their ghost images, and the
//! visible-tags derivation used when a quote card is rendered.
//!
//! Every record is an immutable value: views replace them wholesale on
//! refetch and never edit them in place. A quote's `related_tags` sequence
//! may contain absent slots; rendering skips those, keeping the order of
//! the present ones.

use vstd::prelude::*;

verus! {

/// A writer of quotes. Identity is `id`; `name` is what views display.
#[derive(Clone, PartialEq, Debug)]
pub struct Author {
    pub id: i32,
    pub name: String,
}

/// Ghost image of an [`Author`].
pub struct AuthorV {
    pub id: i32,
    pub name: Seq<char>,
}

impl DeepView for Author {
    type V = AuthorV;

    open spec fn deep_view(&self) -> AuthorV {
        AuthorV { id: self.id, name: self.name.deep_view() }
    }
}

/// A label attached to quotes. Identity is `id`; `tag` is the badge text.
#[derive(Clone, PartialEq, Debug)]
pub struct Tag {
    pub id: i32,
    pub tag: String,
}

/// Ghost image of a [`Tag`].
pub struct TagV {
    pub id: i32,
    pub tag: Seq<char>,
}

impl DeepView for Tag {
    type V = TagV;

    open spec fn deep_view(&self) -> TagV {
        TagV { id: self.id, tag: self.tag.deep_view() }
    }
}

/// One quote, with its author and a sequence of tag slots in which a slot
/// may be absent.
#[derive(Clone, PartialEq, Debug)]
pub struct Quote {
    pub author: Author,
    pub id: i32,
    pub quote: String,
    pub related_tags: Vec<Option<Tag>>,
}

/// Ghost image of a [`Quote`].
pub struct QuoteV {
    pub author: AuthorV,
    pub id: i32,
    pub quote: Seq<char>,
    pub related_tags: Seq<Option<TagV>>,
}

impl DeepView for Quote {
    type V = QuoteV;

    open spec fn deep_view(&self) -> QuoteV {
        QuoteV {
            author: self.author.deep_view(),
            id: self.id,
            quote: self.quote.deep_view(),
            related_tags: self.related_tags.deep_view(),
        }
    }
}

/// Envelope of `GET /quotes`.
#[derive(Clone, PartialEq, Debug)]
pub struct QuoteResponse {
    pub pages: i32,
    pub quotes: Vec<Quote>,
}

/// Ghost image of a [`QuoteResponse`].
pub struct QuoteResponseV {
    pub pages: i32,
    pub quotes: Seq<QuoteV>,
}

impl DeepView for QuoteResponse {
    type V = QuoteResponseV;

    open spec fn deep_view(&self) -> QuoteResponseV {
        QuoteResponseV { pages: self.pages, quotes: self.quotes.deep_view() }
    }
}

/// Envelope of `GET /authors`.
#[derive(Clone, PartialEq, Debug)]
pub struct AuthorResponse {
    pub pages: i32,
    pub authors: Vec<Author>,
}

/// Ghost image of an [`AuthorResponse`].
pub struct AuthorResponseV {
    pub pages: i32,
    pub authors: Seq<AuthorV>,
}

impl DeepView for AuthorResponse {
    type V = AuthorResponseV;

    open spec fn deep_view(&self) -> AuthorResponseV {
        AuthorResponseV { pages: self.pages, authors: self.authors.deep_view() }
    }
}

/// Envelope of `GET /authors/{id}`: one author and their quotes.
#[derive(Clone, PartialEq, Debug)]
pub struct AuthorDetailResponse {
    pub author: Author,
    pub pages: i32,
    pub quotes: Vec<Quote>,
}

/// Ghost image of an [`AuthorDetailResponse`].
pub struct AuthorDetailResponseV {
    pub author: AuthorV,
    pub pages: i32,
    pub quotes: Seq<QuoteV>,
}

impl DeepView for AuthorDetailResponse {
    type V = AuthorDetailResponseV;

    open spec fn deep_view(&self) -> AuthorDetailResponseV {
        AuthorDetailResponseV {
            author: self.author.deep_view(),
            pages: self.pages,
            quotes: self.quotes.deep_view(),
        }
    }
}

/// Envelope of `GET /tags`.
#[derive(Clone, PartialEq, Debug)]
pub struct TagResponse {
    pub pages: i32,
    pub tags: Vec<Tag>,
}

/// Ghost image of a [`TagResponse`].
pub struct TagResponseV {
    pub pages: i32,
    pub tags: Seq<TagV>,
}

impl DeepView for TagResponse {
    type V = TagResponseV;

    open spec fn deep_view(&self) -> TagResponseV {
        TagResponseV { pages: self.pages, tags: self.tags.deep_view() }
    }
}

/// Envelope of `GET /tags/{id}`: one tag and the quotes that carry it.
#[derive(Clone, PartialEq, Debug)]
pub struct TagDetailResponse {
    pub tag: Tag,
    pub pages: i32,
    pub quotes: Vec<Quote>,
}

/// Ghost image of a [`TagDetailResponse`].
pub struct TagDetailResponseV {
    pub tag: TagV,
    pub pages: i32,
    pub quotes: Seq<QuoteV>,
}

impl DeepView for TagDetailResponse {
    type V = TagDetailResponseV;

    open spec fn deep_view(&self) -> TagDetailResponseV {
        TagDetailResponseV {
            tag: self.tag.deep_view(),
            pages: self.pages,
            quotes: self.quotes.deep_view(),
        }
    }
}

/// One tag name inside a quote submission.
#[derive(Clone, PartialEq, Debug)]
pub struct TagSubmission {
    pub tag: String,
}

/// Ghost image of a [`TagSubmission`].
pub struct TagSubmissionV {
    pub tag: Seq<char>,
}

impl DeepView for TagSubmission {
    type V = TagSubmissionV;

    open spec fn deep_view(&self) -> TagSubmissionV {
        TagSubmissionV { tag: self.tag.deep_view() }
    }
}

/// Payload of `POST /quotes`: client-constructed, never received.
#[derive(Clone, PartialEq, Debug)]
pub struct QuoteSubmission {
    pub author_name: String,
    pub quote: String,
    pub related_tags: Vec<TagSubmission>,
}

/// Ghost image of a [`QuoteSubmission`].
pub struct QuoteSubmissionV {
    pub author_name: Seq<char>,
    pub quote: Seq<char>,
    pub related_tags: Seq<TagSubmissionV>,
}

impl DeepView for QuoteSubmission {
    type V = QuoteSubmissionV;

    open spec fn deep_view(&self) -> QuoteSubmissionV {
        QuoteSubmissionV {
            author_name: self.author_name.deep_view(),
            quote: self.quote.deep_view(),
            related_tags: self.related_tags.deep_view(),
        }
    }
}

/// The tags a quote card shows: the present slots of `related_tags`, in
/// their original order.
pub open spec fn visible_of(slots: Seq<Option<TagV>>) -> Seq<TagV>
    decreases slots.len(),
{
    if slots.len() == 0 {
        Seq::empty()
    } else {
        let fore = visible_of(slots.drop_last());
        match slots.last() {
            Some(t) => fore.push(t),
            None => fore,
        }
    }
}

/// The derivation never invents a tag: it yields at most one tag per slot.
pub proof fn lemma_visible_len(slots: Seq<Option<TagV>>)
    ensures
        visible_of(slots).len() <= slots.len(),
    decreases slots.len(),
{
    if slots.len() > 0 {
        lemma_visible_len(slots.drop_last());
    }
}

/// The present slots of a tag sequence, unwrapped, in their original
/// order: the same derivation as [`visible_of`], stated with `filter` and
/// `map_values`.
pub open spec fn present_tags(slots: Seq<Option<TagV>>) -> Seq<TagV> {
    slots.filter(|slot: Option<TagV>| slot is Some).map_values(
        |slot: Option<TagV>| slot.unwrap(),
    )
}

/// The derivation keeps exactly the present entries, in original order:
/// it equals the filter of the sequence to its present slots.
pub proof fn lemma_visible_exact(slots: Seq<Option<TagV>>)
    ensures
        visible_of(slots) == present_tags(slots),
    decreases slots.len(),
{
    reveal(Seq::filter);
    if slots.len() == 0 {
        assert(visible_of(slots) =~= present_tags(slots));
    } else {
        let fore = slots.drop_last();
        lemma_visible_exact(fore);
        match slots.last() {
            Some(t) => {
                assert(present_tags(slots) =~= present_tags(fore).push(t));
            },
            None => {
                assert(present_tags(slots) =~= present_tags(fore));
            },
        }
    }
}

/// Skips the absent slots of a quote's tag sequence, keeping the present
/// tags in order.
pub fn visible_tags(slots: &Vec<Option<Tag>>) -> (shown: Vec<Tag>)
    ensures
        shown.deep_view() == visible_of(slots.deep_view()),
{
    let ghost dv = slots.deep_view();
    let mut shown: Vec<Tag> = Vec::new();
    let mut i: usize = 0;
    while i < slots.len()
        invariant
            i <= slots.len(),
            dv == slots.deep_view(),
            shown.deep_view() == visible_of(dv.take(i as int)),
        decreases slots.len() - i,
    {
        proof {
            assert(dv.take(i + 1 as int).drop_last() =~= dv.take(i as int));
            assert(dv.take(i + 1 as int).last() == dv[i as int]);
        }
        match &slots[i] {
            Some(t) => {
                shown.push(Tag { id: t.id, tag: t.tag.clone() });
                proof {
                    assert(shown.deep_view() =~= visible_of(dv.take(i + 1 as int)));
                }
            },
            None => {
                proof {
                    assert(shown.deep_view() =~= visible_of(dv.take(i + 1 as int)));
                }
            },
        }
        i = i + 1;
    }
    proof {
        assert(dv.take(slots.len() as int) =~= dv);
    }
    shown
}

} // verus!
