//! The submission pipeline: three independent input fields and an
//! append-only tag list, accumulated into one `POST /quotes` payload.
//!
//! Adding a tag trims the pending input; a trim that leaves nothing makes
//! the operation a no-op, anything else is appended in order — duplicates
//! allowed — and the pending input is cleared. Building the payload takes
//! the fields as they stand: blank author or quote text is permitted, as
//! the server is the one to judge a submission.

use vstd::prelude::*;

use crate::model::QuoteSubmission;
use crate::model::TagSubmission;
use crate::model::TagSubmissionV;

verus! {

/// What `str::trim` returns for a given character sequence: the sequence
/// without its leading and trailing whitespace.
pub uninterp spec fn trim_of(text: Seq<char>) -> Seq<char>;

/// Relies on str::trim: removes leading and trailing whitespace, and the
/// result depends on the characters alone.
#[verifier::external_body]
fn trimmed(text: &String) -> (cleaned: String)
    ensures
        cleaned@ == trim_of(text@),
{
    text.trim().to_owned()
}

/// The submission form's state: the author name, the quote text, the
/// pending tag input, and the tags added so far, in order.
#[derive(Clone, PartialEq, Debug)]
pub struct SubmissionForm {
    pub author_name: String,
    pub quote_text: String,
    pub pending_tag_input: String,
    pub tags: Vec<TagSubmission>,
}

impl SubmissionForm {
    /// A blank form.
    pub fn new() -> (form: SubmissionForm)
        ensures
            form.author_name@ == Seq::<char>::empty(),
            form.quote_text@ == Seq::<char>::empty(),
            form.pending_tag_input@ == Seq::<char>::empty(),
            form.tags@ == Seq::<TagSubmission>::empty(),
    {
        SubmissionForm {
            author_name: String::new(),
            quote_text: String::new(),
            pending_tag_input: String::new(),
            tags: Vec::new(),
        }
    }

    /// Replaces the author-name field, leaving the rest of the form as it
    /// was.
    pub fn set_author_name(&mut self, value: String)
        ensures
            final(self).author_name == value,
            final(self).quote_text == old(self).quote_text,
            final(self).pending_tag_input == old(self).pending_tag_input,
            final(self).tags == old(self).tags,
    {
        self.author_name = value;
    }

    /// Replaces the quote-text field, leaving the rest of the form as it
    /// was.
    pub fn set_quote_text(&mut self, value: String)
        ensures
            final(self).quote_text == value,
            final(self).author_name == old(self).author_name,
            final(self).pending_tag_input == old(self).pending_tag_input,
            final(self).tags == old(self).tags,
    {
        self.quote_text = value;
    }

    /// Replaces the pending tag input, leaving the rest of the form as it
    /// was.
    pub fn set_pending_tag_input(&mut self, value: String)
        ensures
            final(self).pending_tag_input == value,
            final(self).author_name == old(self).author_name,
            final(self).quote_text == old(self).quote_text,
            final(self).tags == old(self).tags,
    {
        self.pending_tag_input = value;
    }

    /// Adds the pending tag: a no-op when trimming leaves nothing;
    /// otherwise the trimmed text is appended to the tag list — order
    /// kept, duplicates allowed — and the pending input is cleared.
    pub fn add_tag(&mut self)
        ensures
            trim_of(old(self).pending_tag_input@).len() == 0 ==> *final(self) == *old(self),
            trim_of(old(self).pending_tag_input@).len() > 0 ==> {
                &&& final(self).author_name == old(self).author_name
                &&& final(self).quote_text == old(self).quote_text
                &&& final(self).pending_tag_input@ == Seq::<char>::empty()
                &&& final(self).tags.deep_view() == old(self).tags.deep_view().push(
                    TagSubmissionV { tag: trim_of(old(self).pending_tag_input@) },
                )
            },
    {
        let cleaned = trimmed(&self.pending_tag_input);
        if !cleaned.as_str().is_empty() {
            let ghost before_at = self.tags@;
            let ghost before_dv = self.tags.deep_view();
            let ghost goal = before_dv.push(
                TagSubmissionV { tag: trim_of(old(self).pending_tag_input@) },
            );
            let entry = TagSubmission { tag: cleaned };
            self.tags.push(entry);
            self.pending_tag_input = String::new();
            proof {
                assert(before_dv.len() == before_at.len());
                assert(self.tags@ == before_at.push(entry));
                assert forall|j: int|
                    0 <= j < self.tags@.len() implies self.tags.deep_view()[j] == goal[j] by {
                    if j < before_at.len() {
                        assert(self.tags@[j] == before_at[j]);
                        assert(before_dv[j] == before_at[j].deep_view());
                    } else {
                        assert(self.tags@[j] == entry);
                    }
                }
                assert(self.tags.deep_view() =~= goal);
            }
        }
    }

    /// Builds the payload of `POST /quotes` from the fields as they
    /// stand; the pending tag input is not part of it.
    pub fn build_submission(&self) -> (submission: QuoteSubmission)
        ensures
            submission.author_name@ == self.author_name@,
            submission.quote@ == self.quote_text@,
            submission.related_tags.deep_view() == self.tags.deep_view(),
    {
        QuoteSubmission {
            author_name: self.author_name.clone(),
            quote: self.quote_text.clone(),
            related_tags: copy_tag_submissions(&self.tags),
        }
    }
}

/// Copies the accumulated tag list, keeping order and every field.
fn copy_tag_submissions(tags: &Vec<TagSubmission>) -> (listed: Vec<TagSubmission>)
    ensures
        listed.deep_view() == tags.deep_view(),
{
    let ghost dv = tags.deep_view();
    let mut listed: Vec<TagSubmission> = Vec::new();
    let mut i: usize = 0;
    while i < tags.len()
        invariant
            i <= tags.len(),
            dv == tags.deep_view(),
            listed.deep_view() == dv.take(i as int),
        decreases tags.len() - i,
    {
        let pending = &tags[i];
        let copied = TagSubmission { tag: pending.tag.clone() };
        proof {
            assert(copied.deep_view() == dv[i as int]);
        }
        let ghost before_at = listed@;
        let ghost before_dv = listed.deep_view();
        listed.push(copied);
        proof {
            assert(before_dv.len() == i as int);
            assert(before_at.len() == i as int);
            assert(listed@ == before_at.push(copied));
            assert forall|j: int| 0 <= j < i + 1 implies listed.deep_view()[j] == dv.take(
                i + 1 as int,
            )[j] by {
                if j < i as int {
                    assert(listed@[j] == before_at[j]);
                    assert(before_dv[j] == before_at[j].deep_view());
                    assert(before_dv[j] == dv[j]);
                } else {
                    assert(listed@[j] == copied);
                }
            }
            assert(listed.deep_view() =~= dv.take(i + 1 as int));
        }
        i = i + 1;
    }
    proof {
        assert(dv.take(tags.len() as int) =~= dv);
    }
    listed
}

} // verus!
