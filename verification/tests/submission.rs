//! Scenarios for the submission pipeline.

use quote_client::model::TagSubmission;
use quote_client::submit::SubmissionForm;

#[test]
fn new_form_is_blank() {
    let form = SubmissionForm::new();
    assert_eq!(form.author_name, "");
    assert_eq!(form.quote_text, "");
    assert_eq!(form.pending_tag_input, "");
    assert!(form.tags.is_empty());
}

#[test]
fn add_tag_appends_trimmed_and_clears_input() {
    let mut form = SubmissionForm::new();
    form.set_pending_tag_input(" urgent ".to_string());
    form.add_tag();
    assert_eq!(
        form.tags,
        vec![TagSubmission {
            tag: "urgent".to_string()
        }]
    );
    assert_eq!(form.pending_tag_input, "");
}

#[test]
fn add_tag_noop_on_empty_input() {
    let mut form = SubmissionForm::new();
    form.set_pending_tag_input("".to_string());
    let before = form.clone();
    form.add_tag();
    assert_eq!(form, before);
}

#[test]
fn add_tag_noop_on_whitespace_input() {
    let mut form = SubmissionForm::new();
    form.set_pending_tag_input("   ".to_string());
    form.add_tag();
    assert!(form.tags.is_empty());
    // The pending input is not cleared by a no-op.
    assert_eq!(form.pending_tag_input, "   ");
}

#[test]
fn add_tag_keeps_order_and_duplicates() {
    let mut form = SubmissionForm::new();
    form.set_pending_tag_input("wit".to_string());
    form.add_tag();
    form.set_pending_tag_input("wisdom".to_string());
    form.add_tag();
    form.set_pending_tag_input("wit".to_string());
    form.add_tag();
    let listed: Vec<&str> = form.tags.iter().map(|t| t.tag.as_str()).collect();
    assert_eq!(listed, vec!["wit", "wisdom", "wit"]);
}

#[test]
fn setters_touch_only_their_field() {
    let mut form = SubmissionForm::new();
    form.set_author_name("Ada".to_string());
    form.set_quote_text("Q1".to_string());
    form.set_pending_tag_input("wit".to_string());
    assert_eq!(form.author_name, "Ada");
    assert_eq!(form.quote_text, "Q1");
    assert_eq!(form.pending_tag_input, "wit");
    assert!(form.tags.is_empty());
}

#[test]
fn build_submission_collects_fields() {
    let mut form = SubmissionForm::new();
    form.set_author_name("Ada".to_string());
    form.set_quote_text("Q1".to_string());
    form.set_pending_tag_input("wit".to_string());
    form.add_tag();
    let submission = form.build_submission();
    assert_eq!(submission.author_name, "Ada");
    assert_eq!(submission.quote, "Q1");
    assert_eq!(
        submission.related_tags,
        vec![TagSubmission {
            tag: "wit".to_string()
        }]
    );
}

#[test]
fn build_submission_permits_blank_fields() {
    // No client-side validation: a blank author and quote still build a
    // payload; the server is the one to judge it.
    let form = SubmissionForm::new();
    let submission = form.build_submission();
    assert_eq!(submission.author_name, "");
    assert_eq!(submission.quote, "");
    assert!(submission.related_tags.is_empty());
}

#[test]
fn build_submission_leaves_pending_input_out() {
    let mut form = SubmissionForm::new();
    form.set_pending_tag_input("never added".to_string());
    let submission = form.build_submission();
    assert!(submission.related_tags.is_empty());
}
