use perspective::Attribute;
use perspective::AttributeOptions;
use perspective::Comment;
use perspective::CommentBuilder;
use perspective::EntryBuilder;
use perspective::LanguageCode;
use perspective::RequestBuilder;
use perspective::ScoreType;

#[test]
fn comment_accepts_text_at_the_limit() {
    let text = "a".repeat(20_000);
    let comment = CommentBuilder::default().text(text.clone()).build().unwrap();
    assert_eq!(comment.text, text);
    assert!(comment.type_.is_none());
}

#[test]
fn comment_rejects_text_over_the_limit() {
    let text = "a".repeat(20_001);
    let built = CommentBuilder::default().text(text).build();
    assert_eq!(built.unwrap_err(), "comment text cannot exceed 20kb");
}

#[test]
fn comment_limit_counts_bytes_not_characters() {
    // 10_001 two-byte characters: barely over 20 kB despite the low
    // character count.
    let text = "\u{e9}".repeat(10_001);
    let built = CommentBuilder::default().text(text).build();
    assert_eq!(built.unwrap_err(), "comment text cannot exceed 20kb");
}

#[test]
fn comment_requires_text() {
    let built = CommentBuilder::default().build();
    assert_eq!(built.unwrap_err(), "comment text must be initialized");
}

#[test]
fn comment_from_string_is_plain() {
    let comment = Comment::from(String::from("hi"));
    assert_eq!(comment.text, "hi");
    assert!(comment.type_.is_none());
}

#[test]
fn entry_accepts_text_at_the_limit() {
    let text = "b".repeat(1_000_000);
    let entry = EntryBuilder::default().text(text.clone()).build().unwrap();
    assert_eq!(entry.text, text);
}

#[test]
fn entry_rejects_text_over_the_limit() {
    let text = "b".repeat(1_000_001);
    let built = EntryBuilder::default().text(text).build();
    assert_eq!(built.unwrap_err(), "context entry text cannot exceed 1MB");
}

#[test]
fn default_options_request_probabilities() {
    assert_eq!(AttributeOptions::default().score_type, ScoreType::Probability);
}

#[test]
fn request_rejects_empty_attribute_list() {
    let built = RequestBuilder::default()
        .comment(Comment::from(String::from("text")))
        .requested_attributes(vec![])
        .build();
    assert_eq!(built.unwrap_err(), "requested attributes cannot be empty");
}

#[test]
fn request_rejects_incompatible_language() {
    let built = RequestBuilder::default()
        .comment(Comment::from(String::from("text")))
        .add_attribute(Attribute::Spam, AttributeOptions::default())
        .languages(vec![LanguageCode::German])
        .build();
    assert_eq!(
        built.unwrap_err(),
        "requested attributes are incompatible with the selected language(s)"
    );
}

#[test]
fn request_accepts_nyt_attributes_in_english() {
    let request = RequestBuilder::default()
        .comment(Comment::from(String::from("text")))
        .add_attribute(Attribute::Spam, AttributeOptions::default())
        .languages(vec![LanguageCode::English])
        .build()
        .unwrap();
    assert_eq!(request.requested_attributes.len(), 1);
    assert_eq!(request.languages, Some(vec![LanguageCode::English]));
}

#[test]
fn request_requires_a_comment() {
    let built = RequestBuilder::default()
        .add_attribute(Attribute::Toxicity, AttributeOptions::default())
        .build();
    assert_eq!(built.unwrap_err(), "comment must be initialized");
}

#[test]
fn request_requires_attributes() {
    let built = RequestBuilder::default()
        .comment(Comment::from(String::from("text")))
        .build();
    assert_eq!(built.unwrap_err(), "requested attributes must be initialized");
}

#[test]
fn add_attribute_replaces_an_existing_key() {
    let request = RequestBuilder::default()
        .comment(Comment::from(String::from("text")))
        .add_attribute(Attribute::Toxicity, AttributeOptions::default())
        .add_attribute(Attribute::Insult, AttributeOptions::default())
        .add_attribute(Attribute::Toxicity, AttributeOptions::default())
        .build()
        .unwrap();
    let keys: Vec<Attribute> = request
        .requested_attributes
        .iter()
        .map(|(a, _)| *a)
        .collect();
    assert_eq!(keys, vec![Attribute::Toxicity, Attribute::Insult]);
}

#[test]
fn all_attributes_requests_everything() {
    let request = RequestBuilder::default()
        .comment(Comment::from(String::from("text")))
        .all_attributes()
        .build()
        .unwrap();
    let keys: Vec<Attribute> = request
        .requested_attributes
        .iter()
        .map(|(a, _)| *a)
        .collect();
    assert_eq!(keys, Attribute::all());
    for (_, options) in &request.requested_attributes {
        assert_eq!(options.score_type, ScoreType::Probability);
    }
}

#[test]
fn unset_request_fields_stay_empty() {
    let request = RequestBuilder::default()
        .comment(Comment::from(String::from("text")))
        .add_attribute(Attribute::Toxicity, AttributeOptions::default())
        .build()
        .unwrap();
    assert!(request.context.is_none());
    assert!(request.span_annotations.is_none());
    assert!(request.languages.is_none());
    assert!(request.do_not_store.is_none());
    assert!(request.client_token.is_none());
    assert!(request.session_id.is_none());
    assert!(request.community_id.is_none());
}
