//! Tests of the format validators and the read-model records.

use alarkhabil_server::errors::{AuthError, ErrorReporting};
use alarkhabil_server::types::{
    AuthorInfo, AuthorSummary, ChannelInfo, ChannelSummary, MsgMetaUpdate, NewInviteResult,
    PostInfo, RevisionInfo,
};
use alarkhabil_server::validate::{
    is_valid_dns_token, validate_channel_handle, validate_language_code, validate_v4_uuid,
};

#[test]
fn dns_tokens() {
    assert!(is_valid_dns_token("about"));
    assert!(is_valid_dns_token("about-us-2024"));
    assert!(is_valid_dns_token("a"));
    assert!(!is_valid_dns_token(""));
    assert!(!is_valid_dns_token("-about"));
    assert!(!is_valid_dns_token("about-"));
    assert!(!is_valid_dns_token("about--us"));
    assert!(!is_valid_dns_token("About"));
    assert!(!is_valid_dns_token("about us"));
    assert!(is_valid_dns_token(&"a".repeat(64)));
    assert!(!is_valid_dns_token(&"a".repeat(65)));
}

#[test]
fn channel_handles() {
    assert!(validate_channel_handle("my-channel").is_ok());
    assert_eq!(
        validate_channel_handle("My-Channel").unwrap_err(),
        AuthError::InvalidEncoding
    );
    assert!(validate_channel_handle(&"h".repeat(65)).is_err());
}

#[test]
fn language_codes() {
    assert!(validate_language_code("en").is_ok());
    assert!(validate_language_code("ast").is_ok());
    assert!(validate_language_code("en-US").is_ok());
    assert!(validate_language_code("ast-ES").is_ok());
    assert!(validate_language_code("EN").is_err());
    assert!(validate_language_code("e").is_err());
    assert!(validate_language_code("en-us").is_err());
    assert!(validate_language_code("en-USA").is_err());
    assert!(validate_language_code("engl").is_err());
    assert!(validate_language_code("").is_err());
}

#[test]
fn uuid_validation() {
    assert!(validate_v4_uuid("3aac8f8c-44b2-48a1-9e17-6fcdd3b963da").is_ok());
    assert!(validate_v4_uuid("3AAC8F8C-44B2-48A1-9E17-6FCDD3B963DA").is_err());
    assert!(validate_v4_uuid("3aac8f8c-44b2-18a1-9e17-6fcdd3b963da").is_err());
    assert!(validate_v4_uuid("3aac8f8c-44b2-48a1-ce17-6fcdd3b963da").is_err());
    assert!(validate_v4_uuid("3aac8f8c44b248a19e176fcdd3b963da").is_err());
    assert!(validate_v4_uuid("").is_err());
}

#[test]
fn author_records() {
    let info = AuthorInfo::new("u-1", "Alice", 1700000000, "hello *world*",
        "<p>hello <em>world</em></p>");
    assert_eq!(info.uuid(), "u-1");
    assert_eq!(info.name(), "Alice");
    assert_eq!(info.created_date(), 1700000000);
    assert_eq!(info.description_text(), "hello *world*");
    assert_eq!(info.description_html(), "<p>hello <em>world</em></p>");

    let summary = AuthorSummary::new("u-1", "Alice");
    assert_eq!(summary.uuid(), "u-1");
    assert_eq!(summary.name(), "Alice");
}

#[test]
fn channel_records() {
    let info = ChannelInfo::new("c-1", "my-channel", "My Channel", 1700000001, "en", "text",
        "<p>text</p>");
    assert_eq!(info.uuid(), "c-1");
    assert_eq!(info.handle(), "my-channel");
    assert_eq!(info.name(), "My Channel");
    assert_eq!(info.created_date(), 1700000001);
    assert_eq!(info.lang(), "en");
    assert_eq!(info.description_text(), "text");
    assert_eq!(info.description_html(), "<p>text</p>");

    let summary = ChannelSummary::new("c-1", "my-channel", "My Channel", "en");
    assert_eq!(summary.uuid(), "c-1");
    assert_eq!(summary.handle(), "my-channel");
    assert_eq!(summary.name(), "My Channel");
    assert_eq!(summary.lang(), "en");
}

#[test]
fn post_records() {
    let author = AuthorSummary::new("a-1", "Alice");
    let channel = ChannelSummary::new("c-1", "my-channel", "My Channel", "en");
    let revision = RevisionInfo::new("r-1", &author, 1700000002, "Title", "Body");
    assert_eq!(revision.uuid(), "r-1");
    assert_eq!(revision.author().uuid(), "a-1");
    assert_eq!(revision.created_date(), 1700000002);
    assert_eq!(revision.title(), "Title");
    assert_eq!(revision.revision_text(), "Body");

    let tags = vec!["news".to_string(), "updates".to_string()];
    let post = PostInfo::new("p-1", &channel, tags, &revision, &author);
    assert_eq!(post.post_uuid(), "p-1");
    assert_eq!(post.channel().handle(), "my-channel");
    assert_eq!(post.tags(), &vec!["news".to_string(), "updates".to_string()]);
    assert_eq!(post.revision_uuid(), "r-1");
    assert_eq!(post.revision_date(), 1700000002);
    assert_eq!(post.title(), "Title");
    assert_eq!(post.revision_text(), "Body");
    assert_eq!(post.author().name(), "Alice");
}

#[test]
fn plain_payload_records() {
    let msg = MsgMetaUpdate {
        page_name: "about".to_string(),
        title: "About".to_string(),
        text: "Hello".to_string(),
    };
    assert!(is_valid_dns_token(&msg.page_name));
    let result = NewInviteResult { invite: vec![1u8, 2, 3] };
    assert_eq!(result.invite, vec![1u8, 2, 3]);
}

#[test]
fn error_reporting_modes_are_distinct() {
    assert_eq!(ErrorReporting::Json, ErrorReporting::Json);
    assert_ne!(ErrorReporting::Json, ErrorReporting::Html);
}
