use revolt::attachment::Metadata;
use revolt::authentication::Authentication;
use revolt::builder::BuilderExt;
use revolt::builder::SendMessagePayloadBuilder;
use revolt::channel::ChannelType;
use revolt::payload::SendMessagePayload;
use revolt::user::UserStatus;

#[test]
fn authentication_header_keys() {
    let a = Authentication::SessionToken("s".to_string());
    assert_eq!(a.header_key(), "x-session-token");
    assert_eq!(a.value(), "s");
    let a = Authentication::BotToken("b".to_string());
    assert_eq!(a.header_key(), "x-bot-token");
    assert_eq!(a.value(), "b");
    let a = Authentication::ValidMfaTicket("t".to_string());
    assert_eq!(a.header_key(), "x-mfa-ticket");
    assert_eq!(a.value(), "t");
    let a = Authentication::UnvalidatedMfaTicket("u".to_string());
    assert_eq!(a.header_key(), "x-mfa-ticket");
    assert_eq!(a.value(), "u");
}

#[test]
fn message_payload_builder_fills_only_content() {
    let p = SendMessagePayloadBuilder::new()
        .content("pong".to_string())
        .build();
    assert_eq!(p.content.as_deref(), Some("pong"));
    assert!(p.attachments.is_none());
    assert!(p.replies.is_none());
    assert!(p.embeds.is_none());
    assert!(p.masquerade.is_none());
    assert!(p.interactions.is_none());
}

#[test]
fn message_payload_builder_without_content() {
    let p = SendMessagePayloadBuilder::new().build();
    assert!(p.content.is_none());
}

#[test]
fn builder_ext_starts_a_builder() {
    let p = SendMessagePayload::builder().content("hi".to_string()).build();
    assert_eq!(p.content.as_deref(), Some("hi"));
}

#[test]
fn attachment_metadata_defaults_to_file() {
    assert!(matches!(Metadata::default(), Metadata::File));
}

#[test]
fn channel_type_defaults_to_text() {
    assert_eq!(ChannelType::default(), ChannelType::Text);
}

#[test]
fn user_status_defaults_to_empty() {
    let s = UserStatus::default();
    assert!(s.text.is_none());
    assert!(s.presence.is_none());
}
