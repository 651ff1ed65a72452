use chat_models::messages::{
    validate_interactions, validate_masquerade, validate_message_send, validate_sendable_embed,
    DataMessageSend, Interactions, Masquerade, SendableEmbed,
};
use chat_models::validation::{check_text, Bound, FieldId, ValidationError};

fn empty_embed() -> SendableEmbed {
    SendableEmbed {
        icon_url: None,
        url: None,
        title: None,
        description: None,
        media: None,
        colour: None,
    }
}

fn empty_send() -> DataMessageSend {
    DataMessageSend {
        nonce: None,
        content: None,
        attachments: None,
        replies: None,
        embeds: None,
        masquerade: None,
        interactions: None,
    }
}

#[test]
fn text_bounds_are_inclusive() {
    assert!(check_text(FieldId::Content, "ab", 1, 2).is_ok());
    assert!(check_text(FieldId::Content, "a", 1, 2).is_ok());
    assert_eq!(
        check_text(FieldId::Content, "abc", 1, 2).unwrap_err(),
        ValidationError { field: FieldId::Content, bound: Bound::Length { min: 1, max: 2 } },
    );
    assert_eq!(
        check_text(FieldId::Content, "", 1, 2).unwrap_err(),
        ValidationError { field: FieldId::Content, bound: Bound::Length { min: 1, max: 2 } },
    );
}

#[test]
fn restricted_reactions_with_empty_list_fails() {
    let with_no_list = Interactions { reactions: None, restrict_reactions: true };
    assert_eq!(
        validate_interactions(&with_no_list).unwrap_err(),
        ValidationError { field: FieldId::InteractionReactions, bound: Bound::NonEmptyList },
    );

    let with_empty_list = Interactions { reactions: Some(Vec::new()), restrict_reactions: true };
    assert_eq!(
        validate_interactions(&with_empty_list).unwrap_err(),
        ValidationError { field: FieldId::InteractionReactions, bound: Bound::NonEmptyList },
    );
}

#[test]
fn restricted_reactions_with_one_entry_passes() {
    let i = Interactions {
        reactions: Some(vec!["star".to_string()]),
        restrict_reactions: true,
    };
    assert!(validate_interactions(&i).is_ok());
}

#[test]
fn unrestricted_empty_reactions_pass() {
    let i = Interactions { reactions: None, restrict_reactions: false };
    assert!(validate_interactions(&i).is_ok());
}

#[test]
fn default_interactions_are_unrestricted_and_valid() {
    let i = Interactions::default();
    assert_eq!(i.reactions, None);
    assert!(!i.restrict_reactions);
    assert!(validate_interactions(&i).is_ok());
}

#[test]
fn combined_text_over_cap_fails_as_one_error() {
    // content at its own 2000-character bound, embed description at its
    // own 2000-character bound: each passes alone, together they exceed
    // the configured cap and fail as one single error
    let mut embed = empty_embed();
    embed.description = Some("d".repeat(2000));
    let mut d = empty_send();
    d.content = Some("c".repeat(2000));
    d.embeds = Some(vec![embed]);
    assert_eq!(
        validate_message_send(&d, 2000).unwrap_err(),
        ValidationError { field: FieldId::Content, bound: Bound::TextCap { cap: 2000 } },
    );
}

#[test]
fn combined_text_within_cap_passes() {
    let mut embed = empty_embed();
    embed.description = Some("d".repeat(1000));
    let mut d = empty_send();
    d.content = Some("c".repeat(1000));
    d.embeds = Some(vec![embed]);
    assert!(validate_message_send(&d, 2000).is_ok());
}

#[test]
fn embed_titles_count_toward_the_cap() {
    let mut embed = empty_embed();
    embed.title = Some("t".repeat(100));
    let mut d = empty_send();
    d.content = Some("c".repeat(1950));
    d.embeds = Some(vec![embed]);
    assert_eq!(
        validate_message_send(&d, 2000).unwrap_err(),
        ValidationError { field: FieldId::Content, bound: Bound::TextCap { cap: 2000 } },
    );
}

#[test]
fn content_over_its_own_bound_fails_per_field() {
    let mut d = empty_send();
    d.content = Some("c".repeat(2001));
    assert_eq!(
        validate_message_send(&d, 5000).unwrap_err(),
        ValidationError { field: FieldId::Content, bound: Bound::Length { min: 0, max: 2000 } },
    );
}

#[test]
fn empty_content_is_allowed() {
    let mut d = empty_send();
    d.content = Some(String::new());
    assert!(validate_message_send(&d, 2000).is_ok());
}

#[test]
fn empty_nonce_is_rejected() {
    let mut d = empty_send();
    d.nonce = Some(String::new());
    assert_eq!(
        validate_message_send(&d, 2000).unwrap_err(),
        ValidationError { field: FieldId::Nonce, bound: Bound::Length { min: 1, max: 64 } },
    );
}

#[test]
fn overlong_embed_title_is_rejected() {
    let mut embed = empty_embed();
    embed.title = Some("t".repeat(101));
    assert_eq!(
        validate_sendable_embed(&embed).unwrap_err(),
        ValidationError { field: FieldId::EmbedTitle, bound: Bound::Length { min: 1, max: 100 } },
    );
}

#[test]
fn overlong_masquerade_name_is_rejected() {
    let m = Masquerade { name: Some("n".repeat(33)), avatar: None, colour: None };
    assert_eq!(
        validate_masquerade(&m).unwrap_err(),
        ValidationError { field: FieldId::MasqueradeName, bound: Bound::Length { min: 1, max: 32 } },
    );
}

#[test]
fn character_count_is_what_bounds_measure() {
    // four characters, more than four bytes
    assert!(check_text(FieldId::Content, "\u{e9}\u{e9}\u{e9}\u{e9}", 1, 4).is_ok());
}

#[test]
fn field_names_read_as_the_schema_spells_them() {
    assert_eq!(FieldId::Content.name(), "content");
    assert_eq!(FieldId::InteractionReactions.name(), "interactions.reactions");
}
