use chat_models::messages::{
    append_message, apply_message, AppendMessage, Embed, Interactions, Message, PartialMessage,
    Reaction, Timestamp,
};
use chat_models::permissions::OverrideField;
use chat_models::servers::{
    apply_role, apply_server, FieldsRole, FieldsServer, PartialRole, PartialServer, Role,
    RoleEntry, Server, ServerFlags,
};
use chat_models::validation::{Bound, FieldId, ValidationError};

fn base_server() -> Server {
    Server {
        id: "SRV".to_string(),
        owner: "OWNER".to_string(),
        name: "home".to_string(),
        description: Some("a place".to_string()),
        channels: vec!["C1".to_string(), "C2".to_string()],
        categories: None,
        system_messages: None,
        roles: vec![RoleEntry {
            id: "R1".to_string(),
            role: Role {
                name: "mod".to_string(),
                permissions: OverrideField { allow: 1, deny: 0 },
                colour: None,
                hoist: false,
                rank: 1,
            },
        }],
        default_permissions: 0b1010,
        icon: None,
        banner: None,
        flags: None,
        nsfw: false,
        analytics: false,
        discoverable: false,
    }
}

fn empty_partial_server() -> PartialServer {
    PartialServer {
        id: None,
        owner: None,
        name: None,
        description: None,
        channels: None,
        categories: None,
        system_messages: None,
        roles: None,
        default_permissions: None,
        icon: None,
        banner: None,
        flags: None,
        nsfw: None,
        analytics: None,
        discoverable: None,
    }
}

fn base_role() -> Role {
    Role {
        name: "mod".to_string(),
        permissions: OverrideField { allow: 0b01, deny: 0b10 },
        colour: Some("red".to_string()),
        hoist: false,
        rank: 3,
    }
}

fn empty_partial_role() -> PartialRole {
    PartialRole { name: None, permissions: None, colour: None, hoist: None, rank: None }
}

fn base_message() -> Message {
    Message {
        id: "MSG".to_string(),
        nonce: None,
        channel: "C1".to_string(),
        author: "U1".to_string(),
        webhook: None,
        content: Some("hello".to_string()),
        system: None,
        attachments: None,
        edited: None,
        embeds: None,
        mentions: None,
        replies: None,
        reactions: Vec::new(),
        interactions: Interactions { reactions: None, restrict_reactions: false },
        masquerade: None,
    }
}

fn empty_partial_message() -> PartialMessage {
    PartialMessage {
        id: None,
        nonce: None,
        channel: None,
        author: None,
        webhook: None,
        content: None,
        system: None,
        attachments: None,
        edited: None,
        embeds: None,
        mentions: None,
        replies: None,
        reactions: None,
        interactions: None,
        masquerade: None,
    }
}

#[test]
fn removal_wins_over_set() {
    let mut update = empty_partial_server();
    update.description = Some("stale".to_string());
    let remove = vec![FieldsServer::Description];
    let merged = apply_server(base_server(), update, &remove).unwrap();
    assert_eq!(merged.description, None);
}

#[test]
fn removal_clears_every_named_field() {
    let mut current = base_server();
    current.icon = Some(chat_models::messages::File {
        id: "ICON".to_string(),
        metadata: None,
    });
    let remove = vec![FieldsServer::Description, FieldsServer::Icon];
    let merged = apply_server(current, empty_partial_server(), &remove).unwrap();
    assert_eq!(merged.description, None);
    assert_eq!(merged.icon, None);
}

#[test]
fn set_only_server_merge_is_idempotent() {
    let mut update = empty_partial_server();
    update.name = Some("renamed".to_string());
    update.nsfw = Some(true);
    let no_remove: Vec<FieldsServer> = Vec::new();
    let once = apply_server(base_server(), update.clone(), &no_remove).unwrap();
    let twice = apply_server(once.clone(), update, &no_remove).unwrap();
    assert_eq!(once, twice);
}

#[test]
fn unmentioned_server_fields_stay_exactly() {
    let mut update = empty_partial_server();
    update.name = Some("renamed".to_string());
    let no_remove: Vec<FieldsServer> = Vec::new();
    let original = base_server();
    let merged = apply_server(original.clone(), update, &no_remove).unwrap();
    assert_eq!(merged.name, "renamed");
    assert_eq!(merged.id, original.id);
    assert_eq!(merged.owner, original.owner);
    assert_eq!(merged.description, original.description);
    assert_eq!(merged.channels, original.channels);
    assert_eq!(merged.roles, original.roles);
    assert_eq!(merged.default_permissions, original.default_permissions);
    assert_eq!(merged.nsfw, original.nsfw);
}

#[test]
fn empty_but_present_is_distinct_from_absent() {
    // setting the channel list to an empty list is a real set, not a
    // "no change"
    let mut update = empty_partial_server();
    update.channels = Some(Vec::new());
    let no_remove: Vec<FieldsServer> = Vec::new();
    let merged = apply_server(base_server(), update, &no_remove).unwrap();
    assert_eq!(merged.channels, Vec::<String>::new());
}

#[test]
fn invalid_server_update_is_rejected_whole() {
    let mut update = empty_partial_server();
    update.name = Some(String::new());
    let no_remove: Vec<FieldsServer> = Vec::new();
    let err = apply_server(base_server(), update, &no_remove).unwrap_err();
    assert_eq!(
        err,
        ValidationError { field: FieldId::ServerName, bound: Bound::Length { min: 1, max: 32 } },
    );
}

#[test]
fn role_colour_removal_wins_over_set() {
    let mut update = empty_partial_role();
    update.colour = Some("blue".to_string());
    let remove = vec![FieldsRole::Colour];
    let merged = apply_role(base_role(), update, &remove).unwrap();
    assert_eq!(merged.colour, None);
}

#[test]
fn role_set_fields_take_the_update_value() {
    let mut update = empty_partial_role();
    update.rank = Some(-2);
    update.hoist = Some(true);
    let no_remove: Vec<FieldsRole> = Vec::new();
    let merged = apply_role(base_role(), update, &no_remove).unwrap();
    assert_eq!(merged.rank, -2);
    assert!(merged.hoist);
    assert_eq!(merged.name, "mod");
    assert_eq!(merged.colour.as_deref(), Some("red"));
}

#[test]
fn set_only_role_merge_is_idempotent() {
    let mut update = empty_partial_role();
    update.name = Some("admin".to_string());
    let no_remove: Vec<FieldsRole> = Vec::new();
    let once = apply_role(base_role(), update.clone(), &no_remove).unwrap();
    let twice = apply_role(once.clone(), update, &no_remove).unwrap();
    assert_eq!(once, twice);
}

#[test]
fn message_edit_sets_content_and_timestamp() {
    let mut update = empty_partial_message();
    update.content = Some("edited".to_string());
    update.edited = Some(Timestamp { unix_millis: 1_700_000_000_000 });
    let merged = apply_message(base_message(), update, 2000).unwrap();
    assert_eq!(merged.content.as_deref(), Some("edited"));
    assert_eq!(merged.edited, Some(Timestamp { unix_millis: 1_700_000_000_000 }));
    assert_eq!(merged.id, "MSG");
    assert_eq!(merged.channel, "C1");
    assert_eq!(merged.author, "U1");
}

#[test]
fn set_only_message_merge_is_idempotent() {
    let mut update = empty_partial_message();
    update.content = Some("edited".to_string());
    update.reactions = Some(vec![Reaction {
        emoji: "star".to_string(),
        users: vec!["U2".to_string()],
    }]);
    let once = apply_message(base_message(), update.clone(), 2000).unwrap();
    let twice = apply_message(once.clone(), update, 2000).unwrap();
    assert_eq!(once, twice);
}

#[test]
fn invalid_message_update_is_rejected_whole() {
    let mut update = empty_partial_message();
    update.content = Some("c".repeat(2001));
    let err = apply_message(base_message(), update, 5000).unwrap_err();
    assert_eq!(
        err,
        ValidationError { field: FieldId::Content, bound: Bound::Length { min: 0, max: 2000 } },
    );
}

#[test]
fn message_update_over_text_cap_is_rejected() {
    let mut update = empty_partial_message();
    update.content = Some("c".repeat(1500));
    update.embeds = Some(vec![chat_models::messages::Embed {
        icon_url: None,
        url: None,
        title: None,
        description: Some("d".repeat(1500)),
        media: None,
        colour: None,
    }]);
    let err = apply_message(base_message(), update, 2000).unwrap_err();
    assert_eq!(
        err,
        ValidationError { field: FieldId::Content, bound: Bound::TextCap { cap: 2000 } },
    );
}

#[test]
fn append_extends_embeds_at_the_end() {
    let embed = |title: &str| Embed {
        icon_url: None,
        url: None,
        title: Some(title.to_string()),
        description: None,
        media: None,
        colour: None,
    };
    let mut current = base_message();
    current.embeds = Some(vec![embed("first")]);
    let appended = append_message(
        current,
        AppendMessage { embeds: Some(vec![embed("second"), embed("third")]) },
    );
    let titles: Vec<_> = appended
        .embeds
        .unwrap()
        .into_iter()
        .map(|e| e.title.unwrap())
        .collect();
    assert_eq!(titles, vec!["first", "second", "third"]);
}

#[test]
fn append_without_embeds_changes_nothing() {
    let current = base_message();
    let appended = append_message(current.clone(), AppendMessage { embeds: None });
    assert_eq!(appended, current);
}

#[test]
fn server_flag_values_round_trip() {
    assert_eq!(ServerFlags::Verified.value(), 1);
    assert_eq!(ServerFlags::Official.value(), 2);
    assert_eq!(ServerFlags::try_from_value(1), Some(ServerFlags::Verified));
    assert_eq!(ServerFlags::try_from_value(2), Some(ServerFlags::Official));
    assert_eq!(ServerFlags::try_from_value(3), None);
    assert_eq!(ServerFlags::try_from_value(0), None);
}

#[test]
fn server_flags_are_independently_or_able() {
    let bits = ServerFlags::Verified.value() | ServerFlags::Official.value();
    assert!(ServerFlags::Verified.is_set_in(bits));
    assert!(ServerFlags::Official.is_set_in(bits));
    assert!(!ServerFlags::Official.is_set_in(ServerFlags::Verified.value()));
}
