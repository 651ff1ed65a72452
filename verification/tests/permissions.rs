use chat_models::permissions::{compose, effective_permissions, OverrideField, RoleOverride};

fn layer(allow: u64, deny: u64) -> OverrideField {
    OverrideField { allow, deny }
}

#[test]
fn compose_no_layers_returns_base() {
    let layers: Vec<OverrideField> = Vec::new();
    assert_eq!(compose(0b1010, &layers), 0b1010);
    assert_eq!(compose(0, &layers), 0);
    assert_eq!(compose(u64::MAX, &layers), u64::MAX);
}

#[test]
fn compose_single_allow_sets_bits() {
    let layers = vec![layer(0b0110, 0)];
    assert_eq!(compose(0b1000, &layers), 0b1110);
}

#[test]
fn compose_single_deny_clears_bits() {
    let layers = vec![layer(0, 0b0110)];
    assert_eq!(compose(0b1110, &layers), 0b1000);
}

#[test]
fn compose_allow_wins_within_one_layer() {
    let layers = vec![layer(0b0100, 0b0100)];
    assert_eq!(compose(0, &layers), 0b0100);
}

#[test]
fn compose_later_layer_wins() {
    let layers = vec![layer(0b0001, 0), layer(0, 0b0001)];
    assert_eq!(compose(0, &layers), 0);
    let layers = vec![layer(0, 0b0001), layer(0b0001, 0)];
    assert_eq!(compose(0b0001, &layers), 0b0001);
}

#[test]
fn smaller_rank_wins_over_larger_rank() {
    // the rank-1 role is more senior than the rank-2 role, so its deny
    // is applied after the rank-2 allow and wins
    let roles = vec![
        RoleOverride { rank: 1, permissions: layer(0, 0b0001) },
        RoleOverride { rank: 2, permissions: layer(0b0001, 0) },
    ];
    assert_eq!(effective_permissions(0, roles, None), 0);

    // same two roles listed in the other order: the outcome is the same
    let roles = vec![
        RoleOverride { rank: 2, permissions: layer(0b0001, 0) },
        RoleOverride { rank: 1, permissions: layer(0, 0b0001) },
    ];
    assert_eq!(effective_permissions(0, roles, None), 0);
}

#[test]
fn channel_layer_wins_over_any_role_layer() {
    // a most-senior role denies both bits; the channel override still
    // grants bit 0 and its own deny clears bit 1
    let roles = vec![
        RoleOverride { rank: -5, permissions: layer(0, 0b0011) },
        RoleOverride { rank: 7, permissions: layer(0b0010, 0) },
    ];
    let channel = Some(layer(0b0001, 0b0010));
    assert_eq!(effective_permissions(0b0010, roles, channel), 0b0001);
}

#[test]
fn effective_permissions_without_roles_or_channel_is_base() {
    assert_eq!(effective_permissions(0b1111, Vec::new(), None), 0b1111);
}

#[test]
fn default_layer_is_neutral() {
    let layers = vec![OverrideField::default()];
    assert_eq!(compose(0b1011, &layers), 0b1011);
}

#[test]
fn negative_ranks_order_before_positive() {
    // rank -1 is more senior than rank 0: its allow is applied last
    let roles = vec![
        RoleOverride { rank: 0, permissions: layer(0, 0b0001) },
        RoleOverride { rank: -1, permissions: layer(0b0001, 0) },
    ];
    assert_eq!(effective_permissions(0, roles, None), 0b0001);
}
