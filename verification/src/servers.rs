//! Server and role entities: the canonical shapes, their partial mirrors,
//! the removable-field sets, and the rules that validate and merge them.

use vstd::prelude::*;
use crate::opt_set_or_keep;
use crate::set_or_keep;
use crate::messages::File;
use crate::permissions::OverrideField;
use crate::permissions::RoleOverride;
use crate::validation::Bound;
use crate::validation::FieldId;
use crate::validation::ValidationError;
use crate::validation::check_opt_text;
use crate::validation::check_text;
use crate::validation::opt_text_in_bounds;
use crate::validation::text_in_bounds;
use crate::validation::COLOUR_MAX;
use crate::validation::NAME_MAX;

verus! {

/// Whether a boolean value is false. The serialization boundary uses this
/// to omit boolean fields that sit at their default.
pub fn if_false(t: &bool) -> (r: bool)
    ensures
        r == !*t,
{
    !*t
}

/// A channel category: an id, a title and the channels grouped under it.
/// Every channel id it lists must exist in the owning server's channel
/// list; the store enforces that cross-entity invariant, and the merge
/// engine must not break it when categories and channels change together.
#[derive(Clone, PartialEq, Eq, Debug)]
pub struct Category {
    /// Unique id; 1 to 32 characters.
    pub id: String,
    /// Title; 1 to 32 characters.
    pub title: String,
    /// Ids of the channels in this category, in order.
    pub channels: Vec<String>,
}

/// A server flag. Flags combine into a bitfield by `or`-ing their values,
/// each independently.
#[derive(Clone, Copy, PartialEq, Eq, Structural, Debug)]
pub enum ServerFlags {
    /// The server is verified.
    Verified,
    /// The server is official.
    Official,
}

/// The bit a server flag contributes to the flag bitfield.
pub open spec fn spec_flag_value(f: ServerFlags) -> i32 {
    match f {
        ServerFlags::Verified => 1,
        ServerFlags::Official => 2,
    }
}

impl ServerFlags {
    /// The flag's bit value.
    pub fn value(self) -> (r: i32)
        ensures
            r == spec_flag_value(self),
    {
        match self {
            ServerFlags::Verified => 1,
            ServerFlags::Official => 2,
        }
    }

    /// The flag a primitive value denotes, when it denotes one.
    pub fn try_from_value(v: i32) -> (r: Option<ServerFlags>)
        ensures
            v == 1 ==> r == Some(ServerFlags::Verified),
            v == 2 ==> r == Some(ServerFlags::Official),
            v != 1 && v != 2 ==> r is None,
    {
        if v == 1 {
            Some(ServerFlags::Verified)
        } else if v == 2 {
            Some(ServerFlags::Official)
        } else {
            None
        }
    }

    /// Whether this flag is set in a flag bitfield.
    pub fn is_set_in(self, flags: i32) -> (r: bool)
        ensures
            r == ((flags & spec_flag_value(self)) != 0),
    {
        (flags & self.value()) != 0
    }
}

/// Channel assignments for system event messages.
#[derive(Clone, PartialEq, Eq, Debug)]
pub struct SystemMessageChannels {
    /// Channel for user-joined messages.
    pub user_joined: Option<String>,
    /// Channel for user-left messages.
    pub user_left: Option<String>,
    /// Channel for user-kicked messages.
    pub user_kicked: Option<String>,
    /// Channel for user-banned messages.
    pub user_banned: Option<String>,
}

/// The removable fields of a server: one variant per optional canonical
/// field an update may explicitly clear. Removal is how a caller unsets a
/// field that already holds a value, a state a partial alone cannot
/// express, since absence there already means "no change".
#[derive(Clone, Copy, PartialEq, Eq, Structural, Debug)]
pub enum FieldsServer {
    /// Clear the description.
    Description,
    /// Clear the category list.
    Categories,
    /// Clear the system-message channel assignments.
    SystemMessages,
    /// Clear the icon.
    Icon,
    /// Clear the banner.
    Banner,
}

/// The removable fields of a role.
#[derive(Clone, Copy, PartialEq, Eq, Structural, Debug)]
pub enum FieldsRole {
    /// Clear the colour.
    Colour,
}

/// A server role.
#[derive(Clone, PartialEq, Eq, Debug)]
pub struct Role {
    /// Role name; 1 to 32 characters.
    pub name: String,
    /// The role's permission override.
    pub permissions: OverrideField,
    /// Colour token; 1 to 128 characters when present.
    pub colour: Option<String>,
    /// Whether the role is shown separately on the member sidebar.
    pub hoist: bool,
    /// Ranking; lower rank means higher precedence.
    pub rank: i64,
}

impl Role {
    /// The role's contribution to permission composition.
    pub fn layer(&self) -> (r: RoleOverride)
        ensures
            r == (RoleOverride { rank: self.rank, permissions: self.permissions }),
    {
        RoleOverride { rank: self.rank, permissions: self.permissions }
    }
}

/// The partial mirror of [`Role`]: every field optional.
#[derive(Clone, PartialEq, Eq, Debug)]
pub struct PartialRole {
    /// Sets the name.
    pub name: Option<String>,
    /// Sets the permission override.
    pub permissions: Option<OverrideField>,
    /// Sets the colour.
    pub colour: Option<String>,
    /// Sets the hoist flag.
    pub hoist: Option<bool>,
    /// Sets the rank.
    pub rank: Option<i64>,
}

/// One entry of a server's role mapping: a role id and its role. Ids are
/// unique; entry order carries no meaning, each role is independently
/// ranked.
#[derive(Clone, PartialEq, Eq, Debug)]
pub struct RoleEntry {
    /// The role's unique id.
    pub id: String,
    /// The role.
    pub role: Role,
}

/// A canonical server.
#[derive(Clone, PartialEq, Eq, Debug)]
pub struct Server {
    /// Unique id; immutable.
    pub id: String,
    /// User id of the owner.
    pub owner: String,
    /// Name; 1 to 32 characters.
    pub name: String,
    /// Description.
    pub description: Option<String>,
    /// Ids of the server's channels, in order.
    pub channels: Vec<String>,
    /// Categories, in order.
    pub categories: Option<Vec<Category>>,
    /// System-message channel assignments.
    pub system_messages: Option<SystemMessageChannels>,
    /// The server's roles, keyed by role id; ids are unique.
    pub roles: Vec<RoleEntry>,
    /// Default permission mask: the base layer for every member without
    /// role overrides.
    pub default_permissions: u64,
    /// Icon attachment.
    pub icon: Option<File>,
    /// Banner attachment.
    pub banner: Option<File>,
    /// Flag bitfield; see [`ServerFlags`].
    pub flags: Option<i32>,
    /// Whether the server is flagged as not safe for work.
    pub nsfw: bool,
    /// Whether analytics are enabled.
    pub analytics: bool,
    /// Whether the server is publicly discoverable.
    pub discoverable: bool,
}

/// The partial mirror of [`Server`]: every field optional.
#[derive(Clone, PartialEq, Eq, Debug)]
pub struct PartialServer {
    /// Sets the unique id.
    pub id: Option<String>,
    /// Sets the owner.
    pub owner: Option<String>,
    /// Sets the name.
    pub name: Option<String>,
    /// Sets the description.
    pub description: Option<String>,
    /// Sets the channel list.
    pub channels: Option<Vec<String>>,
    /// Sets the category list.
    pub categories: Option<Vec<Category>>,
    /// Sets the system-message channel assignments.
    pub system_messages: Option<SystemMessageChannels>,
    /// Sets the role mapping.
    pub roles: Option<Vec<RoleEntry>>,
    /// Sets the default permission mask.
    pub default_permissions: Option<u64>,
    /// Sets the icon.
    pub icon: Option<File>,
    /// Sets the banner.
    pub banner: Option<File>,
    /// Sets the flag bitfield.
    pub flags: Option<i32>,
    /// Sets the nsfw flag.
    pub nsfw: Option<bool>,
    /// Sets the analytics flag.
    pub analytics: Option<bool>,
    /// Sets the discoverable flag.
    pub discoverable: Option<bool>,
}

/// The layers a server's roles contribute to permission composition, in
/// entry order. Sorting by rank happens during composition itself.
pub fn role_layers(roles: &Vec<RoleEntry>) -> (r: Vec<RoleOverride>)
    ensures
        r@.len() == roles@.len(),
        forall|j: int|
            0 <= j < roles@.len() ==> r@[j] == (RoleOverride {
                rank: roles@[j].role.rank,
                permissions: roles@[j].role.permissions,
            }),
{
    let mut out: Vec<RoleOverride> = Vec::new();
    let mut i: usize = 0;
    while i < roles.len()
        invariant
            i <= roles@.len(),
            out@.len() == i,
            forall|j: int|
                0 <= j < i ==> out@[j] == (RoleOverride {
                    rank: roles@[j].role.rank,
                    permissions: roles@[j].role.permissions,
                }),
        decreases roles.len() - i,
    {
        let entry = &roles[i];
        out.push(entry.role.layer());
        i = i + 1;
    }
    out
}

/// Whether a removal list names a given server field.
pub fn server_field_removed(remove: &Vec<FieldsServer>, f: FieldsServer) -> (r: bool)
    ensures
        r == remove@.contains(f),
{
    let mut i: usize = 0;
    while i < remove.len()
        invariant
            i <= remove@.len(),
            forall|j: int| 0 <= j < i ==> remove@[j] != f,
        decreases remove.len() - i,
    {
        if remove[i] == f {
            return true;
        }
        i = i + 1;
    }
    false
}

/// Whether a removal list names a given role field.
pub fn role_field_removed(remove: &Vec<FieldsRole>, f: FieldsRole) -> (r: bool)
    ensures
        r == remove@.contains(f),
{
    let mut i: usize = 0;
    while i < remove.len()
        invariant
            i <= remove@.len(),
            forall|j: int| 0 <= j < i ==> remove@[j] != f,
        decreases remove.len() - i,
    {
        if remove[i] == f {
            return true;
        }
        i = i + 1;
    }
    false
}

/// Whether a category meets both of its length bounds.
pub open spec fn category_ok(c: Category) -> bool {
    &&& text_in_bounds(c.id@, 1, NAME_MAX as int)
    &&& text_in_bounds(c.title@, 1, NAME_MAX as int)
}

/// The first violated bound of a category, or `None` when it is valid.
pub open spec fn category_error(c: Category) -> Option<ValidationError> {
    if !text_in_bounds(c.id@, 1, NAME_MAX as int) {
        Some(
            ValidationError {
                field: FieldId::CategoryId,
                bound: Bound::Length { min: 1, max: NAME_MAX },
            },
        )
    } else if !text_in_bounds(c.title@, 1, NAME_MAX as int) {
        Some(
            ValidationError {
                field: FieldId::CategoryTitle,
                bound: Bound::Length { min: 1, max: NAME_MAX },
            },
        )
    } else {
        None
    }
}

/// Checks a category against both of its length bounds.
pub fn validate_category(c: &Category) -> (r: Result<(), ValidationError>)
    ensures
        r is Ok <==> category_ok(*c),
        r == (match category_error(*c) {
            Some(err) => Err::<(), ValidationError>(err),
            None => Ok::<(), ValidationError>(()),
        }),
{
    let checked = check_text(FieldId::CategoryId, c.id.as_str(), 1, NAME_MAX);
    if let Err(err) = checked {
        return Err(err);
    }
    let checked = check_text(FieldId::CategoryTitle, c.title.as_str(), 1, NAME_MAX);
    if let Err(err) = checked {
        return Err(err);
    }
    Ok(())
}

/// The first violated bound over a sequence of categories, scanning front
/// to back, or `None` when every category is valid.
pub open spec fn categories_error(s: Seq<Category>) -> Option<ValidationError>
    decreases s.len(),
{
    if s.len() == 0 {
        None
    } else if !category_ok(s.first()) {
        category_error(s.first())
    } else {
        categories_error(s.drop_first())
    }
}

/// Checks every category of an update, front to back.
pub fn validate_categories(v: &Vec<Category>) -> (r: Result<(), ValidationError>)
    ensures
        r is Ok <==> (forall|j: int| 0 <= j < v@.len() ==> category_ok(v@[j])),
        r == (match categories_error(v@) {
            Some(err) => Err::<(), ValidationError>(err),
            None => Ok::<(), ValidationError>(()),
        }),
{
    let ghost s = v@;
    let mut i: usize = 0;
    proof {
        assert(s.skip(0) =~= s);
    }
    while i < v.len()
        invariant
            s == v@,
            i <= s.len(),
            forall|j: int| 0 <= j < i ==> category_ok(s[j]),
            categories_error(s) == categories_error(s.skip(i as int)),
        decreases s.len() - i,
    {
        proof {
            assert(s.skip(i as int).first() == s[i as int]);
            assert(s.skip(i as int).drop_first() =~= s.skip(i + 1));
        }
        let checked = validate_category(&v[i]);
        if let Err(err) = checked {
            return Err(err);
        }
        i = i + 1;
    }
    proof {
        assert(s.skip(s.len() as int) =~= Seq::<Category>::empty());
    }
    Ok(())
}

/// Whether a server update passes every validation rule.
pub open spec fn partial_server_ok(p: PartialServer) -> bool {
    &&& opt_text_in_bounds(p.name, 1, NAME_MAX as int)
    &&& (p.categories matches Some(cs) ==> forall|j: int|
        0 <= j < cs@.len() ==> category_ok(cs@[j]))
}

/// The single error a server update fails with, or `None` when it is
/// valid: the name bound first, then the categories in order.
pub open spec fn partial_server_error(p: PartialServer) -> Option<ValidationError> {
    let name_err = if !opt_text_in_bounds(p.name, 1, NAME_MAX as int) {
        Some(
            ValidationError {
                field: FieldId::ServerName,
                bound: Bound::Length { min: 1, max: NAME_MAX },
            },
        )
    } else {
        None
    };
    let categories_err = match p.categories {
        Some(cs) => categories_error(cs@),
        None => None,
    };
    if name_err is Some {
        name_err
    } else if categories_err is Some {
        categories_err
    } else {
        None
    }
}

/// Checks a server update against every rule.
pub fn validate_partial_server(p: &PartialServer) -> (r: Result<(), ValidationError>)
    ensures
        r is Ok <==> partial_server_ok(*p),
        r == (match partial_server_error(*p) {
            Some(err) => Err::<(), ValidationError>(err),
            None => Ok::<(), ValidationError>(()),
        }),
{
    let checked = check_opt_text(FieldId::ServerName, &p.name, 1, NAME_MAX);
    if let Err(err) = checked {
        return Err(err);
    }
    if let Some(cs) = &p.categories {
        let checked = validate_categories(cs);
        if let Err(err) = checked {
            return Err(err);
        }
    }
    Ok(())
}

/// Whether a role update passes every validation rule.
pub open spec fn partial_role_ok(p: PartialRole) -> bool {
    &&& opt_text_in_bounds(p.name, 1, NAME_MAX as int)
    &&& opt_text_in_bounds(p.colour, 1, COLOUR_MAX as int)
}

/// The single error a role update fails with, or `None` when it is valid.
pub open spec fn partial_role_error(p: PartialRole) -> Option<ValidationError> {
    if !opt_text_in_bounds(p.name, 1, NAME_MAX as int) {
        Some(
            ValidationError { field: FieldId::RoleName, bound: Bound::Length { min: 1, max: NAME_MAX } },
        )
    } else if !opt_text_in_bounds(p.colour, 1, COLOUR_MAX as int) {
        Some(
            ValidationError {
                field: FieldId::RoleColour,
                bound: Bound::Length { min: 1, max: COLOUR_MAX },
            },
        )
    } else {
        None
    }
}

/// Checks a role update against every rule.
pub fn validate_partial_role(p: &PartialRole) -> (r: Result<(), ValidationError>)
    ensures
        r is Ok <==> partial_role_ok(*p),
        r == (match partial_role_error(*p) {
            Some(err) => Err::<(), ValidationError>(err),
            None => Ok::<(), ValidationError>(()),
        }),
{
    let checked = check_opt_text(FieldId::RoleName, &p.name, 1, NAME_MAX);
    if let Err(err) = checked {
        return Err(err);
    }
    let checked = check_opt_text(FieldId::RoleColour, &p.colour, 1, COLOUR_MAX);
    if let Err(err) = checked {
        return Err(err);
    }
    Ok(())
}

/// The merge of a partial server onto a canonical server, under a removal
/// list. For each field: a removal entry wins outright and yields the
/// field's empty state, whatever the update carries; otherwise a value
/// carried by the update is set (even an empty-but-present one); otherwise
/// the current value stays.
pub open spec fn merge_server(e: Server, p: PartialServer, remove: Seq<FieldsServer>) -> Server {
    Server {
        id: set_or_keep(e.id, p.id),
        owner: set_or_keep(e.owner, p.owner),
        name: set_or_keep(e.name, p.name),
        description: if remove.contains(FieldsServer::Description) {
            None
        } else {
            opt_set_or_keep(e.description, p.description)
        },
        channels: set_or_keep(e.channels, p.channels),
        categories: if remove.contains(FieldsServer::Categories) {
            None
        } else {
            opt_set_or_keep(e.categories, p.categories)
        },
        system_messages: if remove.contains(FieldsServer::SystemMessages) {
            None
        } else {
            opt_set_or_keep(e.system_messages, p.system_messages)
        },
        roles: set_or_keep(e.roles, p.roles),
        default_permissions: set_or_keep(e.default_permissions, p.default_permissions),
        icon: if remove.contains(FieldsServer::Icon) {
            None
        } else {
            opt_set_or_keep(e.icon, p.icon)
        },
        banner: if remove.contains(FieldsServer::Banner) {
            None
        } else {
            opt_set_or_keep(e.banner, p.banner)
        },
        flags: opt_set_or_keep(e.flags, p.flags),
        nsfw: set_or_keep(e.nsfw, p.nsfw),
        analytics: set_or_keep(e.analytics, p.analytics),
        discoverable: set_or_keep(e.discoverable, p.discoverable),
    }
}

/// Validates a server update and, when it passes, merges it onto the
/// current server under the removal list. Never partially applies.
pub fn apply_server(current: Server, update: PartialServer, remove: &Vec<FieldsServer>) -> (r:
    Result<Server, ValidationError>)
    ensures
        r is Ok <==> partial_server_ok(update),
        r matches Ok(s) ==> s == merge_server(current, update, remove@),
        r matches Err(err) ==> Some(err) == partial_server_error(update),
{
    let checked = validate_partial_server(&update);
    if let Err(err) = checked {
        return Err(err);
    }
    let remove_description = server_field_removed(remove, FieldsServer::Description);
    let remove_categories = server_field_removed(remove, FieldsServer::Categories);
    let remove_system_messages = server_field_removed(remove, FieldsServer::SystemMessages);
    let remove_icon = server_field_removed(remove, FieldsServer::Icon);
    let remove_banner = server_field_removed(remove, FieldsServer::Banner);
    Ok(
        Server {
            id: match update.id {
                Some(v) => v,
                None => current.id,
            },
            owner: match update.owner {
                Some(v) => v,
                None => current.owner,
            },
            name: match update.name {
                Some(v) => v,
                None => current.name,
            },
            description: if remove_description {
                None
            } else {
                match update.description {
                    Some(v) => Some(v),
                    None => current.description,
                }
            },
            channels: match update.channels {
                Some(v) => v,
                None => current.channels,
            },
            categories: if remove_categories {
                None
            } else {
                match update.categories {
                    Some(v) => Some(v),
                    None => current.categories,
                }
            },
            system_messages: if remove_system_messages {
                None
            } else {
                match update.system_messages {
                    Some(v) => Some(v),
                    None => current.system_messages,
                }
            },
            roles: match update.roles {
                Some(v) => v,
                None => current.roles,
            },
            default_permissions: match update.default_permissions {
                Some(v) => v,
                None => current.default_permissions,
            },
            icon: if remove_icon {
                None
            } else {
                match update.icon {
                    Some(v) => Some(v),
                    None => current.icon,
                }
            },
            banner: if remove_banner {
                None
            } else {
                match update.banner {
                    Some(v) => Some(v),
                    None => current.banner,
                }
            },
            flags: match update.flags {
                Some(v) => Some(v),
                None => current.flags,
            },
            nsfw: match update.nsfw {
                Some(v) => v,
                None => current.nsfw,
            },
            analytics: match update.analytics {
                Some(v) => v,
                None => current.analytics,
            },
            discoverable: match update.discoverable {
                Some(v) => v,
                None => current.discoverable,
            },
        },
    )
}

/// The merge of a partial role onto a canonical role, under a removal
/// list; same precedence as [`merge_server`].
pub open spec fn merge_role(e: Role, p: PartialRole, remove: Seq<FieldsRole>) -> Role {
    Role {
        name: set_or_keep(e.name, p.name),
        permissions: set_or_keep(e.permissions, p.permissions),
        colour: if remove.contains(FieldsRole::Colour) {
            None
        } else {
            opt_set_or_keep(e.colour, p.colour)
        },
        hoist: set_or_keep(e.hoist, p.hoist),
        rank: set_or_keep(e.rank, p.rank),
    }
}

/// Validates a role update and, when it passes, merges it onto the current
/// role under the removal list. Never partially applies.
pub fn apply_role(current: Role, update: PartialRole, remove: &Vec<FieldsRole>) -> (r: Result<
    Role,
    ValidationError,
>)
    ensures
        r is Ok <==> partial_role_ok(update),
        r matches Ok(s) ==> s == merge_role(current, update, remove@),
        r matches Err(err) ==> Some(err) == partial_role_error(update),
{
    let checked = validate_partial_role(&update);
    if let Err(err) = checked {
        return Err(err);
    }
    let remove_colour = role_field_removed(remove, FieldsRole::Colour);
    Ok(
        Role {
            name: match update.name {
                Some(v) => v,
                None => current.name,
            },
            permissions: match update.permissions {
                Some(v) => v,
                None => current.permissions,
            },
            colour: if remove_colour {
                None
            } else {
                match update.colour {
                    Some(v) => Some(v),
                    None => current.colour,
                }
            },
            hoist: match update.hoist {
                Some(v) => v,
                None => current.hoist,
            },
            rank: match update.rank {
                Some(v) => v,
                None => current.rank,
            },
        },
    )
}

/// A well-formed role mapping: role ids are unique.
pub open spec fn roles_wf(s: Seq<RoleEntry>) -> bool {
    forall|i: int, j: int| 0 <= i < j < s.len() ==> s[i].id@ != s[j].id@
}

/// A well-formed server: its role mapping is a real mapping.
pub open spec fn server_wf(s: Server) -> bool {
    roles_wf(s.roles@)
}

/// Merging preserves server well-formedness, provided the role mapping the
/// update itself carries is well-formed: merge replaces the mapping whole,
/// it never splices it.
pub proof fn lemma_merge_server_preserves_wf(
    e: Server,
    p: PartialServer,
    remove: Seq<FieldsServer>,
)
    requires
        server_wf(e),
        p.roles matches Some(r) ==> roles_wf(r@),
    ensures
        server_wf(merge_server(e, p, remove)),
{
}

/// Merging the same server update under the same removal list twice gives
/// exactly what merging it once gives.
pub proof fn lemma_merge_server_idempotent(e: Server, p: PartialServer, remove: Seq<FieldsServer>)
    ensures
        merge_server(merge_server(e, p, remove), p, remove) == merge_server(e, p, remove),
{
}

/// Merging the same role update under the same removal list twice gives
/// exactly what merging it once gives.
pub proof fn lemma_merge_role_idempotent(e: Role, p: PartialRole, remove: Seq<FieldsRole>)
    ensures
        merge_role(merge_role(e, p, remove), p, remove) == merge_role(e, p, remove),
{
}

/// Removal wins: a server field named by the removal list comes out in its
/// empty state, whatever value the update may also carry for it.
pub proof fn lemma_merge_server_remove_wins(e: Server, p: PartialServer, remove: Seq<FieldsServer>)
    ensures
        remove.contains(FieldsServer::Description) ==> merge_server(e, p, remove).description
            is None,
        remove.contains(FieldsServer::Categories) ==> merge_server(e, p, remove).categories
            is None,
        remove.contains(FieldsServer::SystemMessages) ==> merge_server(e, p, remove).system_messages
            is None,
        remove.contains(FieldsServer::Icon) ==> merge_server(e, p, remove).icon is None,
        remove.contains(FieldsServer::Banner) ==> merge_server(e, p, remove).banner is None,
{
}

/// Removal wins: a role field named by the removal list comes out in its
/// empty state, whatever value the update may also carry for it.
pub proof fn lemma_merge_role_remove_wins(e: Role, p: PartialRole, remove: Seq<FieldsRole>)
    ensures
        remove.contains(FieldsRole::Colour) ==> merge_role(e, p, remove).colour is None,
{
}

/// No server field changes unless the update carries it or the removal
/// list names it.
pub proof fn lemma_merge_server_frame(e: Server, p: PartialServer, remove: Seq<FieldsServer>)
    ensures
        p.id is None ==> merge_server(e, p, remove).id == e.id,
        p.owner is None ==> merge_server(e, p, remove).owner == e.owner,
        p.name is None ==> merge_server(e, p, remove).name == e.name,
        p.description is None && !remove.contains(FieldsServer::Description) ==> merge_server(
            e,
            p,
            remove,
        ).description == e.description,
        p.channels is None ==> merge_server(e, p, remove).channels == e.channels,
        p.categories is None && !remove.contains(FieldsServer::Categories) ==> merge_server(
            e,
            p,
            remove,
        ).categories == e.categories,
        p.system_messages is None && !remove.contains(FieldsServer::SystemMessages) ==> merge_server(
            e,
            p,
            remove,
        ).system_messages == e.system_messages,
        p.roles is None ==> merge_server(e, p, remove).roles == e.roles,
        p.default_permissions is None ==> merge_server(e, p, remove).default_permissions
            == e.default_permissions,
        p.icon is None && !remove.contains(FieldsServer::Icon) ==> merge_server(e, p, remove).icon
            == e.icon,
        p.banner is None && !remove.contains(FieldsServer::Banner) ==> merge_server(
            e,
            p,
            remove,
        ).banner == e.banner,
        p.flags is None ==> merge_server(e, p, remove).flags == e.flags,
        p.nsfw is None ==> merge_server(e, p, remove).nsfw == e.nsfw,
        p.analytics is None ==> merge_server(e, p, remove).analytics == e.analytics,
        p.discoverable is None ==> merge_server(e, p, remove).discoverable == e.discoverable,
{
}

/// No role field changes unless the update carries it or the removal list
/// names it.
pub proof fn lemma_merge_role_frame(e: Role, p: PartialRole, remove: Seq<FieldsRole>)
    ensures
        p.name is None ==> merge_role(e, p, remove).name == e.name,
        p.permissions is None ==> merge_role(e, p, remove).permissions == e.permissions,
        p.colour is None && !remove.contains(FieldsRole::Colour) ==> merge_role(
            e,
            p,
            remove,
        ).colour == e.colour,
        p.hoist is None ==> merge_role(e, p, remove).hoist == e.hoist,
        p.rank is None ==> merge_role(e, p, remove).rank == e.rank,
{
}

} // verus!
