//! Validation rules.
//!
//! Pure length/shape checks applied to every creation or update payload
//! before it reaches the merge engine. A failed check identifies the
//! offending field and the violated bound; merge is never attempted on a
//! payload that fails, and it never partially applies.
//!
//! Lengths are counted in characters, the unit the view of a string
//! exposes.

use vstd::prelude::*;
use vstd::string::StrSliceExecFns;

verus! {

/// Names and titles carry at most this many characters (and at least one).
pub const NAME_MAX: usize = 32;

/// Free-form colour tokens carry 1 to this many characters.
pub const COLOUR_MAX: usize = 128;

/// URLs carry 1 to this many characters.
pub const URL_MAX: usize = 256;

/// Embed icon URLs carry 1 to this many characters.
pub const ICON_URL_MAX: usize = 128;

/// Embed titles carry 1 to this many characters.
pub const EMBED_TITLE_MAX: usize = 100;

/// Message content carries 0 to this many characters.
pub const CONTENT_MAX: usize = 2000;

/// Client dedup tokens carry 1 to this many characters.
pub const NONCE_MAX: usize = 64;

/// The field a validation failure points at.
#[derive(Clone, Copy, PartialEq, Eq, Structural, Debug)]
pub enum FieldId {
    /// A message's client dedup token.
    Nonce,
    /// A message's text content.
    Content,
    /// An embed's icon URL.
    EmbedIconUrl,
    /// An embed's link URL.
    EmbedUrl,
    /// An embed's title.
    EmbedTitle,
    /// An embed's description.
    EmbedDescription,
    /// An embed's colour token.
    EmbedColour,
    /// A masquerade's display name.
    MasqueradeName,
    /// A masquerade's avatar URL.
    MasqueradeAvatar,
    /// A masquerade's colour token.
    MasqueradeColour,
    /// A message's reaction allow-list.
    InteractionReactions,
    /// A server's name.
    ServerName,
    /// A category's unique id.
    CategoryId,
    /// A category's title.
    CategoryTitle,
    /// A role's name.
    RoleName,
    /// A role's colour token.
    RoleColour,
}

impl FieldId {
    /// The field's name as callers and logs know it.
    pub fn name(&self) -> (r: &'static str) {
        match self {
            FieldId::Nonce => "nonce",
            FieldId::Content => "content",
            FieldId::EmbedIconUrl => "embeds.icon_url",
            FieldId::EmbedUrl => "embeds.url",
            FieldId::EmbedTitle => "embeds.title",
            FieldId::EmbedDescription => "embeds.description",
            FieldId::EmbedColour => "embeds.colour",
            FieldId::MasqueradeName => "masquerade.name",
            FieldId::MasqueradeAvatar => "masquerade.avatar",
            FieldId::MasqueradeColour => "masquerade.colour",
            FieldId::InteractionReactions => "interactions.reactions",
            FieldId::ServerName => "name",
            FieldId::CategoryId => "categories.id",
            FieldId::CategoryTitle => "categories.title",
            FieldId::RoleName => "name",
            FieldId::RoleColour => "colour",
        }
    }
}

/// The constraint a validation failure violated.
#[derive(Clone, Copy, PartialEq, Eq, Structural, Debug)]
pub enum Bound {
    /// The field's character count must lie between `min` and `max`.
    Length { min: usize, max: usize },
    /// Message content and all text-bearing embed fields together must not
    /// exceed `cap` characters; violations surface as one single error.
    TextCap { cap: u32 },
    /// The field must hold at least one entry.
    NonEmptyList,
}

/// A payload failed a validation rule: the offending field and the bound
/// it violated. Surfaced to the caller before any merge is attempted.
#[derive(Clone, Copy, PartialEq, Eq, Structural, Debug)]
pub struct ValidationError {
    /// The field that failed.
    pub field: FieldId,
    /// The constraint it violated.
    pub bound: Bound,
}

/// Whether a text value's character count lies within `min ..= max`.
pub open spec fn text_in_bounds(s: Seq<char>, min: int, max: int) -> bool {
    min <= s.len() <= max
}

/// Whether an optional text value, when present, lies within `min ..= max`.
/// An absent value passes: absence means "no change" or "not supplied",
/// which no length bound constrains.
pub open spec fn opt_text_in_bounds(s: Option<String>, min: int, max: int) -> bool {
    match s {
        Some(t) => text_in_bounds(t@, min, max),
        None => true,
    }
}

/// Checks one text field against a length bound.
pub fn check_text(field: FieldId, value: &str, min: usize, max: usize) -> (r: Result<
    (),
    ValidationError,
>)
    ensures
        r is Ok <==> text_in_bounds(value@, min as int, max as int),
        r is Err ==> r == Err::<(), ValidationError>(
            (ValidationError { field, bound: Bound::Length { min, max } }),
        ),
{
    let n = value.unicode_len();
    if min <= n && n <= max {
        Ok(())
    } else {
        Err(ValidationError { field, bound: Bound::Length { min, max } })
    }
}

/// Checks an optional text field against a length bound; absence passes.
pub fn check_opt_text(field: FieldId, value: &Option<String>, min: usize, max: usize) -> (r: Result<
    (),
    ValidationError,
>)
    ensures
        r is Ok <==> opt_text_in_bounds(*value, min as int, max as int),
        r is Err ==> r == Err::<(), ValidationError>(
            (ValidationError { field, bound: Bound::Length { min, max } }),
        ),
{
    match value {
        Some(t) => check_text(field, t.as_str(), min, max),
        None => Ok(()),
    }
}

} // verus!
