//! Message entities: the canonical message, its partial mirror, the nested
//! value types, and the rules that validate and merge them.

use vstd::prelude::*;
use crate::opt_set_or_keep;
use crate::set_or_keep;
use crate::validation::Bound;
use crate::validation::FieldId;
use crate::validation::ValidationError;
use crate::validation::check_opt_text;
use crate::validation::opt_text_in_bounds;
use crate::validation::COLOUR_MAX;
use crate::validation::CONTENT_MAX;
use crate::validation::EMBED_TITLE_MAX;
use crate::validation::ICON_URL_MAX;
use crate::validation::NAME_MAX;
use crate::validation::NONCE_MAX;
use crate::validation::URL_MAX;

verus! {

/// Whether a boolean value is false. The serialization boundary uses this
/// to omit boolean fields that sit at their default.
pub fn if_false(t: &bool) -> (r: bool)
    ensures
        r == !*t,
{
    !*t
}

/// A point in time, counted in milliseconds from the Unix epoch.
/// This crate only carries timestamps; producing the current time and
/// rendering a timestamp belong to outside collaborators.
#[derive(Clone, Copy, PartialEq, Eq, Structural, Debug)]
pub struct Timestamp {
    /// Milliseconds since the Unix epoch; negative values lie before it.
    pub unix_millis: i64,
}

/// A stored attachment: a reference id and opaque metadata. The attachment
/// store owns everything else about the file.
#[derive(Clone, PartialEq, Eq, Debug)]
pub struct File {
    /// Unique id of the stored attachment.
    pub id: String,
    /// Opaque metadata the store handed back; not interpreted here.
    pub metadata: Option<String>,
}

/// Descriptor of the webhook that sent a message, when one did.
#[derive(Clone, PartialEq, Eq, Debug)]
pub struct MessageWebhook {
    /// The webhook's display name.
    pub name: String,
    /// The webhook's avatar URL.
    pub avatar: Option<String>,
}

/// A reply reference carried by a message before it is sent.
#[derive(Clone, PartialEq, Eq, Debug)]
pub struct Reply {
    /// Id of the message replied to.
    pub id: String,
    /// Whether the reply should mention that message's author.
    pub mention: bool,
}

/// A text embed as a client supplies it, before it is sent.
#[derive(Clone, PartialEq, Eq, Debug)]
pub struct SendableEmbed {
    /// Icon URL; 1 to 128 characters when present.
    pub icon_url: Option<String>,
    /// Link URL; 1 to 256 characters when present.
    pub url: Option<String>,
    /// Title; 1 to 100 characters when present.
    pub title: Option<String>,
    /// Description; 1 to 2000 characters when present, and counted toward
    /// the combined text cap.
    pub description: Option<String>,
    /// Reference to an attached media file.
    pub media: Option<String>,
    /// Colour token; 1 to 128 characters when present.
    pub colour: Option<String>,
}

/// A text embed attached to a stored message.
#[derive(Clone, PartialEq, Eq, Debug)]
pub struct Embed {
    /// Icon URL; 1 to 128 characters when present.
    pub icon_url: Option<String>,
    /// Link URL; 1 to 256 characters when present.
    pub url: Option<String>,
    /// Title; 1 to 100 characters when present.
    pub title: Option<String>,
    /// Description; 1 to 2000 characters when present, and counted toward
    /// the combined text cap.
    pub description: Option<String>,
    /// The attached media file.
    pub media: Option<File>,
    /// Colour token; 1 to 128 characters when present.
    pub colour: Option<String>,
}

/// The payload of a system event message. Mutually exclusive with ordinary
/// content in normal use.
#[derive(Clone, PartialEq, Eq, Debug)]
pub enum SystemMessage {
    /// Plain system text.
    Text { content: String },
    /// A user was added by another user.
    UserAdded { id: String, by: String },
    /// A user was removed by another user.
    UserRemove { id: String, by: String },
    /// A user joined.
    UserJoined { id: String },
    /// A user left.
    UserLeft { id: String },
    /// A user was kicked.
    UserKicked { id: String },
    /// A user was banned.
    UserBanned { id: String },
    /// The channel was renamed.
    ChannelRenamed { name: String, by: String },
    /// The channel description changed.
    ChannelDescriptionChanged { by: String },
    /// The channel icon changed.
    ChannelIconChanged { by: String },
    /// The channel changed owner.
    ChannelOwnershipChanged { from: String, to: String },
}

/// Per-message display override, independent of the sender's profile.
#[derive(Clone, PartialEq, Eq, Debug)]
pub struct Masquerade {
    /// Replaces the display name; 1 to 32 characters when present.
    pub name: Option<String>,
    /// Replaces the avatar (URL); 1 to 256 characters when present.
    pub avatar: Option<String>,
    /// Replaces the display colour; 1 to 128 characters when present.
    pub colour: Option<String>,
}

/// Policy guiding interactions with a message.
#[derive(Clone, PartialEq, Eq, Debug)]
pub struct Interactions {
    /// Reactions that should always appear and be distinct, in display
    /// order.
    pub reactions: Option<Vec<String>>,
    /// Whether reactions are restricted to the list above. May only be true
    /// when the list holds at least one entry.
    pub restrict_reactions: bool,
}

impl Default for Interactions {
    /// No allow-list and no restriction.
    fn default() -> (r: Self)
        ensures
            r.reactions is None,
            r.restrict_reactions == false,
    {
        Interactions { reactions: None, restrict_reactions: false }
    }
}

/// One entry of a message's reaction map: an emoji and the set of users
/// reacting with it. Entry order is display order; order within `users`
/// carries no meaning.
#[derive(Clone, PartialEq, Eq, Debug)]
pub struct Reaction {
    /// The emoji's identifier.
    pub emoji: String,
    /// Ids of the users reacting with it; no id appears twice.
    pub users: Vec<String>,
}

/// A canonical message.
#[derive(Clone, PartialEq, Eq, Debug)]
pub struct Message {
    /// Unique id; immutable.
    pub id: String,
    /// Client dedup token; immutable once set.
    pub nonce: Option<String>,
    /// Id of the channel the message was sent in.
    pub channel: String,
    /// Id of the user or webhook that sent it.
    pub author: String,
    /// The webhook that sent it, when one did.
    pub webhook: Option<MessageWebhook>,
    /// Text content.
    pub content: Option<String>,
    /// System event payload.
    pub system: Option<SystemMessage>,
    /// Attachments, in order.
    pub attachments: Option<Vec<File>>,
    /// When the message was last edited.
    pub edited: Option<Timestamp>,
    /// Embeds, in order.
    pub embeds: Option<Vec<Embed>>,
    /// Ids of mentioned users, in order.
    pub mentions: Option<Vec<String>>,
    /// Ids of the messages replied to, in order.
    pub replies: Option<Vec<String>>,
    /// Reactions, keyed by emoji in display order.
    pub reactions: Vec<Reaction>,
    /// Interaction policy.
    pub interactions: Interactions,
    /// Display override.
    pub masquerade: Option<Masquerade>,
}

/// The partial mirror of [`Message`]: every field optional. Absence means
/// "leave unchanged"; presence means "set to this value".
#[derive(Clone, PartialEq, Eq, Debug)]
pub struct PartialMessage {
    /// Sets the unique id.
    pub id: Option<String>,
    /// Sets the dedup token.
    pub nonce: Option<String>,
    /// Sets the channel id.
    pub channel: Option<String>,
    /// Sets the author id.
    pub author: Option<String>,
    /// Sets the webhook descriptor.
    pub webhook: Option<MessageWebhook>,
    /// Sets the text content.
    pub content: Option<String>,
    /// Sets the system event payload.
    pub system: Option<SystemMessage>,
    /// Sets the attachment list.
    pub attachments: Option<Vec<File>>,
    /// Sets the edit timestamp.
    pub edited: Option<Timestamp>,
    /// Sets the embed list.
    pub embeds: Option<Vec<Embed>>,
    /// Sets the mention list.
    pub mentions: Option<Vec<String>>,
    /// Sets the reply list.
    pub replies: Option<Vec<String>>,
    /// Sets the reaction map.
    pub reactions: Option<Vec<Reaction>>,
    /// Sets the interaction policy.
    pub interactions: Option<Interactions>,
    /// Sets the display override.
    pub masquerade: Option<Masquerade>,
}

/// Information appended to an existing message.
#[derive(Clone, PartialEq, Eq, Debug)]
pub struct AppendMessage {
    /// Additional embeds to include.
    pub embeds: Option<Vec<Embed>>,
}

/// A message creation payload.
#[derive(Clone, PartialEq, Eq, Debug)]
pub struct DataMessageSend {
    /// Dedup token; 1 to 64 characters when present.
    pub nonce: Option<String>,
    /// Content to send; at most 2000 characters.
    pub content: Option<String>,
    /// Ids of attachments to include.
    pub attachments: Option<Vec<String>>,
    /// Messages to reply to.
    pub replies: Option<Vec<Reply>>,
    /// Embeds to include; their text counts toward the combined cap.
    pub embeds: Option<Vec<SendableEmbed>>,
    /// Masquerade to apply.
    pub masquerade: Option<Masquerade>,
    /// Interaction policy to apply.
    pub interactions: Option<Interactions>,
}

/// Whether a client-supplied embed meets every length bound.
pub open spec fn sendable_embed_ok(e: SendableEmbed) -> bool {
    &&& opt_text_in_bounds(e.icon_url, 1, ICON_URL_MAX as int)
    &&& opt_text_in_bounds(e.url, 1, URL_MAX as int)
    &&& opt_text_in_bounds(e.title, 1, EMBED_TITLE_MAX as int)
    &&& opt_text_in_bounds(e.description, 1, CONTENT_MAX as int)
    &&& opt_text_in_bounds(e.colour, 1, COLOUR_MAX as int)
}

/// The first violated bound of a client-supplied embed, checked in field
/// order, or `None` when the embed is valid.
pub open spec fn sendable_embed_error(e: SendableEmbed) -> Option<ValidationError> {
    if !opt_text_in_bounds(e.icon_url, 1, ICON_URL_MAX as int) {
        Some(
            ValidationError {
                field: FieldId::EmbedIconUrl,
                bound: Bound::Length { min: 1, max: ICON_URL_MAX },
            },
        )
    } else if !opt_text_in_bounds(e.url, 1, URL_MAX as int) {
        Some(
            ValidationError {
                field: FieldId::EmbedUrl,
                bound: Bound::Length { min: 1, max: URL_MAX },
            },
        )
    } else if !opt_text_in_bounds(e.title, 1, EMBED_TITLE_MAX as int) {
        Some(
            ValidationError {
                field: FieldId::EmbedTitle,
                bound: Bound::Length { min: 1, max: EMBED_TITLE_MAX },
            },
        )
    } else if !opt_text_in_bounds(e.description, 1, CONTENT_MAX as int) {
        Some(
            ValidationError {
                field: FieldId::EmbedDescription,
                bound: Bound::Length { min: 1, max: CONTENT_MAX },
            },
        )
    } else if !opt_text_in_bounds(e.colour, 1, COLOUR_MAX as int) {
        Some(
            ValidationError {
                field: FieldId::EmbedColour,
                bound: Bound::Length { min: 1, max: COLOUR_MAX },
            },
        )
    } else {
        None
    }
}

/// Checks a client-supplied embed against every length bound.
pub fn validate_sendable_embed(e: &SendableEmbed) -> (r: Result<(), ValidationError>)
    ensures
        r is Ok <==> sendable_embed_ok(*e),
        r == (match sendable_embed_error(*e) {
            Some(err) => Err::<(), ValidationError>(err),
            None => Ok::<(), ValidationError>(()),
        }),
{
    let checked = check_opt_text(FieldId::EmbedIconUrl, &e.icon_url, 1, ICON_URL_MAX);
    if let Err(err) = checked {
        return Err(err);
    }
    let checked = check_opt_text(FieldId::EmbedUrl, &e.url, 1, URL_MAX);
    if let Err(err) = checked {
        return Err(err);
    }
    let checked = check_opt_text(FieldId::EmbedTitle, &e.title, 1, EMBED_TITLE_MAX);
    if let Err(err) = checked {
        return Err(err);
    }
    let checked = check_opt_text(FieldId::EmbedDescription, &e.description, 1, CONTENT_MAX);
    if let Err(err) = checked {
        return Err(err);
    }
    let checked = check_opt_text(FieldId::EmbedColour, &e.colour, 1, COLOUR_MAX);
    if let Err(err) = checked {
        return Err(err);
    }
    Ok(())
}

/// Whether a stored embed meets every length bound.
pub open spec fn embed_ok(e: Embed) -> bool {
    &&& opt_text_in_bounds(e.icon_url, 1, ICON_URL_MAX as int)
    &&& opt_text_in_bounds(e.url, 1, URL_MAX as int)
    &&& opt_text_in_bounds(e.title, 1, EMBED_TITLE_MAX as int)
    &&& opt_text_in_bounds(e.description, 1, CONTENT_MAX as int)
    &&& opt_text_in_bounds(e.colour, 1, COLOUR_MAX as int)
}

/// The first violated bound of a stored embed, or `None` when it is valid.
pub open spec fn embed_error(e: Embed) -> Option<ValidationError> {
    if !opt_text_in_bounds(e.icon_url, 1, ICON_URL_MAX as int) {
        Some(
            ValidationError {
                field: FieldId::EmbedIconUrl,
                bound: Bound::Length { min: 1, max: ICON_URL_MAX },
            },
        )
    } else if !opt_text_in_bounds(e.url, 1, URL_MAX as int) {
        Some(
            ValidationError {
                field: FieldId::EmbedUrl,
                bound: Bound::Length { min: 1, max: URL_MAX },
            },
        )
    } else if !opt_text_in_bounds(e.title, 1, EMBED_TITLE_MAX as int) {
        Some(
            ValidationError {
                field: FieldId::EmbedTitle,
                bound: Bound::Length { min: 1, max: EMBED_TITLE_MAX },
            },
        )
    } else if !opt_text_in_bounds(e.description, 1, CONTENT_MAX as int) {
        Some(
            ValidationError {
                field: FieldId::EmbedDescription,
                bound: Bound::Length { min: 1, max: CONTENT_MAX },
            },
        )
    } else if !opt_text_in_bounds(e.colour, 1, COLOUR_MAX as int) {
        Some(
            ValidationError {
                field: FieldId::EmbedColour,
                bound: Bound::Length { min: 1, max: COLOUR_MAX },
            },
        )
    } else {
        None
    }
}

/// Checks a stored embed against every length bound.
pub fn validate_embed(e: &Embed) -> (r: Result<(), ValidationError>)
    ensures
        r is Ok <==> embed_ok(*e),
        r == (match embed_error(*e) {
            Some(err) => Err::<(), ValidationError>(err),
            None => Ok::<(), ValidationError>(()),
        }),
{
    let checked = check_opt_text(FieldId::EmbedIconUrl, &e.icon_url, 1, ICON_URL_MAX);
    if let Err(err) = checked {
        return Err(err);
    }
    let checked = check_opt_text(FieldId::EmbedUrl, &e.url, 1, URL_MAX);
    if let Err(err) = checked {
        return Err(err);
    }
    let checked = check_opt_text(FieldId::EmbedTitle, &e.title, 1, EMBED_TITLE_MAX);
    if let Err(err) = checked {
        return Err(err);
    }
    let checked = check_opt_text(FieldId::EmbedDescription, &e.description, 1, CONTENT_MAX);
    if let Err(err) = checked {
        return Err(err);
    }
    let checked = check_opt_text(FieldId::EmbedColour, &e.colour, 1, COLOUR_MAX);
    if let Err(err) = checked {
        return Err(err);
    }
    Ok(())
}

/// Whether a masquerade meets every length bound.
pub open spec fn masquerade_ok(m: Masquerade) -> bool {
    &&& opt_text_in_bounds(m.name, 1, NAME_MAX as int)
    &&& opt_text_in_bounds(m.avatar, 1, URL_MAX as int)
    &&& opt_text_in_bounds(m.colour, 1, COLOUR_MAX as int)
}

/// The first violated bound of a masquerade, or `None` when it is valid.
pub open spec fn masquerade_error(m: Masquerade) -> Option<ValidationError> {
    if !opt_text_in_bounds(m.name, 1, NAME_MAX as int) {
        Some(
            ValidationError {
                field: FieldId::MasqueradeName,
                bound: Bound::Length { min: 1, max: NAME_MAX },
            },
        )
    } else if !opt_text_in_bounds(m.avatar, 1, URL_MAX as int) {
        Some(
            ValidationError {
                field: FieldId::MasqueradeAvatar,
                bound: Bound::Length { min: 1, max: URL_MAX },
            },
        )
    } else if !opt_text_in_bounds(m.colour, 1, COLOUR_MAX as int) {
        Some(
            ValidationError {
                field: FieldId::MasqueradeColour,
                bound: Bound::Length { min: 1, max: COLOUR_MAX },
            },
        )
    } else {
        None
    }
}

/// Checks a masquerade against every length bound.
pub fn validate_masquerade(m: &Masquerade) -> (r: Result<(), ValidationError>)
    ensures
        r is Ok <==> masquerade_ok(*m),
        r == (match masquerade_error(*m) {
            Some(err) => Err::<(), ValidationError>(err),
            None => Ok::<(), ValidationError>(()),
        }),
{
    let checked = check_opt_text(FieldId::MasqueradeName, &m.name, 1, NAME_MAX);
    if let Err(err) = checked {
        return Err(err);
    }
    let checked = check_opt_text(FieldId::MasqueradeAvatar, &m.avatar, 1, URL_MAX);
    if let Err(err) = checked {
        return Err(err);
    }
    let checked = check_opt_text(FieldId::MasqueradeColour, &m.colour, 1, COLOUR_MAX);
    if let Err(err) = checked {
        return Err(err);
    }
    Ok(())
}

/// The schema invariant of an interaction policy: reactions may only be
/// restricted to the allow-list when the allow-list holds at least one
/// entry.
pub open spec fn interactions_ok(i: Interactions) -> bool {
    i.restrict_reactions ==> (i.reactions matches Some(list) && list@.len() >= 1)
}

/// Checks an interaction policy. Restricting reactions to an absent or
/// empty allow-list fails; everything else passes.
pub fn validate_interactions(i: &Interactions) -> (r: Result<(), ValidationError>)
    ensures
        r is Ok <==> interactions_ok(*i),
        r is Err ==> r == Err::<(), ValidationError>(
            (ValidationError { field: FieldId::InteractionReactions, bound: Bound::NonEmptyList }),
        ),
{
    if i.restrict_reactions {
        let has_entry = match &i.reactions {
            Some(list) => list.len() >= 1,
            None => false,
        };
        if !has_entry {
            return Err(
                ValidationError { field: FieldId::InteractionReactions, bound: Bound::NonEmptyList },
            );
        }
    }
    Ok(())
}

/// The interaction policy's violation as an option, for composing larger
/// validators: `None` when the policy meets its invariant.
pub open spec fn interactions_error(i: Interactions) -> Option<ValidationError> {
    if !interactions_ok(i) {
        Some(ValidationError { field: FieldId::InteractionReactions, bound: Bound::NonEmptyList })
    } else {
        None
    }
}

/// The first violated bound over a sequence of client-supplied embeds,
/// scanning front to back, or `None` when every embed is valid.
pub open spec fn sendable_embeds_error(s: Seq<SendableEmbed>) -> Option<ValidationError>
    decreases s.len(),
{
    if s.len() == 0 {
        None
    } else if !sendable_embed_ok(s.first()) {
        sendable_embed_error(s.first())
    } else {
        sendable_embeds_error(s.drop_first())
    }
}

/// Checks every embed of a creation payload, front to back.
pub fn validate_sendable_embeds(v: &Vec<SendableEmbed>) -> (r: Result<(), ValidationError>)
    ensures
        r is Ok <==> (forall|j: int| 0 <= j < v@.len() ==> sendable_embed_ok(v@[j])),
        r == (match sendable_embeds_error(v@) {
            Some(err) => Err::<(), ValidationError>(err),
            None => Ok::<(), ValidationError>(()),
        }),
{
    let ghost s = v@;
    let mut i: usize = 0;
    proof {
        assert(s.skip(0) =~= s);
    }
    while i < v.len()
        invariant
            s == v@,
            i <= s.len(),
            forall|j: int| 0 <= j < i ==> sendable_embed_ok(s[j]),
            sendable_embeds_error(s) == sendable_embeds_error(s.skip(i as int)),
        decreases s.len() - i,
    {
        proof {
            assert(s.skip(i as int).first() == s[i as int]);
            assert(s.skip(i as int).drop_first() =~= s.skip(i + 1));
        }
        let checked = validate_sendable_embed(&v[i]);
        if let Err(err) = checked {
            return Err(err);
        }
        i = i + 1;
    }
    proof {
        assert(s.skip(s.len() as int) =~= Seq::<SendableEmbed>::empty());
    }
    Ok(())
}

/// The first violated bound over a sequence of stored embeds, scanning
/// front to back, or `None` when every embed is valid.
pub open spec fn embeds_error(s: Seq<Embed>) -> Option<ValidationError>
    decreases s.len(),
{
    if s.len() == 0 {
        None
    } else if !embed_ok(s.first()) {
        embed_error(s.first())
    } else {
        embeds_error(s.drop_first())
    }
}

/// Checks every stored embed of an update, front to back.
pub fn validate_embeds(v: &Vec<Embed>) -> (r: Result<(), ValidationError>)
    ensures
        r is Ok <==> (forall|j: int| 0 <= j < v@.len() ==> embed_ok(v@[j])),
        r == (match embeds_error(v@) {
            Some(err) => Err::<(), ValidationError>(err),
            None => Ok::<(), ValidationError>(()),
        }),
{
    let ghost s = v@;
    let mut i: usize = 0;
    proof {
        assert(s.skip(0) =~= s);
    }
    while i < v.len()
        invariant
            s == v@,
            i <= s.len(),
            forall|j: int| 0 <= j < i ==> embed_ok(s[j]),
            embeds_error(s) == embeds_error(s.skip(i as int)),
        decreases s.len() - i,
    {
        proof {
            assert(s.skip(i as int).first() == s[i as int]);
            assert(s.skip(i as int).drop_first() =~= s.skip(i + 1));
        }
        let checked = validate_embed(&v[i]);
        if let Err(err) = checked {
            return Err(err);
        }
        i = i + 1;
    }
    proof {
        assert(s.skip(s.len() as int) =~= Seq::<Embed>::empty());
    }
    Ok(())
}

/// The characters a text value contributes to the combined cap: its length
/// when present, nothing when absent.
pub open spec fn opt_text_len(s: Option<String>) -> int {
    match s {
        Some(t) => t@.len() as int,
        None => 0,
    }
}

/// The text a client-supplied embed contributes to the combined cap: its
/// title and its description.
pub open spec fn sendable_embed_text_len(e: SendableEmbed) -> int {
    opt_text_len(e.title) + opt_text_len(e.description)
}

/// The text a sequence of client-supplied embeds contributes in total.
pub open spec fn sendable_embeds_text_len(s: Seq<SendableEmbed>) -> int
    decreases s.len(),
{
    if s.len() == 0 {
        0
    } else {
        sendable_embeds_text_len(s.drop_last()) + sendable_embed_text_len(s.last())
    }
}

/// The text a stored embed contributes to the combined cap.
pub open spec fn embed_text_len(e: Embed) -> int {
    opt_text_len(e.title) + opt_text_len(e.description)
}

/// The text a sequence of stored embeds contributes in total.
pub open spec fn embeds_text_len(s: Seq<Embed>) -> int
    decreases s.len(),
{
    if s.len() == 0 {
        0
    } else {
        embeds_text_len(s.drop_last()) + embed_text_len(s.last())
    }
}

/// Every prefix contributes at most what the whole sequence contributes.
proof fn lemma_sendable_embeds_text_len_take(s: Seq<SendableEmbed>, i: int)
    requires
        0 <= i <= s.len(),
    ensures
        sendable_embeds_text_len(s.take(i)) <= sendable_embeds_text_len(s),
    decreases s.len(),
{
    if i == s.len() {
        assert(s.take(i) =~= s);
    } else {
        assert(s.take(i) =~= s.drop_last().take(i));
        lemma_sendable_embeds_text_len_take(s.drop_last(), i);
    }
}

/// Every prefix contributes at most what the whole sequence contributes.
proof fn lemma_embeds_text_len_take(s: Seq<Embed>, i: int)
    requires
        0 <= i <= s.len(),
    ensures
        embeds_text_len(s.take(i)) <= embeds_text_len(s),
    decreases s.len(),
{
    if i == s.len() {
        assert(s.take(i) =~= s);
    } else {
        assert(s.take(i) =~= s.drop_last().take(i));
        lemma_embeds_text_len_take(s.drop_last(), i);
    }
}

/// The characters a creation payload puts under the combined text cap:
/// the content plus the text of every embed.
pub open spec fn message_send_text_len(d: DataMessageSend) -> int {
    opt_text_len(d.content) + (match d.embeds {
        Some(es) => sendable_embeds_text_len(es@),
        None => 0,
    })
}

/// Whether a creation payload passes every validation rule, under the
/// configured combined text cap.
pub open spec fn message_send_ok(d: DataMessageSend, cap: u32) -> bool {
    &&& opt_text_in_bounds(d.nonce, 1, NONCE_MAX as int)
    &&& opt_text_in_bounds(d.content, 0, CONTENT_MAX as int)
    &&& (d.embeds matches Some(es) ==> forall|j: int|
        0 <= j < es@.len() ==> sendable_embed_ok(es@[j]))
    &&& (d.masquerade matches Some(m) ==> masquerade_ok(m))
    &&& (d.interactions matches Some(i) ==> interactions_ok(i))
    &&& message_send_text_len(d) <= cap
}

/// The single error a creation payload fails with: the first violated
/// per-field bound in field order, or, when every field passes on its own,
/// the combined text cap. `None` when the payload is valid.
pub open spec fn message_send_error(d: DataMessageSend, cap: u32) -> Option<ValidationError> {
    let nonce_err = if !opt_text_in_bounds(d.nonce, 1, NONCE_MAX as int) {
        Some(ValidationError { field: FieldId::Nonce, bound: Bound::Length { min: 1, max: NONCE_MAX } })
    } else {
        None
    };
    let content_err = if !opt_text_in_bounds(d.content, 0, CONTENT_MAX as int) {
        Some(
            ValidationError {
                field: FieldId::Content,
                bound: Bound::Length { min: 0, max: CONTENT_MAX },
            },
        )
    } else {
        None
    };
    let embeds_err = match d.embeds {
        Some(es) => sendable_embeds_error(es@),
        None => None,
    };
    let masquerade_err = match d.masquerade {
        Some(m) => masquerade_error(m),
        None => None,
    };
    let interactions_err = match d.interactions {
        Some(i) => interactions_error(i),
        None => None,
    };
    if nonce_err is Some {
        nonce_err
    } else if content_err is Some {
        content_err
    } else if embeds_err is Some {
        embeds_err
    } else if masquerade_err is Some {
        masquerade_err
    } else if interactions_err is Some {
        interactions_err
    } else if message_send_text_len(d) > cap {
        Some(ValidationError { field: FieldId::Content, bound: Bound::TextCap { cap } })
    } else {
        None
    }
}

/// Checks a creation payload against every rule. Content over the combined
/// cap — the message body plus all text-bearing embed fields, summed —
/// fails as one single error, not one per field.
pub fn validate_message_send(d: &DataMessageSend, cap: u32) -> (r: Result<(), ValidationError>)
    ensures
        r is Ok <==> message_send_ok(*d, cap),
        r == (match message_send_error(*d, cap) {
            Some(err) => Err::<(), ValidationError>(err),
            None => Ok::<(), ValidationError>(()),
        }),
{
    let checked = check_opt_text(FieldId::Nonce, &d.nonce, 1, NONCE_MAX);
    if let Err(err) = checked {
        return Err(err);
    }
    let checked = check_opt_text(FieldId::Content, &d.content, 0, CONTENT_MAX);
    if let Err(err) = checked {
        return Err(err);
    }
    if let Some(es) = &d.embeds {
        let checked = validate_sendable_embeds(es);
        if let Err(err) = checked {
            return Err(err);
        }
    }
    if let Some(m) = &d.masquerade {
        let checked = validate_masquerade(m);
        if let Err(err) = checked {
            return Err(err);
        }
    }
    if let Some(i) = &d.interactions {
        let checked = validate_interactions(i);
        if let Err(err) = checked {
            return Err(err);
        }
    }
    let mut total: u64 = match &d.content {
        Some(c) => c.as_str().unicode_len() as u64,
        None => 0,
    };
    if total > cap as u64 {
        proof {
            if d.embeds is Some {
                lemma_sendable_embeds_text_len_take(d.embeds->Some_0@, 0);
                assert(d.embeds->Some_0@.take(0) =~= Seq::<SendableEmbed>::empty());
            }
        }
        return Err(ValidationError { field: FieldId::Content, bound: Bound::TextCap { cap } });
    }
    if let Some(es) = &d.embeds {
        let ghost s = es@;
        let mut i: usize = 0;
        proof {
            assert(s.take(0) =~= Seq::<SendableEmbed>::empty());
        }
        while i < es.len()
            invariant
                s == es@,
                d.embeds == Some(*es),
                i <= s.len(),
                opt_text_in_bounds(d.nonce, 1, NONCE_MAX as int),
                opt_text_in_bounds(d.content, 0, CONTENT_MAX as int),
                forall|j: int| 0 <= j < s.len() ==> sendable_embed_ok(s[j]),
                sendable_embeds_error(s) is None,
                (d.masquerade matches Some(m) ==> masquerade_error(m) is None),
                (d.interactions matches Some(ix) ==> interactions_error(ix) is None),
                total == opt_text_len(d.content) + sendable_embeds_text_len(s.take(i as int)),
                total <= cap as u64,
            decreases s.len() - i,
        {
            proof {
                assert(s.take(i + 1).drop_last() =~= s.take(i as int));
                assert(s.take(i + 1).last() == s[i as int]);
            }
            let e = &es[i];
            let title_len: u64 = match &e.title {
                Some(t) => t.as_str().unicode_len() as u64,
                None => 0,
            };
            let description_len: u64 = match &e.description {
                Some(t) => t.as_str().unicode_len() as u64,
                None => 0,
            };
            total = total + title_len + description_len;
            if total > cap as u64 {
                proof {
                    lemma_sendable_embeds_text_len_take(s, i + 1);
                }
                return Err(
                    ValidationError { field: FieldId::Content, bound: Bound::TextCap { cap } },
                );
            }
            i = i + 1;
        }
        proof {
            assert(s.take(s.len() as int) =~= s);
        }
    }
    Ok(())
}

/// The characters a message update puts under the combined text cap:
/// the content plus the text of every embed the update carries.
pub open spec fn partial_message_text_len(p: PartialMessage) -> int {
    opt_text_len(p.content) + (match p.embeds {
        Some(es) => embeds_text_len(es@),
        None => 0,
    })
}

/// Whether a message update passes every validation rule, under the
/// configured combined text cap.
pub open spec fn partial_message_ok(p: PartialMessage, cap: u32) -> bool {
    &&& opt_text_in_bounds(p.nonce, 1, NONCE_MAX as int)
    &&& opt_text_in_bounds(p.content, 0, CONTENT_MAX as int)
    &&& (p.embeds matches Some(es) ==> forall|j: int| 0 <= j < es@.len() ==> embed_ok(es@[j]))
    &&& (p.masquerade matches Some(m) ==> masquerade_ok(m))
    &&& (p.interactions matches Some(i) ==> interactions_ok(i))
    &&& partial_message_text_len(p) <= cap
}

/// The single error a message update fails with, or `None` when it is
/// valid; same order as [`message_send_error`].
pub open spec fn partial_message_error(p: PartialMessage, cap: u32) -> Option<ValidationError> {
    let nonce_err = if !opt_text_in_bounds(p.nonce, 1, NONCE_MAX as int) {
        Some(ValidationError { field: FieldId::Nonce, bound: Bound::Length { min: 1, max: NONCE_MAX } })
    } else {
        None
    };
    let content_err = if !opt_text_in_bounds(p.content, 0, CONTENT_MAX as int) {
        Some(
            ValidationError {
                field: FieldId::Content,
                bound: Bound::Length { min: 0, max: CONTENT_MAX },
            },
        )
    } else {
        None
    };
    let embeds_err = match p.embeds {
        Some(es) => embeds_error(es@),
        None => None,
    };
    let masquerade_err = match p.masquerade {
        Some(m) => masquerade_error(m),
        None => None,
    };
    let interactions_err = match p.interactions {
        Some(i) => interactions_error(i),
        None => None,
    };
    if nonce_err is Some {
        nonce_err
    } else if content_err is Some {
        content_err
    } else if embeds_err is Some {
        embeds_err
    } else if masquerade_err is Some {
        masquerade_err
    } else if interactions_err is Some {
        interactions_err
    } else if partial_message_text_len(p) > cap {
        Some(ValidationError { field: FieldId::Content, bound: Bound::TextCap { cap } })
    } else {
        None
    }
}

/// Checks a message update against every rule, the combined text cap
/// included.
pub fn validate_partial_message(p: &PartialMessage, cap: u32) -> (r: Result<(), ValidationError>)
    ensures
        r is Ok <==> partial_message_ok(*p, cap),
        r == (match partial_message_error(*p, cap) {
            Some(err) => Err::<(), ValidationError>(err),
            None => Ok::<(), ValidationError>(()),
        }),
{
    let checked = check_opt_text(FieldId::Nonce, &p.nonce, 1, NONCE_MAX);
    if let Err(err) = checked {
        return Err(err);
    }
    let checked = check_opt_text(FieldId::Content, &p.content, 0, CONTENT_MAX);
    if let Err(err) = checked {
        return Err(err);
    }
    if let Some(es) = &p.embeds {
        let checked = validate_embeds(es);
        if let Err(err) = checked {
            return Err(err);
        }
    }
    if let Some(m) = &p.masquerade {
        let checked = validate_masquerade(m);
        if let Err(err) = checked {
            return Err(err);
        }
    }
    if let Some(i) = &p.interactions {
        let checked = validate_interactions(i);
        if let Err(err) = checked {
            return Err(err);
        }
    }
    let mut total: u64 = match &p.content {
        Some(c) => c.as_str().unicode_len() as u64,
        None => 0,
    };
    if total > cap as u64 {
        proof {
            if p.embeds is Some {
                lemma_embeds_text_len_take(p.embeds->Some_0@, 0);
                assert(p.embeds->Some_0@.take(0) =~= Seq::<Embed>::empty());
            }
        }
        return Err(ValidationError { field: FieldId::Content, bound: Bound::TextCap { cap } });
    }
    if let Some(es) = &p.embeds {
        let ghost s = es@;
        let mut i: usize = 0;
        proof {
            assert(s.take(0) =~= Seq::<Embed>::empty());
        }
        while i < es.len()
            invariant
                s == es@,
                p.embeds == Some(*es),
                i <= s.len(),
                opt_text_in_bounds(p.nonce, 1, NONCE_MAX as int),
                opt_text_in_bounds(p.content, 0, CONTENT_MAX as int),
                forall|j: int| 0 <= j < s.len() ==> embed_ok(s[j]),
                embeds_error(s) is None,
                (p.masquerade matches Some(m) ==> masquerade_error(m) is None),
                (p.interactions matches Some(ix) ==> interactions_error(ix) is None),
                total == opt_text_len(p.content) + embeds_text_len(s.take(i as int)),
                total <= cap as u64,
            decreases s.len() - i,
        {
            proof {
                assert(s.take(i + 1).drop_last() =~= s.take(i as int));
                assert(s.take(i + 1).last() == s[i as int]);
            }
            let e = &es[i];
            let title_len: u64 = match &e.title {
                Some(t) => t.as_str().unicode_len() as u64,
                None => 0,
            };
            let description_len: u64 = match &e.description {
                Some(t) => t.as_str().unicode_len() as u64,
                None => 0,
            };
            total = total + title_len + description_len;
            if total > cap as u64 {
                proof {
                    lemma_embeds_text_len_take(s, i + 1);
                }
                return Err(
                    ValidationError { field: FieldId::Content, bound: Bound::TextCap { cap } },
                );
            }
            i = i + 1;
        }
        proof {
            assert(s.take(s.len() as int) =~= s);
        }
    }
    Ok(())
}

/// The merge of a partial message onto a canonical message. A message has
/// no removable fields, so every field is either set by the update or kept
/// from the current value; presence with an empty value still means "set".
pub open spec fn merge_message(e: Message, p: PartialMessage) -> Message {
    Message {
        id: set_or_keep(e.id, p.id),
        nonce: opt_set_or_keep(e.nonce, p.nonce),
        channel: set_or_keep(e.channel, p.channel),
        author: set_or_keep(e.author, p.author),
        webhook: opt_set_or_keep(e.webhook, p.webhook),
        content: opt_set_or_keep(e.content, p.content),
        system: opt_set_or_keep(e.system, p.system),
        attachments: opt_set_or_keep(e.attachments, p.attachments),
        edited: opt_set_or_keep(e.edited, p.edited),
        embeds: opt_set_or_keep(e.embeds, p.embeds),
        mentions: opt_set_or_keep(e.mentions, p.mentions),
        replies: opt_set_or_keep(e.replies, p.replies),
        reactions: set_or_keep(e.reactions, p.reactions),
        interactions: set_or_keep(e.interactions, p.interactions),
        masquerade: opt_set_or_keep(e.masquerade, p.masquerade),
    }
}

/// Validates a message update and, when it passes, merges it onto the
/// current message. Never partially applies: a failing update returns its
/// single validation error and the current message is simply not produced.
pub fn apply_message(current: Message, update: PartialMessage, cap: u32) -> (r: Result<
    Message,
    ValidationError,
>)
    ensures
        r is Ok <==> partial_message_ok(update, cap),
        r matches Ok(m) ==> m == merge_message(current, update),
        r matches Err(err) ==> Some(err) == partial_message_error(update, cap),
{
    let checked = validate_partial_message(&update, cap);
    if let Err(err) = checked {
        return Err(err);
    }
    Ok(
        Message {
            id: match update.id {
                Some(v) => v,
                None => current.id,
            },
            nonce: match update.nonce {
                Some(v) => Some(v),
                None => current.nonce,
            },
            channel: match update.channel {
                Some(v) => v,
                None => current.channel,
            },
            author: match update.author {
                Some(v) => v,
                None => current.author,
            },
            webhook: match update.webhook {
                Some(v) => Some(v),
                None => current.webhook,
            },
            content: match update.content {
                Some(v) => Some(v),
                None => current.content,
            },
            system: match update.system {
                Some(v) => Some(v),
                None => current.system,
            },
            attachments: match update.attachments {
                Some(v) => Some(v),
                None => current.attachments,
            },
            edited: match update.edited {
                Some(v) => Some(v),
                None => current.edited,
            },
            embeds: match update.embeds {
                Some(v) => Some(v),
                None => current.embeds,
            },
            mentions: match update.mentions {
                Some(v) => Some(v),
                None => current.mentions,
            },
            replies: match update.replies {
                Some(v) => Some(v),
                None => current.replies,
            },
            reactions: match update.reactions {
                Some(v) => v,
                None => current.reactions,
            },
            interactions: match update.interactions {
                Some(v) => v,
                None => current.interactions,
            },
            masquerade: match update.masquerade {
                Some(v) => Some(v),
                None => current.masquerade,
            },
        },
    )
}

/// Appends additional embeds to a stored message. The embed list grows at
/// its end, an absent list counts as empty, and every other field stays
/// exactly as it is.
pub fn append_message(message: Message, append: AppendMessage) -> (r: Message)
    ensures
        append.embeds is None ==> r == message,
        append.embeds matches Some(extra) ==> {
            &&& r.embeds matches Some(v) && v@ == (match message.embeds {
                Some(old) => old@,
                None => Seq::<Embed>::empty(),
            }) + extra@
            &&& r.id == message.id
            &&& r.nonce == message.nonce
            &&& r.channel == message.channel
            &&& r.author == message.author
            &&& r.webhook == message.webhook
            &&& r.content == message.content
            &&& r.system == message.system
            &&& r.attachments == message.attachments
            &&& r.edited == message.edited
            &&& r.mentions == message.mentions
            &&& r.replies == message.replies
            &&& r.reactions == message.reactions
            &&& r.interactions == message.interactions
            &&& r.masquerade == message.masquerade
        },
{
    match append.embeds {
        None => message,
        Some(extra) => {
            let mut base: Vec<Embed> = match message.embeds {
                Some(v) => v,
                None => Vec::new(),
            };
            let mut extra_vec = extra;
            base.append(&mut extra_vec);
            Message {
                id: message.id,
                nonce: message.nonce,
                channel: message.channel,
                author: message.author,
                webhook: message.webhook,
                content: message.content,
                system: message.system,
                attachments: message.attachments,
                edited: message.edited,
                embeds: Some(base),
                mentions: message.mentions,
                replies: message.replies,
                reactions: message.reactions,
                interactions: message.interactions,
                masquerade: message.masquerade,
            }
        },
    }
}

/// Whether a sequence of ids is a set: no id appears twice.
pub open spec fn ids_unique(s: Seq<String>) -> bool {
    forall|i: int, j: int| 0 <= i < j < s.len() ==> s[i]@ != s[j]@
}

/// Well-formed reactions: the mapping is a real mapping — emoji keys are
/// unique — and each entry's user list is a set. Entry order still
/// matters; it is display order.
pub open spec fn reactions_wf(s: Seq<Reaction>) -> bool {
    &&& forall|i: int, j: int| 0 <= i < j < s.len() ==> s[i].emoji@ != s[j].emoji@
    &&& forall|k: int| 0 <= k < s.len() ==> ids_unique(#[trigger] s[k].users@)
}

/// A well-formed message: its reaction mapping is a real mapping and its
/// interaction policy meets its invariant.
pub open spec fn message_wf(m: Message) -> bool {
    &&& reactions_wf(m.reactions@)
    &&& interactions_ok(m.interactions)
}

/// Merging preserves message well-formedness, provided what the update
/// itself carries for the reaction mapping and the interaction policy is
/// well-formed: merge replaces those fields whole, it never splices them.
pub proof fn lemma_merge_message_preserves_wf(e: Message, p: PartialMessage)
    requires
        message_wf(e),
        p.reactions matches Some(r) ==> reactions_wf(r@),
        p.interactions matches Some(i) ==> interactions_ok(i),
    ensures
        message_wf(merge_message(e, p)),
{
}

/// Merging the same update twice gives exactly what merging it once gives:
/// repeated identical set-only updates are idempotent.
pub proof fn lemma_merge_message_idempotent(e: Message, p: PartialMessage)
    ensures
        merge_message(merge_message(e, p), p) == merge_message(e, p),
{
}

/// No message field changes unless the update carries it: every field the
/// update leaves absent comes out exactly as the current message holds it.
pub proof fn lemma_merge_message_frame(e: Message, p: PartialMessage)
    ensures
        p.id is None ==> merge_message(e, p).id == e.id,
        p.nonce is None ==> merge_message(e, p).nonce == e.nonce,
        p.channel is None ==> merge_message(e, p).channel == e.channel,
        p.author is None ==> merge_message(e, p).author == e.author,
        p.webhook is None ==> merge_message(e, p).webhook == e.webhook,
        p.content is None ==> merge_message(e, p).content == e.content,
        p.system is None ==> merge_message(e, p).system == e.system,
        p.attachments is None ==> merge_message(e, p).attachments == e.attachments,
        p.edited is None ==> merge_message(e, p).edited == e.edited,
        p.embeds is None ==> merge_message(e, p).embeds == e.embeds,
        p.mentions is None ==> merge_message(e, p).mentions == e.mentions,
        p.replies is None ==> merge_message(e, p).replies == e.replies,
        p.reactions is None ==> merge_message(e, p).reactions == e.reactions,
        p.interactions is None ==> merge_message(e, p).interactions == e.interactions,
        p.masquerade is None ==> merge_message(e, p).masquerade == e.masquerade,
{
}

} // verus!
