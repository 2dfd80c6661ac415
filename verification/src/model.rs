//! Data model: immutable snapshots of the platform entities a single
//! invocation works on, the request context that identifies the invocation,
//! and the error taxonomy of the pipeline.

use vstd::prelude::*;

verus! {

/// Neutral grey used whenever an entity supplies no accent colour.
pub const DEFAULT_COLOUR: u32 = 0x607D8B;

/// Which user-facing command an invocation carries.
#[derive(Clone, Copy, PartialEq, Eq, Structural, Debug)]
pub enum CommandKind {
    Ping,
    Userinfo,
    Serverinfo,
    Botinfo,
    Help,
}

/// Why a handler gave up on an invocation.
///
/// `Unavailable` data (such as an approximate member count the cache cannot
/// supply) is deliberately absent here: it degrades to a fallback value and
/// never aborts a command.
#[derive(Clone, Copy, PartialEq, Eq, Structural, Debug)]
pub enum BotError {
    /// A required identifier (the guild) is absent from the request context,
    /// e.g. the command was invoked in a direct message.
    ContextMissing,
    /// The remote lookup returned no entity for the given identifier.
    EntityNotFound,
    /// The send, edit or fetch call itself failed.
    TransportFailure,
}

impl BotError {
    /// The user-visible error line for this failure.
    pub fn message(&self) -> (r: String)
        ensures
            *self == BotError::ContextMissing ==> r@ == "This command can only be used in a server"@,
            *self == BotError::EntityNotFound ==> r@ == "No matching user, member or server was found"@,
            *self == BotError::TransportFailure ==> r@
                == "The response could not be delivered"@,
    {
        match self {
            BotError::ContextMissing => String::from_str(
                "This command can only be used in a server",
            ),
            BotError::EntityNotFound => String::from_str(
                "No matching user, member or server was found",
            ),
            BotError::TransportFailure => String::from_str("The response could not be delivered"),
        }
    }
}

/// One interaction: the invoking user, the originating guild (absent in
/// direct messages) and the command invoked. Never persisted.
#[derive(Clone, Copy, PartialEq, Eq, Structural, Debug)]
pub struct RequestContext {
    pub invoker_id: u64,
    pub guild_id: Option<u64>,
    pub command: CommandKind,
}

/// A civil wall-clock instant, already resolved to calendar fields.
#[derive(Clone, Copy, PartialEq, Eq, Structural, Debug)]
pub struct Timestamp {
    pub year: u64,
    pub month: u64,
    pub day: u64,
    pub hour: u64,
    pub minute: u64,
}

impl Timestamp {
    /// Calendar fields lie in their civil ranges; years are kept four-digit,
    /// which covers every instant the platform can report.
    pub open spec fn wf(self) -> bool {
        &&& 1000 <= self.year <= 9999
        &&& 1 <= self.month <= 12
        &&& 1 <= self.day <= 31
        &&& self.hour < 24
        &&& self.minute < 60
    }

    /// Runtime check of `wf`, for callers that receive a timestamp from
    /// outside the verified pipeline.
    pub fn is_wf(&self) -> (r: bool)
        ensures
            r == self.wf(),
    {
        1000 <= self.year && self.year <= 9999 && 1 <= self.month && self.month <= 12
            && 1 <= self.day && self.day <= 31 && self.hour < 24 && self.minute < 60
    }
}

/// A user's global profile, as fetched from the platform.
#[derive(Clone, Debug)]
pub struct UserProfile {
    pub id: u64,
    /// The global username.
    pub name: String,
    /// Custom avatar, when the user has set one.
    pub avatar_url: Option<String>,
    /// The platform-assigned default avatar, always present.
    pub default_avatar_url: String,
    /// Profile accent colour, when the user has set one.
    pub accent_colour: Option<u32>,
    pub created_at: Timestamp,
}

impl UserProfile {
    /// The profile's timestamps are civil.
    pub open spec fn wf(self) -> bool {
        self.created_at.wf()
    }

    /// Runtime check of `wf`.
    pub fn is_wf(&self) -> (r: bool)
        ensures
            r == self.wf(),
    {
        self.created_at.is_wf()
    }
}

/// A user's guild-scoped profile: the global profile plus what the guild
/// adds to it.
#[derive(Clone, Debug)]
pub struct MemberProfile {
    pub user: UserProfile,
    /// Guild nickname, when one is set.
    pub nick: Option<String>,
    /// Absent when the join date could not be looked up.
    pub joined_at: Option<Timestamp>,
    /// Role identifiers in the order the platform reports them.
    pub roles: Vec<u64>,
}

impl MemberProfile {
    /// The profile's timestamps are civil.
    pub open spec fn wf(self) -> bool {
        &&& self.user.wf()
        &&& (self.joined_at matches Some(t) ==> t.wf())
    }

    /// Runtime check of `wf`.
    pub fn is_wf(&self) -> (r: bool)
        ensures
            r == self.wf(),
    {
        self.user.is_wf() && match &self.joined_at {
            Some(t) => t.is_wf(),
            None => true,
        }
    }
}

/// A guild snapshot obtainable without the full member list.
#[derive(Clone, Debug)]
pub struct PartialGuildProfile {
    pub id: u64,
    pub name: String,
    pub icon_url: Option<String>,
    pub owner_id: u64,
    pub description: Option<String>,
    pub rules_channel_id: Option<u64>,
    /// Role identifiers; may still contain the guild's implicit everyone
    /// role, whose identifier equals the guild identifier.
    pub roles: Vec<u64>,
}

/// The fixed bucket a channel is classified into.
#[derive(Clone, Copy, PartialEq, Eq, Structural, Debug)]
pub enum ChannelKind {
    Category,
    Text,
    Voice,
    /// Every channel kind that is not a category, text or voice channel.
    Other,
}

/// One channel of a guild: its identifier and its classification.
#[derive(Clone, Copy, PartialEq, Eq, Structural, Debug)]
pub struct ChannelDescriptor {
    pub id: u64,
    pub kind: ChannelKind,
}

/// Injected configuration: the bot's own fixed user identifier.
#[derive(Clone, Copy, PartialEq, Eq, Structural, Debug)]
pub struct BotConfig {
    pub bot_user_id: u64,
}

/// The platform's wire-format code for a text channel.
pub const KIND_CODE_TEXT: u8 = 0;

/// The platform's wire-format code for a voice channel.
pub const KIND_CODE_VOICE: u8 = 2;

/// The platform's wire-format code for a channel category.
pub const KIND_CODE_CATEGORY: u8 = 4;

/// Classification policy on raw platform kind codes: category, text and
/// voice map to their own bucket, every other kind to `Other`.
pub open spec fn classify_spec(code: u8) -> ChannelKind {
    if code == KIND_CODE_CATEGORY {
        ChannelKind::Category
    } else if code == KIND_CODE_TEXT {
        ChannelKind::Text
    } else if code == KIND_CODE_VOICE {
        ChannelKind::Voice
    } else {
        ChannelKind::Other
    }
}

/// Classifies a raw platform channel-kind code into its fixed bucket.
pub fn classify(code: u8) -> (r: ChannelKind)
    ensures
        r == classify_spec(code),
{
    if code == KIND_CODE_CATEGORY {
        ChannelKind::Category
    } else if code == KIND_CODE_TEXT {
        ChannelKind::Text
    } else if code == KIND_CODE_VOICE {
        ChannelKind::Voice
    } else {
        ChannelKind::Other
    }
}

} // verus!
