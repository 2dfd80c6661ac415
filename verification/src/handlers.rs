//! Command handlers: the decision and formatting pipeline of each user-facing
//! command. Each handler runs fetch, resolve, respond once, in that order;
//! a missing guild context or a failed lookup aborts with an explicit error
//! and never with a partial payload.
//!
//! The surrounding program performs the fetches and the send/edit calls and
//! hands their plain results to the functions here.

use vstd::prelude::*;

use crate::model::BotConfig;
use crate::model::BotError;
use crate::model::ChannelKind;
use crate::model::MemberProfile;
use crate::model::PartialGuildProfile;
use crate::model::RequestContext;
use crate::model::Timestamp;
use crate::model::UserProfile;
use crate::model::ChannelDescriptor;
use crate::model::DEFAULT_COLOUR;
use crate::payload::FieldModel;
use crate::payload::PayloadModel;
use crate::payload::ResponsePayload;
use crate::payload::new_model;
use crate::payload::with_description;
use crate::render::channel_mention_spec;
use crate::render::dec_spec;
use crate::render::id_footer_spec;
use crate::render::join_spaces_spec;
use crate::render::role_mention_spec;
use crate::render::timestamp_spec;
use crate::render::user_mention_spec;
use crate::resolve::resolve_spec;
use crate::resolve::resolve_str_view;
use crate::tally::count_kind;

verus! {

/// The guild identifier of the invocation, or `ContextMissing` when the
/// command was invoked outside a guild (e.g. in a direct message).
pub fn require_guild(ctx: &RequestContext) -> (r: Result<u64, BotError>)
    ensures
        ctx.guild_id is Some ==> r == Ok::<u64, BotError>(ctx.guild_id->0),
        ctx.guild_id is None ==> r == Err::<u64, BotError>(BotError::ContextMissing),
{
    match ctx.guild_id {
        Some(id) => Ok(id),
        None => Err(BotError::ContextMissing),
    }
}

/// The user a `userinfo` invocation is about: the explicit argument when
/// one was given, else the invoker.
pub fn userinfo_target(ctx: &RequestContext, explicit: Option<u64>) -> (r: u64)
    ensures
        r == resolve_spec(explicit, ctx.invoker_id),
{
    crate::resolve::resolve(explicit, ctx.invoker_id)
}

/// The outcome of an entity lookup: the entity when the remote API returned
/// one, `EntityNotFound` when it returned nothing.
pub fn entity_or_not_found<T>(found: Option<T>) -> (r: Result<T, BotError>)
    ensures
        found is Some ==> (r matches Ok(v) && v == found->0),
        found is None ==> r == Err::<T, BotError>(BotError::EntityNotFound),
{
    match found {
        Some(v) => Ok(v),
        None => Err(BotError::EntityNotFound),
    }
}

/// The role list with the everyone role taken out, order kept. The everyone
/// role's identifier equals the guild's identifier; comparison is direct
/// identifier equality.
pub open spec fn filtered_roles_spec(roles: Seq<u64>, everyone: u64) -> Seq<u64>
    decreases roles.len(),
{
    if roles.len() == 0 {
        Seq::empty()
    } else {
        let rest = filtered_roles_spec(roles.drop_last(), everyone);
        if roles.last() == everyone {
            rest
        } else {
            rest.push(roles.last())
        }
    }
}

/// Removes the everyone role from a role list, keeping the order of the
/// remaining roles.
#[verifier::loop_isolation(false)]
pub fn filter_everyone(roles: &Vec<u64>, everyone: u64) -> (r: Vec<u64>)
    ensures
        r@ == filtered_roles_spec(roles@, everyone),
{
    let mut r: Vec<u64> = Vec::new();
    let mut i: usize = 0;
    proof {
        assert(roles@.take(0) =~= Seq::<u64>::empty());
    }
    while i < roles.len()
        invariant
            i <= roles.len(),
            r@ == filtered_roles_spec(roles@.take(i as int), everyone),
        decreases roles.len() - i,
    {
        proof {
            assert(roles@.take(i + 1).drop_last() =~= roles@.take(i as int));
            assert(roles@.take(i + 1).last() == roles@[i as int]);
        }
        if roles[i] != everyone {
            r.push(roles[i]);
        }
        i = i + 1;
    }
    proof {
        assert(roles@.take(roles@.len() as int) =~= roles@);
    }
    r
}

/// Law: the everyone role's identifier never appears among the filtered
/// role identifiers, whatever the input list.
pub proof fn lemma_everyone_never_listed(roles: Seq<u64>, everyone: u64)
    ensures
        forall|i: int|
            0 <= i < filtered_roles_spec(roles, everyone).len()
                ==> filtered_roles_spec(roles, everyone)[i] != everyone,
    decreases roles.len(),
{
    if roles.len() > 0 {
        lemma_everyone_never_listed(roles.drop_last(), everyone);
        let rest = filtered_roles_spec(roles.drop_last(), everyone);
        if roles.last() != everyone {
            assert(filtered_roles_spec(roles, everyone) == rest.push(roles.last()));
            assert forall|i: int| 0 <= i < rest.push(roles.last()).len() implies rest.push(
                roles.last(),
            )[i] != everyone by {
                if i == rest.len() {
                    assert(rest.push(roles.last())[i] == roles.last());
                } else {
                    assert(rest.push(roles.last())[i] == rest[i]);
                }
            }
        }
    }
}

/// The avatar shown for a user: the custom avatar when one is set, else the
/// platform-assigned default avatar.
pub open spec fn avatar_spec(u: UserProfile) -> Seq<char> {
    resolve_str_view(u.avatar_url, u.default_avatar_url)
}

/// The colour of a user's payload: the accent colour when one is set, else
/// the neutral default.
pub open spec fn colour_spec(u: UserProfile) -> u32 {
    resolve_spec(u.accent_colour, DEFAULT_COLOUR)
}

/// An optional text rendered through the resolver: the value when present,
/// else the `N/A` sentinel.
pub open spec fn opt_text_spec(o: Option<String>) -> Seq<char> {
    match o {
        Some(s) => s@,
        None => "N/A"@,
    }
}

/// An optional timestamp rendered through the resolver: formatted when
/// present, else the `N/A` sentinel.
pub open spec fn opt_timestamp_spec(o: Option<Timestamp>) -> Seq<char> {
    match o {
        Some(t) => timestamp_spec(t),
        None => "N/A"@,
    }
}

/// The role-mentions field value: every role mentioned, space-separated, in
/// the order given.
pub open spec fn roles_field_spec(roles: Seq<u64>) -> Seq<char> {
    join_spaces_spec(roles.map_values(|id: u64| role_mention_spec(id as int)))
}

/// Builds the role-mentions field value.
pub fn roles_field(roles: &Vec<u64>) -> (r: String)
    ensures
        r@ == roles_field_spec(roles@),
{
    let mentions = crate::render::role_mentions(roles);
    let r = crate::render::join_spaces(&mentions);
    proof {
        assert(mentions@.map_values(|s: String| s@) =~= roles@.map_values(
            |id: u64| role_mention_spec(id as int),
        ));
    }
    r
}

/// The whole `userinfo` payload as a function of the selected member:
/// display name (nickname, else username), username, creation and join
/// dates, role mentions, avatar thumbnail, accent colour and identifier
/// footer.
pub open spec fn userinfo_model(m: MemberProfile) -> PayloadModel {
    PayloadModel {
        title: "User Info"@,
        description: None,
        fields: seq![
            FieldModel {
                label: "Display Name"@,
                value: resolve_str_view(m.nick, m.user.name),
                inline: true,
            },
            FieldModel { label: "Username"@, value: m.user.name@, inline: true },
            FieldModel {
                label: "Created At"@,
                value: timestamp_spec(m.user.created_at),
                inline: false,
            },
            FieldModel { label: "Joined At"@, value: opt_timestamp_spec(m.joined_at), inline: false },
            FieldModel { label: "Roles"@, value: roles_field_spec(m.roles@), inline: false },
        ],
        thumbnail: Some(avatar_spec(m.user)),
        footer: Some(id_footer_spec(m.user.id as int)),
        colour: colour_spec(m.user),
    }
}

/// Assembles the `userinfo` response for the fetched member.
pub fn userinfo_payload(member: &MemberProfile) -> (r: ResponsePayload)
    requires
        member.wf(),
    ensures
        r@ == userinfo_model(*member),
{
    let display_name = crate::resolve::resolve_string(&member.nick, &member.user.name);
    let username = member.user.name.clone();
    let created = crate::render::format_timestamp(&member.user.created_at);
    let joined = match &member.joined_at {
        Some(t) => crate::render::format_timestamp(t),
        None => String::from_str("N/A"),
    };
    let roles_joined = roles_field(&member.roles);
    let avatar = crate::resolve::resolve_string(
        &member.user.avatar_url,
        &member.user.default_avatar_url,
    );
    let colour = crate::resolve::resolve(member.user.accent_colour, DEFAULT_COLOUR);
    let footer = crate::render::id_footer(member.user.id);
    let r = ResponsePayload::new(String::from_str("User Info"), colour).thumbnail(avatar).field(
        String::from_str("Display Name"),
        display_name,
        true,
    ).field(String::from_str("Username"), username, true).field(
        String::from_str("Created At"),
        created,
        false,
    ).field(String::from_str("Joined At"), joined, false).field(
        String::from_str("Roles"),
        roles_joined,
        false,
    ).footer(footer);
    proof {
        assert(r@ =~~= userinfo_model(*member));
    }
    r
}

/// The icon shown for a guild: its icon reference when one is set, else
/// empty.
pub open spec fn icon_view(o: Option<String>) -> Seq<char> {
    match o {
        Some(s) => s@,
        None => Seq::empty(),
    }
}

/// The rules-channel field value: the channel's mention when a rules
/// channel is set, else the `N/A` sentinel.
pub open spec fn rules_channel_spec(o: Option<u64>) -> Seq<char> {
    match o {
        Some(id) => channel_mention_spec(id as int),
        None => "N/A"@,
    }
}

/// The member-count field value: the approximate count when the cache could
/// supply one, else the `N/A` sentinel — an unavailable count degrades, it
/// never fails the command.
pub open spec fn member_count_spec(c: Option<u64>) -> Seq<char> {
    match c {
        Some(n) => dec_spec(n as int),
        None => "N/A"@,
    }
}

/// The whole `serverinfo` payload as a function of the guild snapshot, the
/// approximate member count and the channel list: owner mention, rules
/// channel, member count, per-bucket channel counts, description, and role
/// mentions with the everyone role filtered out.
pub open spec fn serverinfo_model(
    g: PartialGuildProfile,
    member_count: Option<u64>,
    channels: Seq<ChannelDescriptor>,
) -> PayloadModel {
    PayloadModel {
        title: g.name@,
        description: None,
        fields: seq![
            FieldModel { label: "Owner"@, value: user_mention_spec(g.owner_id as int), inline: true },
            FieldModel { label: "Rules"@, value: rules_channel_spec(g.rules_channel_id), inline: true },
            FieldModel { label: "Members"@, value: member_count_spec(member_count), inline: true },
            FieldModel {
                label: "Category Channels"@,
                value: dec_spec(count_kind(channels, ChannelKind::Category)),
                inline: true,
            },
            FieldModel {
                label: "Text Channels"@,
                value: dec_spec(count_kind(channels, ChannelKind::Text)),
                inline: true,
            },
            FieldModel {
                label: "Voice Channels"@,
                value: dec_spec(count_kind(channels, ChannelKind::Voice)),
                inline: true,
            },
            FieldModel { label: "Description"@, value: opt_text_spec(g.description), inline: false },
            FieldModel {
                label: "Roles"@,
                value: roles_field_spec(filtered_roles_spec(g.roles@, g.id)),
                inline: false,
            },
        ],
        thumbnail: Some(icon_view(g.icon_url)),
        footer: Some(id_footer_spec(g.id as int)),
        colour: DEFAULT_COLOUR,
    }
}

/// Assembles the `serverinfo` response for the fetched guild snapshot,
/// member count and channel list.
pub fn serverinfo_payload(
    guild: &PartialGuildProfile,
    member_count: Option<u64>,
    channels: &Vec<ChannelDescriptor>,
) -> (r: ResponsePayload)
    ensures
        r@ == serverinfo_model(*guild, member_count, channels@),
{
    let counts = crate::tally::tally(channels);
    let icon = match &guild.icon_url {
        Some(s) => s.clone(),
        None => String::new(),
    };
    let rules = match guild.rules_channel_id {
        Some(id) => crate::render::channel_mention(id),
        None => String::from_str("N/A"),
    };
    let members = match member_count {
        Some(n) => crate::render::dec_u64(n),
        None => String::from_str("N/A"),
    };
    let description = crate::resolve::resolve_string(&guild.description, &String::from_str("N/A"));
    let listed_roles = filter_everyone(&guild.roles, guild.id);
    let roles_joined = roles_field(&listed_roles);
    let footer = crate::render::id_footer(guild.id);
    let r = ResponsePayload::new(guild.name.clone(), DEFAULT_COLOUR).thumbnail(icon).field(
        String::from_str("Owner"),
        crate::render::user_mention(guild.owner_id),
        true,
    ).field(String::from_str("Rules"), rules, true).field(
        String::from_str("Members"),
        members,
        true,
    ).field(
        String::from_str("Category Channels"),
        crate::render::dec_u64(counts.category as u64),
        true,
    ).field(
        String::from_str("Text Channels"),
        crate::render::dec_u64(counts.text as u64),
        true,
    ).field(
        String::from_str("Voice Channels"),
        crate::render::dec_u64(counts.voice as u64),
        true,
    ).field(String::from_str("Description"), description, false).field(
        String::from_str("Roles"),
        roles_joined,
        false,
    ).footer(footer);
    proof {
        assert(r@ =~~= serverinfo_model(*guild, member_count, channels@));
    }
    r
}

/// The whole `botinfo` payload as a function of the bot's own member
/// profile: a fixed descriptive text, the bot's creation date, avatar,
/// accent colour and identifier footer.
pub open spec fn botinfo_model(m: MemberProfile) -> PayloadModel {
    PayloadModel {
        title: "DSEC Bot Info"@,
        description: Some(
            "The DSEC Discord Bot is a project by **Deakin Software Engineering Club** to encourage students to learn Rust in a practical and interactive collaboration project"@,
        ),
        fields: seq![
            FieldModel { label: "Tech Stack"@, value: "Rust (Poise framework)"@, inline: true },
            FieldModel {
                label: "Repository URL"@,
                value: "[Github Repository](https://github.com/liyunze-coding/DSEC-Discord-Bot)"@,
                inline: true,
            },
            FieldModel {
                label: "Created At"@,
                value: timestamp_spec(m.user.created_at),
                inline: false,
            },
        ],
        thumbnail: Some(avatar_spec(m.user)),
        footer: Some(id_footer_spec(m.user.id as int)),
        colour: colour_spec(m.user),
    }
}

/// The user the `botinfo` command is always about: the injected fixed bot
/// identifier.
pub fn botinfo_target(config: &BotConfig) -> (r: u64)
    ensures
        r == config.bot_user_id,
{
    config.bot_user_id
}

/// Assembles the `botinfo` response for the bot's fetched member profile.
pub fn botinfo_payload(member: &MemberProfile) -> (r: ResponsePayload)
    requires
        member.user.wf(),
    ensures
        r@ == botinfo_model(*member),
{
    let created = crate::render::format_timestamp(&member.user.created_at);
    let avatar = crate::resolve::resolve_string(
        &member.user.avatar_url,
        &member.user.default_avatar_url,
    );
    let colour = crate::resolve::resolve(member.user.accent_colour, DEFAULT_COLOUR);
    let footer = crate::render::id_footer(member.user.id);
    let r = ResponsePayload::new(String::from_str("DSEC Bot Info"), colour).thumbnail(
        avatar,
    ).description(
        String::from_str(
            "The DSEC Discord Bot is a project by **Deakin Software Engineering Club** to encourage students to learn Rust in a practical and interactive collaboration project",
        ),
    ).field(String::from_str("Tech Stack"), String::from_str("Rust (Poise framework)"), true).field(
        String::from_str("Repository URL"),
        String::from_str("[Github Repository](https://github.com/liyunze-coding/DSEC-Discord-Bot)"),
        true,
    ).field(String::from_str("Created At"), created, false).footer(footer);
    proof {
        assert(r@ =~~= botinfo_model(*member));
    }
    r
}

/// The acknowledgment payload of the `ping` command, sent before the
/// latency is known.
pub open spec fn ping_ack_model() -> PayloadModel {
    new_model("Pinging..."@, DEFAULT_COLOUR)
}

/// Assembles the `ping` acknowledgment payload.
pub fn ping_acknowledgment() -> (r: ResponsePayload)
    ensures
        r@ == ping_ack_model(),
{
    ResponsePayload::new(String::from_str("Pinging..."), DEFAULT_COLOUR)
}

/// The result payload of the `ping` command, carrying the elapsed
/// milliseconds.
pub open spec fn ping_result_model(elapsed: int) -> PayloadModel {
    with_description(new_model("Pong!"@, DEFAULT_COLOUR), dec_spec(elapsed) + " ms"@)
}

/// Assembles the `ping` result payload, which replaces the acknowledgment.
pub fn ping_result(elapsed: u64) -> (r: ResponsePayload)
    ensures
        r@ == ping_result_model(elapsed as int),
{
    let mut d = crate::render::dec_u64(elapsed);
    d.append(" ms");
    let r = ResponsePayload::new(String::from_str("Pong!"), DEFAULT_COLOUR).description(d);
    proof {
        assert(r@ =~~= ping_result_model(elapsed as int));
    }
    r
}

/// Completes a `userinfo` invocation from its fetch outcome: a payload for
/// the fetched member, or the fetch's own error — never a partial payload.
pub fn userinfo_respond(fetched: Result<MemberProfile, BotError>) -> (r: Result<
    ResponsePayload,
    BotError,
>)
    requires
        fetched matches Ok(m) ==> m.wf(),
    ensures
        fetched matches Ok(m) ==> (r matches Ok(p) && p@ == userinfo_model(m)),
        fetched matches Err(e) ==> r == Err::<ResponsePayload, BotError>(e),
{
    match fetched {
        Ok(member) => Ok(userinfo_payload(&member)),
        Err(e) => Err(e),
    }
}

/// Completes a `serverinfo` invocation from its fetch outcomes: a payload
/// for the fetched guild, or the guild fetch's own error. An absent member
/// count is not a failure; it degrades inside the payload.
pub fn serverinfo_respond(
    fetched: Result<PartialGuildProfile, BotError>,
    member_count: Option<u64>,
    channels: &Vec<ChannelDescriptor>,
) -> (r: Result<ResponsePayload, BotError>)
    ensures
        fetched matches Ok(g) ==> (r matches Ok(p) && p@ == serverinfo_model(
            g,
            member_count,
            channels@,
        )),
        fetched matches Err(e) ==> r == Err::<ResponsePayload, BotError>(e),
{
    match fetched {
        Ok(guild) => Ok(serverinfo_payload(&guild, member_count, channels)),
        Err(e) => Err(e),
    }
}

/// Completes a `botinfo` invocation from its fetch outcome: a payload for
/// the bot's fetched member profile, or the fetch's own error.
pub fn botinfo_respond(fetched: Result<MemberProfile, BotError>) -> (r: Result<
    ResponsePayload,
    BotError,
>)
    requires
        fetched matches Ok(m) ==> m.user.wf(),
    ensures
        fetched matches Ok(m) ==> (r matches Ok(p) && p@ == botinfo_model(m)),
        fetched matches Err(e) ==> r == Err::<ResponsePayload, BotError>(e),
{
    match fetched {
        Ok(member) => Ok(botinfo_payload(&member)),
        Err(e) => Err(e),
    }
}

/// Law: naming the invoker as the explicit `userinfo` target selects the
/// same user as naming no target at all; the payload is a function of the
/// selected member alone, so the two invocations emit the same payload.
pub proof fn lemma_userinfo_target_idempotent(ctx: RequestContext)
    ensures
        resolve_spec(Some(ctx.invoker_id), ctx.invoker_id) == resolve_spec(
            None::<u64>,
            ctx.invoker_id,
        ),
{
}

} // verus!
