use dsec_bot::handlers::botinfo_payload;
use dsec_bot::handlers::botinfo_respond;
use dsec_bot::handlers::botinfo_target;
use dsec_bot::handlers::entity_or_not_found;
use dsec_bot::handlers::filter_everyone;
use dsec_bot::handlers::ping_acknowledgment;
use dsec_bot::handlers::ping_result;
use dsec_bot::handlers::require_guild;
use dsec_bot::handlers::roles_field;
use dsec_bot::handlers::serverinfo_payload;
use dsec_bot::handlers::serverinfo_respond;
use dsec_bot::handlers::userinfo_payload;
use dsec_bot::handlers::userinfo_respond;
use dsec_bot::handlers::userinfo_target;
use dsec_bot::latency::elapsed_ms;
use dsec_bot::model::BotConfig;
use dsec_bot::model::BotError;
use dsec_bot::model::ChannelDescriptor;
use dsec_bot::model::ChannelKind;
use dsec_bot::model::CommandKind;
use dsec_bot::model::MemberProfile;
use dsec_bot::model::PartialGuildProfile;
use dsec_bot::model::RequestContext;
use dsec_bot::model::Timestamp;
use dsec_bot::model::UserProfile;
use dsec_bot::model::DEFAULT_COLOUR;

fn sample_user() -> UserProfile {
    UserProfile {
        id: 77,
        name: "rustacean".to_string(),
        avatar_url: Some("https://cdn.example/avatars/77/abc.png".to_string()),
        default_avatar_url: "https://cdn.example/embed/avatars/2.png".to_string(),
        accent_colour: Some(0x00FF00),
        created_at: Timestamp { year: 2016, month: 4, day: 30, hour: 11, minute: 18 },
    }
}

fn sample_member() -> MemberProfile {
    MemberProfile {
        user: sample_user(),
        nick: Some("Ferris".to_string()),
        joined_at: Some(Timestamp { year: 2020, month: 1, day: 2, hour: 15, minute: 4 }),
        roles: vec![11, 22],
    }
}

fn sample_guild() -> PartialGuildProfile {
    PartialGuildProfile {
        id: 500,
        name: "Club".to_string(),
        icon_url: Some("https://cdn.example/icons/500/icon.png".to_string()),
        owner_id: 9,
        description: Some("A place".to_string()),
        rules_channel_id: Some(1234),
        roles: vec![500, 11, 22],
    }
}

fn guild_ctx(invoker: u64, command: CommandKind) -> RequestContext {
    RequestContext { invoker_id: invoker, guild_id: Some(500), command }
}

#[test]
fn userinfo_fields_in_order() {
    let p = userinfo_payload(&sample_member());
    assert_eq!(p.title, "User Info");
    assert_eq!(p.description, None);
    let labels: Vec<&str> = p.fields.iter().map(|f| f.label.as_str()).collect();
    assert_eq!(labels, vec!["Display Name", "Username", "Created At", "Joined At", "Roles"]);
    assert_eq!(p.fields[0].value, "Ferris");
    assert!(p.fields[0].inline);
    assert_eq!(p.fields[1].value, "rustacean");
    assert!(p.fields[1].inline);
    assert_eq!(p.fields[2].value, "30/04/2016 11:18 AM");
    assert!(!p.fields[2].inline);
    assert_eq!(p.fields[3].value, "02/01/2020 03:04 PM");
    assert_eq!(p.fields[4].value, "<@&11> <@&22>");
    assert_eq!(p.thumbnail.as_deref(), Some("https://cdn.example/avatars/77/abc.png"));
    assert_eq!(p.footer.as_deref(), Some("ID: 77"));
    assert_eq!(p.colour, 0x00FF00);
}

#[test]
fn userinfo_falls_back_to_defaults() {
    let mut member = sample_member();
    member.nick = None;
    member.joined_at = None;
    member.user.avatar_url = None;
    member.user.accent_colour = None;
    let p = userinfo_payload(&member);
    assert_eq!(p.fields[0].value, "rustacean");
    assert_eq!(p.fields[3].value, "N/A");
    assert_eq!(p.thumbnail.as_deref(), Some("https://cdn.example/embed/avatars/2.png"));
    assert_eq!(p.colour, DEFAULT_COLOUR);
}

#[test]
fn userinfo_explicit_self_target_matches_default_target() {
    let ctx = guild_ctx(77, CommandKind::Userinfo);
    let explicit = userinfo_target(&ctx, Some(77));
    let implicit = userinfo_target(&ctx, None);
    assert_eq!(explicit, implicit);
    let member = sample_member();
    assert_eq!(userinfo_payload(&member), userinfo_payload(&member));
}

#[test]
fn userinfo_explicit_other_target_wins() {
    let ctx = guild_ctx(77, CommandKind::Userinfo);
    assert_eq!(userinfo_target(&ctx, Some(123)), 123);
}

#[test]
fn userinfo_in_direct_message_is_context_missing() {
    let ctx = RequestContext { invoker_id: 77, guild_id: None, command: CommandKind::Userinfo };
    assert_eq!(require_guild(&ctx), Err(BotError::ContextMissing));
}

#[test]
fn require_guild_present() {
    let ctx = guild_ctx(77, CommandKind::Serverinfo);
    assert_eq!(require_guild(&ctx), Ok(500));
}

#[test]
fn lookup_miss_is_entity_not_found() {
    assert_eq!(entity_or_not_found::<u64>(None), Err(BotError::EntityNotFound));
    assert_eq!(entity_or_not_found(Some(7u64)), Ok(7));
}

#[test]
fn serverinfo_fields_in_order() {
    let channels = vec![
        ChannelDescriptor { id: 1, kind: ChannelKind::Text },
        ChannelDescriptor { id: 2, kind: ChannelKind::Text },
        ChannelDescriptor { id: 3, kind: ChannelKind::Voice },
        ChannelDescriptor { id: 4, kind: ChannelKind::Category },
        ChannelDescriptor { id: 5, kind: ChannelKind::Other },
    ];
    let p = serverinfo_payload(&sample_guild(), Some(250), &channels);
    assert_eq!(p.title, "Club");
    let labels: Vec<&str> = p.fields.iter().map(|f| f.label.as_str()).collect();
    assert_eq!(
        labels,
        vec![
            "Owner",
            "Rules",
            "Members",
            "Category Channels",
            "Text Channels",
            "Voice Channels",
            "Description",
            "Roles"
        ]
    );
    assert_eq!(p.fields[0].value, "<@9>");
    assert_eq!(p.fields[1].value, "<#1234>");
    assert_eq!(p.fields[2].value, "250");
    assert_eq!(p.fields[3].value, "1");
    assert_eq!(p.fields[4].value, "2");
    assert_eq!(p.fields[5].value, "1");
    assert_eq!(p.fields[6].value, "A place");
    assert_eq!(p.fields[7].value, "<@&11> <@&22>");
    assert_eq!(p.thumbnail.as_deref(), Some("https://cdn.example/icons/500/icon.png"));
    assert_eq!(p.footer.as_deref(), Some("ID: 500"));
    assert_eq!(p.colour, DEFAULT_COLOUR);
}

#[test]
fn serverinfo_everyone_role_never_mentioned() {
    let p = serverinfo_payload(&sample_guild(), Some(1), &vec![]);
    let roles_value = &p.fields[7].value;
    assert!(!roles_value.contains("<@&500>"));
    assert_eq!(roles_value, "<@&11> <@&22>");
}

#[test]
fn serverinfo_absent_optionals_degrade() {
    let mut guild = sample_guild();
    guild.description = None;
    guild.rules_channel_id = None;
    guild.icon_url = None;
    let p = serverinfo_payload(&guild, Some(3), &vec![]);
    assert_eq!(p.fields[1].value, "N/A");
    assert_eq!(p.fields[6].value, "N/A");
    assert_eq!(p.thumbnail.as_deref(), Some(""));
}

#[test]
fn serverinfo_unavailable_member_count_is_not_an_error() {
    let p = serverinfo_payload(&sample_guild(), None, &vec![]);
    assert_eq!(p.fields[2].value, "N/A");
    assert_eq!(p.title, "Club");
}

#[test]
fn filter_everyone_keeps_order_and_drops_all_occurrences() {
    assert_eq!(filter_everyone(&vec![500, 11, 500, 22], 500), vec![11, 22]);
    assert_eq!(filter_everyone(&vec![500], 500), Vec::<u64>::new());
    assert_eq!(filter_everyone(&vec![], 500), Vec::<u64>::new());
}

#[test]
fn roles_field_of_no_roles_is_empty() {
    assert_eq!(roles_field(&vec![]), "");
}

#[test]
fn botinfo_static_payload() {
    let config = BotConfig { bot_user_id: 1434887135135268935 };
    assert_eq!(botinfo_target(&config), 1434887135135268935);
    let mut member = sample_member();
    member.user.id = config.bot_user_id;
    member.user.accent_colour = None;
    let p = botinfo_payload(&member);
    assert_eq!(p.title, "DSEC Bot Info");
    assert!(p.description.as_deref().unwrap().contains("Deakin Software Engineering Club"));
    let labels: Vec<&str> = p.fields.iter().map(|f| f.label.as_str()).collect();
    assert_eq!(labels, vec!["Tech Stack", "Repository URL", "Created At"]);
    assert_eq!(p.fields[0].value, "Rust (Poise framework)");
    assert_eq!(p.fields[2].value, "30/04/2016 11:18 AM");
    assert_eq!(p.footer.as_deref(), Some("ID: 1434887135135268935"));
    assert_eq!(p.colour, DEFAULT_COLOUR);
}

#[test]
fn respond_propagates_fetch_errors() {
    assert_eq!(userinfo_respond(Err(BotError::EntityNotFound)), Err(BotError::EntityNotFound));
    assert_eq!(
        serverinfo_respond(Err(BotError::TransportFailure), Some(1), &vec![]),
        Err(BotError::TransportFailure)
    );
    assert_eq!(botinfo_respond(Err(BotError::ContextMissing)), Err(BotError::ContextMissing));
}

#[test]
fn respond_success_builds_the_whole_payload() {
    let p = userinfo_respond(Ok(sample_member())).unwrap();
    assert_eq!(p, userinfo_payload(&sample_member()));
    let unavailable_count = serverinfo_respond(Ok(sample_guild()), None, &vec![]).unwrap();
    assert_eq!(unavailable_count.fields[2].value, "N/A");
    assert_eq!(unavailable_count.title, "Club");
}

#[test]
fn error_messages_are_user_visible() {
    assert_eq!(BotError::ContextMissing.message(), "This command can only be used in a server");
    assert_eq!(
        BotError::EntityNotFound.message(),
        "No matching user, member or server was found"
    );
    assert_eq!(BotError::TransportFailure.message(), "The response could not be delivered");
}

#[test]
fn ping_two_phase_payloads() {
    let ack = ping_acknowledgment();
    assert_eq!(ack.title, "Pinging...");
    assert_eq!(ack.description, None);
    assert_eq!(ack.colour, DEFAULT_COLOUR);
    let elapsed = elapsed_ms(1000, 1042);
    let done = ping_result(elapsed);
    assert_eq!(done.title, "Pong!");
    assert_eq!(done.description.as_deref(), Some("42 ms"));
    assert_eq!(done.colour, DEFAULT_COLOUR);
}
