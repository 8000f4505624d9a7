use sary::lookup::{LookupAction, UserLookup};
use sary::mention::mention_parse_would_panic;
use sary::moderation::{
    Answer, ButtonStyle, Components, MemberInfo, ResponseKind, SessionAction, SessionEvent,
    SessionState, MUTE_ROLE_ID,
};
use sary::records::ModAction;
use sary::stats::{avatar_url, stats_report, system_load_report, uptime_text, SystemLoad};

#[test]
fn mention_wins() {
    assert_eq!(UserLookup::begin("<@123>"), (UserLookup::Finished, LookupAction::Resolved(Some(123))));
    assert_eq!(UserLookup::begin("<@!456>"), (UserLookup::Finished, LookupAction::Resolved(Some(456))));
    // The last character is dropped unseen.
    assert_eq!(UserLookup::begin("<@789x"), (UserLookup::Finished, LookupAction::Resolved(Some(789))));
    assert_eq!(UserLookup::begin("<@12"), (UserLookup::Finished, LookupAction::Resolved(Some(1))));
    // An empty id in a mention falls through to the name searches.
    assert_eq!(UserLookup::begin("<@!>"), (UserLookup::AwaitingExactName, LookupAction::FindExactName));
}

#[test]
fn numeric_id_fetches_member() {
    assert_eq!(UserLookup::begin("42"), (UserLookup::AwaitingMemberById, LookupAction::FetchMember(42)));
    assert_eq!(UserLookup::begin("+42"), (UserLookup::AwaitingMemberById, LookupAction::FetchMember(42)));
    // Too short to be a mention, and not a number.
    assert_eq!(UserLookup::begin("<@1"), (UserLookup::AwaitingExactName, LookupAction::FindExactName));
    // A malformed mention is not a number either.
    assert_eq!(UserLookup::begin("<@abc>"), (UserLookup::AwaitingExactName, LookupAction::FindExactName));
    assert_eq!(
        UserLookup::begin("18446744073709551616"),
        (UserLookup::AwaitingExactName, LookupAction::FindExactName)
    );
}

#[test]
fn names_are_searched_in_order() {
    let (s, a) = UserLookup::begin("alice");
    assert_eq!(a, LookupAction::FindExactName);
    let (s, a) = s.advance(None);
    assert_eq!(a, LookupAction::FindPrefix);
    let (s, a) = s.advance(None);
    assert_eq!(a, LookupAction::FindSubstring);
    let (s, a) = s.advance(Some(9));
    assert_eq!(a, LookupAction::Resolved(Some(9)));
    assert!(s.is_finished());
    let (s, a) = UserLookup::begin("7");
    assert_eq!(a, LookupAction::FetchMember(7));
    let (s, a) = s.advance(None);
    assert_eq!(a, LookupAction::FindExactName);
    let (_, a) = s.advance(Some(3));
    assert_eq!(a, LookupAction::Resolved(Some(3)));
    let (_, a) = UserLookup::AwaitingSubstring.advance(None);
    assert_eq!(a, LookupAction::Resolved(None));
}

#[test]
fn mention_with_wide_last_character_aborts() {
    assert!(mention_parse_would_panic("<@1é"));
    assert!(!mention_parse_would_panic("é<@1"));
    assert!(!mention_parse_would_panic("<@1>"));
    assert_eq!(UserLookup::begin("<@1é"), (UserLookup::Finished, LookupAction::Abort));
    assert_eq!(UserLookup::Finished.advance(Some(1)), (UserLookup::Finished, LookupAction::Abort));
}

fn session_at_menu() -> SessionState {
    let s = SessionState::new();
    let (s, a) = s.step(SessionEvent::Invoked { is_private: false, issuer: 11, guild: Some(22) });
    assert!(matches!(a, SessionAction::ReadMention));
    let (s, a) = s.step(SessionEvent::MentionRead(Some("bob".to_string())));
    match a {
        SessionAction::ResolveTarget { mention, guild } => {
            assert_eq!(mention, "bob");
            assert_eq!(guild, 22);
        }
        _ => panic!("expected a lookup"),
    }
    let (s, a) = s.step(SessionEvent::TargetResolved(Some(33)));
    assert!(matches!(a, SessionAction::FetchMember { user_id: 33 }));
    let (s, a) = s.step(SessionEvent::MemberFetched(Some(MemberInfo {
        user_id: 33,
        guild_id: 22,
        name: "bob".to_string(),
        discriminator: 7,
    })));
    match a {
        SessionAction::SendMenu { content, buttons } => {
            assert_eq!(content, "What would you like to do to `bob#0007` (`33`)?");
            let ids: Vec<&str> = buttons.iter().map(|b| b.custom_id.as_str()).collect();
            assert_eq!(ids, vec!["btn-mute", "btn-kick", "btn-ban", "btn-logs"]);
            let labels: Vec<&str> = buttons.iter().map(|b| b.label.as_str()).collect();
            assert_eq!(labels, vec!["Mute", "Kick", "Ban", "View Logs"]);
            assert_eq!(buttons[0].style, ButtonStyle::Primary);
            assert_eq!(buttons[1].style, ButtonStyle::Secondary);
            assert_eq!(buttons[2].style, ButtonStyle::Danger);
            assert_eq!(buttons[3].style, ButtonStyle::Success);
        }
        _ => panic!("expected the menu"),
    }
    let (s, a) = s.step(SessionEvent::Sent(true));
    assert!(matches!(a, SessionAction::AwaitComponent { author: 11, secs: 60 }));
    s
}

#[test]
fn private_channel_is_refused() {
    let (s, a) = SessionState::new().step(SessionEvent::Invoked { is_private: true, issuer: 1, guild: None });
    match a {
        SessionAction::ReplyInChannel(t) => assert_eq!(t, "You can't kick anyone in private messages!"),
        _ => panic!("expected a refusal"),
    }
    let (s, a) = s.step(SessionEvent::Sent(true));
    assert!(matches!(a, SessionAction::Finish { error: false }));
    assert!(s.is_finished());
}

#[test]
fn kick_only_announces() {
    let s = session_at_menu();
    let (s, a) = s.step(SessionEvent::Answered(Answer::Component("btn-kick".to_string())));
    match a {
        SessionAction::Respond { kind, content, components } => {
            assert_eq!(kind, ResponseKind::NewMessage);
            assert_eq!(content, "User `bob#0007` (`33`) has been kicked.");
            assert!(matches!(components, Components::Unchanged));
        }
        _ => panic!("expected a response"),
    }
    let (s, a) = s.step(SessionEvent::Sent(false));
    assert!(matches!(a, SessionAction::Finish { error: false }));
    assert!(s.is_finished());
}

#[test]
fn ban_only_announces() {
    let s = session_at_menu();
    let (_, a) = s.step(SessionEvent::Answered(Answer::Component("btn-ban".to_string())));
    match a {
        SessionAction::Respond { content, .. } => assert_eq!(content, "User `bob#0007` (`33`) has been banned."),
        _ => panic!("expected a response"),
    }
}

#[test]
fn viewing_logs_is_recorded() {
    let s = session_at_menu();
    let (s, a) = s.step(SessionEvent::Answered(Answer::Component("btn-logs".to_string())));
    match a {
        SessionAction::Record(r) => {
            assert_eq!(r.kind, ModAction::ViewLogs);
            assert_eq!(r.issuer_id, 11);
            assert_eq!(r.user_id, 33);
            assert_eq!(r.guild_id, 22);
            assert_eq!(r.reason, "None");
        }
        _ => panic!("expected a record"),
    }
    let (_, a) = s.step(SessionEvent::Recorded);
    match a {
        SessionAction::Respond { kind, content, .. } => {
            assert_eq!(kind, ResponseKind::NewMessage);
            assert_eq!(content, "User `bob#0007` (`33`) has had their logs viewed.");
        }
        _ => panic!("expected a response"),
    }
}

#[test]
fn timeout_and_unknown_buttons_end_quietly() {
    let (s, a) = session_at_menu().step(SessionEvent::Answered(Answer::TimedOut));
    assert!(matches!(a, SessionAction::Finish { error: false }));
    assert!(s.is_finished());
    let (_, a) = session_at_menu().step(SessionEvent::Answered(Answer::Component("other".to_string())));
    assert!(matches!(a, SessionAction::Finish { error: false }));
    let (_, a) = session_at_menu().step(SessionEvent::Answered(Answer::Unsupported));
    assert!(matches!(a, SessionAction::Finish { error: false }));
}

fn session_at_reason_choice() -> SessionState {
    let s = session_at_menu();
    let (s, a) = s.step(SessionEvent::Answered(Answer::Component("btn-mute".to_string())));
    match a {
        SessionAction::Respond { kind, content, components } => {
            assert_eq!(kind, ResponseKind::UpdateMessage);
            assert_eq!(content, "How long would you like to mute for?");
            match components {
                Components::Buttons(b) => {
                    assert_eq!(b[0].custom_id, "forever");
                    assert_eq!(b[0].label, "Forever");
                    assert_eq!(b[0].style, ButtonStyle::Danger);
                    assert_eq!(b[1].custom_id, "custom");
                    assert_eq!(b[1].label, "Custom");
                }
                _ => panic!("expected buttons"),
            }
        }
        _ => panic!("expected the duration prompt"),
    }
    let (s, a) = s.step(SessionEvent::Sent(true));
    assert!(matches!(a, SessionAction::AwaitComponent { author: 11, secs: 60 }));
    let (s, a) = s.step(SessionEvent::Answered(Answer::Component("forever".to_string())));
    match a {
        SessionAction::Respond { content, components, .. } => {
            assert_eq!(content, "Would you like to provide a reason?");
            match components {
                Components::Buttons(b) => {
                    assert_eq!(b[0].custom_id, "yes");
                    assert_eq!(b[1].custom_id, "no");
                }
                _ => panic!("expected buttons"),
            }
        }
        _ => panic!("expected the reason prompt"),
    }
    let (s, a) = s.step(SessionEvent::Sent(true));
    assert!(matches!(a, SessionAction::AwaitComponent { author: 11, secs: 60 }));
    s
}

#[test]
fn mute_without_reason() {
    let s = session_at_reason_choice();
    let (s, a) = s.step(SessionEvent::Answered(Answer::Component("no".to_string())));
    assert!(matches!(a, SessionAction::AddRole { role_id: MUTE_ROLE_ID }));
    assert_eq!(MUTE_ROLE_ID, 704641046465740851);
    let (s, a) = s.step(SessionEvent::RoleAdded(Ok(())));
    match a {
        SessionAction::Record(r) => {
            assert_eq!(r.kind, ModAction::Mute);
            assert_eq!(r.reason, "None");
            assert_eq!(r.issuer_id, 11);
            assert_eq!(r.user_id, 33);
        }
        _ => panic!("expected a record"),
    }
    let (s, a) = s.step(SessionEvent::Recorded);
    match a {
        SessionAction::Respond { kind, content, components } => {
            assert_eq!(kind, ResponseKind::UpdateMessage);
            assert_eq!(content, "User `bob#0007` (`33`) has been muted.");
            assert!(matches!(components, Components::Cleared));
        }
        _ => panic!("expected the outcome"),
    }
    let (s, a) = s.step(SessionEvent::Sent(true));
    assert!(matches!(a, SessionAction::Finish { error: false }));
    assert!(s.is_finished());
}

#[test]
fn mute_with_typed_reason() {
    let s = session_at_reason_choice();
    let (s, a) = s.step(SessionEvent::Answered(Answer::Component("yes".to_string())));
    match a {
        SessionAction::Respond { content, components, .. } => {
            assert_eq!(content, "Type your reason.");
            assert!(matches!(components, Components::Cleared));
        }
        _ => panic!("expected the request"),
    }
    let (s, a) = s.step(SessionEvent::Sent(false));
    assert!(matches!(a, SessionAction::AwaitReasonText { author: 11, secs: 15 }));
    let (s, a) = s.step(SessionEvent::ReasonTyped(Some("spamming links".to_string())));
    assert!(matches!(a, SessionAction::AddRole { .. }));
    let (s, a) = s.step(SessionEvent::RoleAdded(Ok(())));
    match a {
        SessionAction::Record(r) => assert_eq!(r.reason, "spamming links"),
        _ => panic!("expected a record"),
    }
    let (s, a) = s.step(SessionEvent::Recorded);
    match a {
        SessionAction::FollowUp(t) => assert_eq!(t, "User `bob#0007` (`33`) has been muted."),
        _ => panic!("expected a follow-up"),
    }
    let (_, a) = s.step(SessionEvent::Sent(false));
    assert!(matches!(a, SessionAction::Abort));
}

#[test]
fn failed_mute_is_reported_and_not_recorded() {
    let s = session_at_reason_choice();
    let (s, _) = s.step(SessionEvent::Answered(Answer::Component("no".to_string())));
    let (s, a) = s.step(SessionEvent::RoleAdded(Err("Missing Permissions".to_string())));
    match a {
        SessionAction::Respond { content, .. } => assert_eq!(
            content,
            "User `bob#0007` (`33`) could not be muted! Might be a lack of permissions or this role doesn't exist.\n**Missing Permissions**"
        ),
        _ => panic!("expected the outcome"),
    }
    let (_, a) = s.step(SessionEvent::Sent(true));
    assert!(matches!(a, SessionAction::Finish { error: false }));
}

#[test]
fn missing_values_abort() {
    let s = SessionState::new();
    let (s, _) = s.step(SessionEvent::Invoked { is_private: false, issuer: 1, guild: None });
    let (_, a) = s.step(SessionEvent::MentionRead(Some("x".to_string())));
    assert!(matches!(a, SessionAction::Abort));
    let s = SessionState::new();
    let (s, _) = s.step(SessionEvent::Invoked { is_private: false, issuer: 1, guild: Some(2) });
    let (s, a) = s.step(SessionEvent::MentionRead(None));
    assert!(matches!(a, SessionAction::Finish { error: true }));
    assert!(s.is_finished());
    let (_, a) = s.step(SessionEvent::Recorded);
    assert!(matches!(a, SessionAction::Abort));
    let (s, _) = SessionState::new().step(SessionEvent::Invoked { is_private: false, issuer: 1, guild: Some(2) });
    let (s, _) = s.step(SessionEvent::MentionRead(Some("nobody".to_string())));
    let (_, a) = s.step(SessionEvent::TargetResolved(None));
    assert!(matches!(a, SessionAction::Abort));
}

#[test]
fn uptime_and_avatar_texts() {
    assert_eq!(uptime_text(0), "0h 0m 0s");
    assert_eq!(uptime_text(3725), "1h 2m 5s");
    assert_eq!(uptime_text(90061), "25h 1m 1s");
    assert_eq!(uptime_text(-3725), "-1h -2m -5s");
    assert_eq!(uptime_text(-59), "0h 0m -59s");
    assert_eq!(avatar_url(7, "abc"), "https://cdn.discordapp.com/avatars/7/abc.png");
}

fn sample_load() -> SystemLoad {
    SystemLoad {
        cpu_load: "1.50%".to_string(),
        memory: "10.00 MB / 20.00 MB".to_string(),
        guilds: 3,
        users: 40,
        shards: 1,
        bot_id: 99,
        avatar: "hash".to_string(),
        started_secs: 0,
        started_nanos: 0,
        uptime_secs: 3661,
        version: "0.1.0".to_string(),
    }
}

#[test]
fn statistics_embed() {
    let r = stats_report(&sample_load(), "then");
    assert_eq!(r.title, "System resource Load");
    assert_eq!(r.colour, 0x34EB74);
    assert_eq!(r.footer_text, "Updated");
    assert_eq!(r.footer_icon, "https://cdn.discordapp.com/avatars/99/hash.png");
    let fields: Vec<(&str, &str, bool)> =
        r.fields.iter().map(|f| (f.name.as_str(), f.value.as_str(), f.inline)).collect();
    assert_eq!(
        fields,
        vec![
            ("Cpu Load Average", "1.50%", true),
            ("Memory Usage", "10.00 MB / 20.00 MB", true),
            ("Total Guilds", "3", true),
            ("Total Users", "40", true),
            ("Total shards", "1", true),
            ("Started at", "then", true),
            ("Uptime", "1h 1m 1s", true),
            ("Bot version", "0.1.0", true),
        ]
    );
}

#[test]
fn statistics_start_time_from_chrono() {
    let r = system_load_report(&sample_load()).unwrap();
    assert_eq!(r.fields[5].value, "Thu, January 01, 1970 (12:00:00 AM)");
    let mut far = sample_load();
    far.started_secs = i64::MAX;
    assert!(system_load_report(&far).is_none());
}
