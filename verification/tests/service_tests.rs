use std::sync::Arc;

use sapa_backend::action::{Action, ActionEvent, ActionKind, PlatformEvent};
use sapa_backend::action_store::{ActionService, InMemoryActionRepository};
use sapa_backend::api::users::resolve_user_platforms;
use sapa_backend::config::TwitchConfig;
use sapa_backend::error::{ActionServiceError, ApiError, ExecutorError, QueueServiceError, RepositoryError};
use sapa_backend::executor::ActionExecutor;
use sapa_backend::ids::{ActionId, PlatformId, RuleId};
use sapa_backend::queue::InMemoryQueueRepository;
use sapa_backend::rules::{
    reward_used_in_rules, InMemoryRuleRepository, MessageConditions, MessageMatcher, RewardConditions,
    Rule, RuleConditions, RuleTrigger,
};
use sapa_backend::session::{InMemorySessionRepository, LoginTicket, LoginTicketToken, Session, SessionToken};
use sapa_backend::user::{InMemoryPlatformRepository, InMemoryUserRepository};
use sapa_backend::web::{check_access, cookie_value, widget_token_matches, Role};
use sapa_backend::admin::{AdminService, InMemoryAdminRepository};
use sapa_backend::error::SessionServiceError;
use sapa_backend::events::{spin_event_to_sse, SpinEvent};
use sapa_backend::rule_service::RuleService;
use sapa_backend::api::admin::{reward_responses, CustomReward};
use sapa_backend::session_service::{create_login_ticket_at, login_at, logout};
use sapa_backend::roulette::{dequeue_next, dequeue_next_with_roll, pick_slot};
use sapa_backend::catalog::{InMemoryRarityRepository, InMemoryRouletteSlotRepository, Rarity, RouletteSlot};
use sapa_backend::ids::RarityId;
use sapa_backend::user_service::UserService;
use sapa_backend::error::UserServiceError;
use sapa_backend::error::RuleServiceError;

fn conditions(trigger: RuleTrigger) -> RuleConditions {
    match trigger {
        RuleTrigger::ChatMessage => RuleConditions::ChatMessage(MessageConditions {
            matcher: MessageMatcher::Contains,
            pattern: Some("!spin".to_string()),
        }),
        RuleTrigger::RewardRedemption => {
            RuleConditions::RewardRedemption(RewardConditions { reward_id: None })
        }
    }
}

#[test]
fn inmemory_rules_create_and_get() {
    let mut repo = InMemoryRuleRepository::new();
    let rule = repo
        .create(
            "chat-spin",
            true,
            RuleTrigger::ChatMessage,
            conditions(RuleTrigger::ChatMessage),
            ActionId::new(1),
        )
        .unwrap();
    assert_eq!(rule.id, RuleId::new(1));

    let fetched = repo.get_by_id(RuleId::new(1)).unwrap().unwrap();
    assert_eq!(fetched.name, "chat-spin");
    assert_eq!(fetched.action_id, ActionId::new(1));
}

#[test]
fn inmemory_rules_list_returns_all() {
    let mut repo = InMemoryRuleRepository::new();
    repo.create("a", true, RuleTrigger::ChatMessage, conditions(RuleTrigger::ChatMessage), ActionId::new(1))
        .unwrap();
    repo.create(
        "b",
        false,
        RuleTrigger::RewardRedemption,
        conditions(RuleTrigger::RewardRedemption),
        ActionId::new(2),
    )
    .unwrap();
    assert_eq!(repo.list().unwrap().len(), 2);
}

#[test]
fn inmemory_rules_update_replaces_fields_and_touches_updated_at() {
    let mut repo = InMemoryRuleRepository::new();
    repo.create("a", true, RuleTrigger::ChatMessage, conditions(RuleTrigger::ChatMessage), ActionId::new(1))
        .unwrap();
    let original = repo.get_by_id(RuleId::new(1)).unwrap().unwrap();
    let updated = repo
        .update_at(
            Rule {
                name: "renamed".to_string(),
                enabled: false,
                ..original.clone()
            },
            original.updated_at + 1,
        )
        .unwrap()
        .unwrap();
    assert_eq!(updated.name, "renamed");
    assert!(!updated.enabled);
    assert_eq!(updated.created_at, original.created_at);
    assert!(updated.updated_at > original.updated_at);

    assert!(repo
        .update(Rule {
            id: RuleId::new(99),
            ..original
        })
        .unwrap()
        .is_none());
}

#[test]
fn inmemory_rules_delete_removes_entry() {
    let mut repo = InMemoryRuleRepository::new();
    repo.create("a", true, RuleTrigger::ChatMessage, conditions(RuleTrigger::ChatMessage), ActionId::new(1))
        .unwrap();
    assert!(repo.delete(RuleId::new(1)).unwrap());
    assert!(!repo.delete(RuleId::new(1)).unwrap());
    assert!(repo.get_by_id(RuleId::new(1)).unwrap().is_none());
}

#[test]
fn rewards_used_in_rules_are_found() {
    let mut repo = InMemoryRuleRepository::new();
    repo.create(
        "spin",
        true,
        RuleTrigger::RewardRedemption,
        RuleConditions::RewardRedemption(RewardConditions { reward_id: Some("r-1".to_string()) }),
        ActionId::new(1),
    )
    .unwrap();
    let rules = repo.list().unwrap();
    assert_eq!(rules[0].referenced_reward_id(), Some("r-1"));
    assert!(reward_used_in_rules(&rules, "r-1"));
    assert!(!reward_used_in_rules(&rules, "r-2"));
}

#[test]
fn inmemory_actions_create_and_get() {
    let mut repo = InMemoryActionRepository::new();
    let action = repo.create("reply", ActionKind::EnqueueRoulette, true).unwrap();
    assert_eq!(action.id, ActionId::new(1));
    let fetched = repo.get_by_id(ActionId::new(1)).unwrap().unwrap();
    assert_eq!(fetched.name, "reply");
    assert_eq!(fetched.kind, ActionKind::EnqueueRoulette);
}

#[test]
fn inmemory_actions_list_returns_all() {
    let mut repo = InMemoryActionRepository::new();
    repo.create("a", ActionKind::NoAction, true).unwrap();
    repo.create("b", ActionKind::EnqueueRoulette, false).unwrap();
    assert_eq!(repo.list().unwrap().len(), 2);
}

#[test]
fn inmemory_actions_update_replaces_fields_and_touches_updated_at() {
    let mut repo = InMemoryActionRepository::new();
    repo.create("a", ActionKind::NoAction, true).unwrap();
    let original = repo.get_by_id(ActionId::new(1)).unwrap().unwrap();
    let updated = repo
        .update_at(
            Action {
                name: "renamed".to_string(),
                enabled: false,
                ..original.clone()
            },
            original.updated_at + 1,
        )
        .unwrap()
        .unwrap();
    assert_eq!(updated.name, "renamed");
    assert!(!updated.enabled);
    assert_eq!(updated.created_at, original.created_at);
    assert!(updated.updated_at > original.updated_at);
    assert!(repo
        .update(Action {
            id: ActionId::new(99),
            ..original
        })
        .unwrap()
        .is_none());
}

#[test]
fn inmemory_actions_delete_removes_entry() {
    let mut repo = InMemoryActionRepository::new();
    repo.create("a", ActionKind::NoAction, true).unwrap();
    assert!(repo.delete(ActionId::new(1)).unwrap());
    assert!(!repo.delete(ActionId::new(1)).unwrap());
    assert!(repo.get_by_id(ActionId::new(1)).unwrap().is_none());
}

#[test]
fn create_bumps_lifecycle() {
    let mut service = ActionService::new(InMemoryActionRepository::new());
    assert_eq!(service.revision(), 0);
    service.create("reply", ActionKind::EnqueueRoulette, true).unwrap();
    assert_eq!(service.revision(), 1);
}

#[test]
fn get_missing_returns_none() {
    let service = ActionService::new(InMemoryActionRepository::new());
    assert!(service.get(ActionId::new(42)).unwrap().is_none());
}

#[test]
fn update_missing_is_not_found() {
    let mut service = ActionService::new(InMemoryActionRepository::new());
    let err = service.update(Action::noop(ActionId::new(42))).unwrap_err();
    assert!(matches!(err, ActionServiceError::ActionNotFound));
    assert_eq!(service.revision(), 0);
}

#[test]
fn delete_missing_is_not_found() {
    let mut service = ActionService::new(InMemoryActionRepository::new());
    let err = service.delete(ActionId::new(42)).unwrap_err();
    assert!(matches!(err, ActionServiceError::ActionNotFound));
}

#[test]
fn delete_removes_and_bumps() {
    let mut service = ActionService::new(InMemoryActionRepository::new());
    let action = service.create("x", ActionKind::NoAction, true).unwrap();
    service.delete(action.id).unwrap();
    assert_eq!(service.revision(), 2);
    assert!(service.get(action.id).unwrap().is_none());
}

fn session(token: &str, user: &str, expires_at: i64) -> Session {
    Session {
        token: SessionToken::new(token),
        twitch_user_id: user.to_string(),
        twitch_user_name: None,
        created_at: 0,
        expires_at,
    }
}

#[test]
fn session_roundtrip() {
    let mut repo = InMemorySessionRepository::new();
    let s = Session {
        token: SessionToken::new("tok"),
        twitch_user_id: "123".to_string(),
        twitch_user_name: Some("sapushka_".to_string()),
        created_at: 0,
        expires_at: 3_600_000_000,
    };
    repo.save_session(&s).unwrap();

    let fetched = repo.get_session(&s.token).unwrap().unwrap();
    assert_eq!(fetched.twitch_user_id, "123");

    assert!(repo.delete_session(&s.token).unwrap());
    assert!(!repo.delete_session(&s.token).unwrap());
}

#[test]
fn ticket_take_is_destructive() {
    let mut repo = InMemorySessionRepository::new();
    let ticket = LoginTicket {
        ticket: LoginTicketToken::new("tic"),
        twitch_user_id: "123".to_string(),
        twitch_user_name: None,
        created_at: 0,
        expires_at: 600_000_000,
    };
    repo.save_ticket(&ticket).unwrap();

    let taken = repo.take_ticket(&ticket.ticket).unwrap().unwrap();
    assert_eq!(taken.twitch_user_id, "123");
    assert!(repo.take_ticket(&ticket.ticket).unwrap().is_none());
}

#[test]
fn purge_removes_only_expired() {
    let mut repo = InMemorySessionRepository::new();
    let now = 1_000_000;
    let stale = session("stale", "1", now - 1_000_000);
    let fresh = session("fresh", "2", now + 1_000_000);
    repo.save_session(&stale).unwrap();
    repo.save_session(&fresh).unwrap();

    assert_eq!(repo.purge_expired_sessions(now).unwrap(), 1);
    assert!(repo.get_session(&stale.token).unwrap().is_none());
    assert!(repo.get_session(&fresh.token).unwrap().is_some());
}

#[test]
fn save_session_replaces_same_token() {
    let mut repo = InMemorySessionRepository::new();
    repo.save_session(&session("t", "1", 10)).unwrap();
    repo.save_session(&session("t", "2", 10)).unwrap();
    assert_eq!(repo.purge_expired_sessions(0).unwrap(), 0);
    let fetched = repo.get_session(&SessionToken::new("t")).unwrap().unwrap();
    assert_eq!(fetched.twitch_user_id, "2");
    assert_eq!(repo.purge_expired_sessions(10).unwrap(), 1);
}

struct Fixture {
    executor: ActionExecutor,
    queue: InMemoryQueueRepository,
    users: InMemoryUserRepository,
}

impl Fixture {
    fn run(&mut self, event: &ActionEvent) -> Result<Option<sapa_backend::executor::ChatReply>, ExecutorError> {
        self.executor.execute(&mut self.queue, &mut self.users, event)
    }
}

fn executor(chat: bool) -> Fixture {
    let twitch = Arc::new(TwitchConfig {
        client_id: "cid".to_string(),
        client_secret: "cs".to_string(),
        broadcaster_id: "bc".to_string(),
        redirect_uri: "https://localhost/cb".to_string(),
        credentials_redirect_uri: "https://localhost/creds/cb".to_string(),
        csrf_ttl_secs: 600,
    });
    Fixture {
        executor: ActionExecutor::new(chat, if chat { Some(twitch) } else { None }),
        queue: InMemoryQueueRepository::new(),
        users: InMemoryUserRepository::new(),
    }
}

fn action_event(kind: ActionKind, event_id: &str, user_id: &str, user_name: &str) -> ActionEvent {
    ActionEvent::from_action(
        Arc::new(Action {
            id: ActionId::new(1),
            name: "test".to_string(),
            kind,
            enabled: true,
            created_at: 0,
            updated_at: 0,
        }),
        Arc::new(PlatformEvent::chat_message(
            PlatformId::twitch(),
            event_id,
            user_id.to_string(),
            user_name.to_string(),
            "hello".to_string(),
        )),
    )
}

#[test]
fn no_action_enqueues_nothing() {
    let mut ex = executor(true);
    assert!(ex.run(&action_event(ActionKind::NoAction, "msg-0", "1", "viewer")).unwrap().is_none());
    assert_eq!(ex.queue.count_by_status().unwrap().pending, 0);
}

#[test]
fn enqueue_roulette_creates_user_and_enqueues() {
    let mut ex = executor(true);
    ex.run(&action_event(ActionKind::EnqueueRoulette, "msg-1", "1", "viewer")).unwrap();
    assert_eq!(ex.queue.count_by_status().unwrap().pending, 1);
    let user = ex
        .users
        .find_by_platform(PlatformId::twitch(), "1")
        .unwrap()
        .expect("user created");
    assert_eq!(user.display_name, "viewer");
}

#[test]
fn enqueue_roulette_reuses_existing_user() {
    let mut ex = executor(true);
    let existing = ex.users.create("viewer").unwrap();
    ex.users.link_platform(existing.id, PlatformId::twitch(), "1", "viewer").unwrap();
    ex.run(&action_event(ActionKind::EnqueueRoulette, "msg-2", "1", "viewer")).unwrap();
    let user = ex.users.find_by_platform(PlatformId::twitch(), "1").unwrap().unwrap();
    assert_eq!(user.id, existing.id);
    let entries = ex.queue.list(None, None, 10).unwrap();
    assert_eq!(entries[0].user_id, existing.id);
}

#[test]
fn chat_reply_without_twitch_config_keeps_task_alive() {
    let mut ex = executor(false);
    let err = ex
        .run(&action_event(
            ActionKind::ChatReply { message_template: "hi {username}".to_string() },
            "msg-6",
            "1",
            "viewer",
        ))
        .unwrap_err();
    assert!(matches!(err, ExecutorError::Chat(ref m) if m == "twitch is not configured"));
    ex.run(&action_event(ActionKind::EnqueueRoulette, "msg-7", "1", "viewer")).unwrap();
    assert_eq!(ex.queue.count_by_status().unwrap().pending, 1);
}

#[test]
fn enqueue_works_without_twitch_config() {
    let mut ex = executor(false);
    ex.run(&action_event(ActionKind::EnqueueRoulette, "msg-5", "1", "viewer")).unwrap();
    assert_eq!(ex.queue.count_by_status().unwrap().pending, 1);
}

#[test]
fn chat_reply_is_rendered_for_the_broadcaster() {
    let mut ex = executor(true);
    let reply = ex
        .run(&action_event(
            ActionKind::ChatReply { message_template: "hi {username}".to_string() },
            "msg-3",
            "1",
            "viewer",
        ))
        .unwrap()
        .expect("reply");
    assert_eq!(reply.message, "hi viewer");
    assert_eq!(reply.broadcaster_id, "bc");
}

#[test]
fn cookie_value_reads_first_named_piece() {
    assert_eq!(cookie_value("a=1; sapa_session=tok; b=2", "sapa_session").as_deref(), Some("tok"));
    assert_eq!(cookie_value("sapa_session=; sapa_session=x", "sapa_session"), None);
    assert_eq!(cookie_value("x=1", "sapa_session"), None);
    assert_eq!(cookie_value("  k=v=w  ", "k").as_deref(), Some("v=w"));
    assert_eq!(cookie_value("", "k"), None);
}

#[test]
fn widget_token_check() {
    assert!(widget_token_matches("secret", "secret"));
    assert!(!widget_token_matches("secret", "secre"));
    assert!(!widget_token_matches("", "secret"));
}

#[test]
fn user_platforms_get_names() {
    let mut users = InMemoryUserRepository::new();
    let user = users.create("Viewer").unwrap();
    users.link_platform(user.id, PlatformId::youtube(), "y1", "yt").unwrap();
    users.link_platform(user.id, PlatformId(9), "z", "zz").unwrap();
    let platforms = InMemoryPlatformRepository::new_seeded().load_all().unwrap();
    let resolved = resolve_user_platforms(users.get_platforms(user.id).unwrap(), &platforms);
    assert_eq!(resolved.len(), 2);
    assert_eq!(resolved[0].platform, "youtube");
    assert_eq!(resolved[0].platform_user_id, "y1");
    assert_eq!(resolved[1].platform, "");
}

#[test]
fn api_error_mapping() {
    let e = ApiError::from_repository(RepositoryError::Conflict("dup".to_string()));
    assert_eq!(e.status, 409);
    assert_eq!(e.body.error, "dup");
    let e = ApiError::from_queue(QueueServiceError::NotCancellable);
    assert_eq!(e.status, 409);
    assert_eq!(e.body.error, "only pending or error entries can be cancelled");
    let e = ApiError::from_action(ActionServiceError::ActionNotFound);
    assert_eq!(e.status, 404);
    assert_eq!(
        RepositoryError::Database("x".to_string()).message(),
        "database error: x"
    );
}

use sapa_backend::ws::{handle_message, ClientMessage, ServerMessage, WsConnection, WsInput, WsOutput, WsPhase};
use sapa_backend::queue::{DequeueOutcome, QueueStatus};
use sapa_backend::ids::{QueueEntryId, RouletteSlotId, UserId};

fn spinning_queue() -> (InMemoryQueueRepository, QueueEntryId) {
    let mut queue = InMemoryQueueRepository::new();
    let entry = queue.enqueue(UserId::new(1), "viewer").unwrap();
    assert!(matches!(
        queue.dequeue_next_with_slot(RouletteSlotId::new(1)).unwrap(),
        DequeueOutcome::Picked(_)
    ));
    (queue, entry.id)
}

#[test]
fn auth_handshake_validates_token() {
    let mut queue = InMemoryQueueRepository::new();
    let mut conn = WsConnection::new();
    let out = conn.step("key", &mut queue, WsInput::Client(Some(ClientMessage::Auth { token: "wrong".to_string() })));
    assert!(matches!(out, WsOutput::ReplyAndClose(ServerMessage::AuthErr)));
    assert_eq!(conn.phase(), WsPhase::Closed);

    let mut conn = WsConnection::new();
    let out = conn.step("key", &mut queue, WsInput::Client(Some(ClientMessage::Auth { token: "key".to_string() })));
    assert!(matches!(out, WsOutput::Reply(ServerMessage::AuthOk)));
    assert_eq!(conn.phase(), WsPhase::Streaming);
    let out = conn.step("key", &mut queue, WsInput::Broadcast("{\"type\":\"x\"}".to_string()));
    assert!(matches!(out, WsOutput::Forward(ref j) if j == "{\"type\":\"x\"}"));
    assert!(matches!(conn.step("key", &mut queue, WsInput::Client(None)), WsOutput::Nothing));
    assert!(matches!(conn.step("key", &mut queue, WsInput::ClientGone), WsOutput::Close));
    assert!(matches!(conn.step("key", &mut queue, WsInput::Broadcast(String::new())), WsOutput::Close));
}

#[test]
fn unreadable_first_message_closes() {
    let mut queue = InMemoryQueueRepository::new();
    let mut conn = WsConnection::new();
    assert!(matches!(conn.step("key", &mut queue, WsInput::Client(None)), WsOutput::Close));
    assert_eq!(conn.phase(), WsPhase::Closed);
}

#[test]
fn ws_and_rest_complete_are_equivalent() {
    let (mut queue, id) = spinning_queue();
    match handle_message("key", &mut queue, ClientMessage::Complete { entry_id: id }) {
        ServerMessage::CompleteOk { entry_id } => assert_eq!(entry_id, id),
        other => panic!("unexpected {other:?}"),
    }
    assert_eq!(queue.get_by_id(id).unwrap().unwrap().status, QueueStatus::Completed);

    let (mut queue, id) = spinning_queue();
    let done = queue.complete(id).unwrap();
    assert_eq!(done.status, QueueStatus::Completed);

    match handle_message("key", &mut queue, ClientMessage::Complete { entry_id: id }) {
        ServerMessage::CompleteErr { entry_id, error } => {
            assert_eq!(entry_id, id);
            assert_eq!(error, "entry is not in spinning state");
        }
        other => panic!("unexpected {other:?}"),
    }
    match handle_message("key", &mut queue, ClientMessage::Complete { entry_id: QueueEntryId::new(99) }) {
        ServerMessage::CompleteErr { error, .. } => assert_eq!(error, "queue entry not found"),
        other => panic!("unexpected {other:?}"),
    }
}

#[test]
fn cancel_only_pending_or_error() {
    let (mut queue, spinning) = spinning_queue();
    assert!(matches!(queue.cancel(spinning), Err(QueueServiceError::NotCancellable)));
    let pending = queue.enqueue(UserId::new(2), "other").unwrap();
    assert_eq!(queue.cancel(pending.id).unwrap().status, QueueStatus::Cancelled);
    assert!(matches!(queue.cancel(QueueEntryId::new(42)), Err(QueueServiceError::NotFound)));
}

#[test]
fn session_validation_tells_missing_from_expired() {
    let mut repo = InMemorySessionRepository::new();
    repo.save_session(&session("live", "1", 100)).unwrap();
    assert_eq!(repo.validate_session_at("live", 99).unwrap().twitch_user_id, "1");
    assert!(matches!(
        repo.validate_session_at("live", 100),
        Err(SessionServiceError::SessionExpired)
    ));
    assert!(matches!(
        repo.validate_session_at("other", 0),
        Err(SessionServiceError::SessionNotFound)
    ));
}

#[test]
fn access_check_statuses() {
    let mut admins = AdminService::new(InMemoryAdminRepository::new());
    admins.seed("100").unwrap();
    admins.add("200", None).unwrap();
    assert_eq!(check_access(&admins, true, None, Role::Root), None);
    assert_eq!(check_access(&admins, false, None, Role::Admin), Some(401));
    assert_eq!(check_access(&admins, false, Some("300"), Role::Admin), Some(403));
    assert_eq!(check_access(&admins, false, Some("200"), Role::Admin), None);
    assert_eq!(check_access(&admins, false, Some("200"), Role::Root), Some(403));
    assert_eq!(check_access(&admins, false, Some("100"), Role::Root), None);
}

#[test]
fn spin_completed_frame() {
    let frame = spin_event_to_sse(&SpinEvent::Completed { entry_id: QueueEntryId::new(5) });
    assert_eq!(frame.event, "spin_completed");
    assert_eq!(frame.data, "{\"entry_id\":5}");
}

#[test]
fn spin_error_frame() {
    let frame = spin_event_to_sse(&SpinEvent::Error { entry_id: QueueEntryId::new(1234) });
    assert_eq!(frame.event, "spin_error");
    assert_eq!(frame.data, "{\"entry_id\":1234}");
}

#[test]
fn spin_started_frame_escapes_strings() {
    let frame = spin_event_to_sse(&SpinEvent::Started {
        entry_id: QueueEntryId::new(7),
        slot_name: "Gold \"x\"".to_string(),
        slot_rarity: "rare".to_string(),
        user_name: "bob".to_string(),
    });
    assert_eq!(frame.event, "spin_started");
    assert_eq!(
        frame.data,
        "{\"entry_id\":7,\"slot_name\":\"Gold \\\"x\\\"\",\"slot_rarity\":\"rare\",\"user_name\":\"bob\"}"
    );
}

fn rule_setup() -> (RuleService, ActionService, u32) {
    let mut actions = ActionService::new(InMemoryActionRepository::new());
    let action = actions.create("spin", ActionKind::EnqueueRoulette, true).unwrap();
    (RuleService::new(InMemoryRuleRepository::new()), actions, action.id.0)
}

#[test]
fn rule_service_creates_valid_rule() {
    let (mut rules, actions, action_id) = rule_setup();
    let rule = rules
        .create(&actions, "spin-rule", true, RuleTrigger::ChatMessage, conditions(RuleTrigger::ChatMessage), ActionId::new(action_id))
        .unwrap();
    assert_eq!(rule.id.0, 1);
    assert_eq!(rule.name, "spin-rule");
    assert_eq!(rules.list().unwrap().len(), 1);
}

#[test]
fn rule_service_requires_pattern() {
    let (mut rules, actions, action_id) = rule_setup();
    let conds = RuleConditions::ChatMessage(MessageConditions { matcher: MessageMatcher::Equals, pattern: None });
    let err = rules
        .create(&actions, "spin", true, RuleTrigger::ChatMessage, conds, ActionId::new(action_id))
        .unwrap_err();
    assert!(matches!(err, RuleServiceError::MissingPattern(ref m) if m == "equals"));
    assert_eq!(err.message(), "pattern is required for matcher equals");
    assert_eq!(ApiError::from_rule(err).status, 400);
    assert!(rules.list().unwrap().is_empty());
}

#[test]
fn rule_service_any_matcher_needs_no_pattern() {
    let (mut rules, actions, action_id) = rule_setup();
    let conds = RuleConditions::ChatMessage(MessageConditions { matcher: MessageMatcher::Any, pattern: None });
    assert!(rules
        .create(&actions, "all", true, RuleTrigger::ChatMessage, conds, ActionId::new(action_id))
        .is_ok());
}

#[test]
fn rule_service_rejects_unknown_action() {
    let (mut rules, actions, _) = rule_setup();
    let err = rules
        .create(&actions, "spin", true, RuleTrigger::ChatMessage, conditions(RuleTrigger::ChatMessage), ActionId::new(999))
        .unwrap_err();
    assert!(matches!(err, RuleServiceError::ActionNotFound));
    assert_eq!(ApiError::from_rule(err).status, 400);
    assert!(rules.list().unwrap().is_empty());
}

#[test]
fn rule_service_update_and_delete() {
    let (mut rules, actions, action_id) = rule_setup();
    let mut rule = rules
        .create(&actions, "spin-rule", true, RuleTrigger::ChatMessage, conditions(RuleTrigger::ChatMessage), ActionId::new(action_id))
        .unwrap();
    rule.name = "renamed".to_string();
    rule.enabled = false;
    let updated = rules.update(&actions, rule.clone()).unwrap();
    assert_eq!(updated.name, "renamed");
    assert!(!updated.enabled);
    assert_eq!(rules.get(rule.id).unwrap().unwrap().name, "renamed");
    rules.delete(rule.id).unwrap();
    assert!(rules.get(rule.id).unwrap().is_none());
}

#[test]
fn rule_service_missing_rule_is_not_found() {
    let (mut rules, actions, action_id) = rule_setup();
    let rule = Rule {
        id: RuleId::new(999),
        name: "ghost".to_string(),
        enabled: true,
        trigger: RuleTrigger::ChatMessage,
        conditions: conditions(RuleTrigger::ChatMessage),
        action_id: ActionId::new(action_id),
        created_at: 0,
        updated_at: 0,
    };
    assert!(matches!(rules.update(&actions, rule), Err(RuleServiceError::RuleNotFound)));
    let err = rules.delete(RuleId::new(999)).unwrap_err();
    assert!(matches!(err, RuleServiceError::RuleNotFound));
    assert_eq!(ApiError::from_rule(err).status, 404);
}

fn user_service() -> UserService {
    UserService::new(InMemoryUserRepository::new(), InMemoryPlatformRepository::new_seeded())
}

#[test]
fn user_service_full_flow_new_viewer() {
    let mut svc = user_service();
    assert!(svc.find_by_platform("twitch", "123").unwrap().is_none());
    let user = svc.create("Viewer").unwrap();
    assert_eq!(user.display_name, "Viewer");
    svc.link_platform(user.id, "twitch", "123", "tw_user").unwrap();
    let found = svc.find_by_platform("twitch", "123").unwrap().unwrap();
    assert_eq!(found.id, user.id);
    let links = svc.get_platforms(user.id).unwrap();
    assert_eq!(links.len(), 1);
    let all = svc.list_platforms().unwrap();
    assert_eq!(all.len(), 3);
    let resolved = resolve_user_platforms(links, &all);
    assert_eq!(resolved[0].platform, "twitch");
}

#[test]
fn user_service_unknown_platform_is_bad_request() {
    let mut svc = user_service();
    let user = svc.create("Viewer").unwrap();
    let err = svc.find_by_platform("unknown", "123").unwrap_err();
    assert!(matches!(err, UserServiceError::UnknownPlatform(ref p) if p == "unknown"));
    assert_eq!(err.message(), "unknown platform: unknown");
    assert_eq!(ApiError::from_user(err).status, 400);
    let err = svc.link_platform(user.id, "unknown", "123", "u").unwrap_err();
    assert_eq!(ApiError::from_user(err).status, 400);
    let err = svc.delete_platform(user.id, "unknown").unwrap_err();
    assert_eq!(ApiError::from_user(err).status, 400);
}

#[test]
fn user_service_update_and_delete_links() {
    let mut svc = user_service();
    let user = svc.create("Viewer").unwrap();
    let err = svc.update_platform_username(user.id, "twitch", "new_name").unwrap_err();
    assert!(matches!(err, UserServiceError::PlatformLinkNotFound));
    assert_eq!(ApiError::from_user(err).status, 404);
    svc.link_platform(user.id, "twitch", "123", "old").unwrap();
    let l = svc.update_platform_username(user.id, "twitch", "new_name").unwrap();
    assert_eq!(l.platform_username, "new_name");
    svc.delete_platform(user.id, "twitch").unwrap();
    assert!(svc.get_platforms(user.id).unwrap().is_empty());
    assert!(matches!(svc.delete_platform(user.id, "twitch"), Err(UserServiceError::PlatformLinkNotFound)));
}

#[test]
fn user_service_update_and_delete_user() {
    let mut svc = user_service();
    assert!(matches!(svc.update_user(UserId::new(9), "x"), Err(UserServiceError::UserNotFound)));
    let user = svc.create("Viewer").unwrap();
    assert_eq!(svc.update_user(user.id, "NewName").unwrap().display_name, "NewName");
    svc.delete_user(user.id).unwrap();
    assert!(svc.get_user(user.id).unwrap().is_none());
    assert!(matches!(svc.delete_user(user.id), Err(UserServiceError::UserNotFound)));
}

#[test]
fn user_response_resolves_platform_names() {
    let mut svc = user_service();
    assert!(matches!(svc.user_response(UserId::new(1)), Err(UserServiceError::UserNotFound)));
    let user = svc.create("Viewer").unwrap();
    svc.link_platform(user.id, "youtube", "yt1", "yt_user").unwrap();
    let resp = svc.user_response(user.id).unwrap();
    assert_eq!(resp.id, user.id);
    assert_eq!(resp.display_name, "Viewer");
    assert_eq!(resp.platforms.len(), 1);
    assert_eq!(resp.platforms[0].platform, "youtube");
    assert_eq!(resp.platforms[0].platform_username, "yt_user");
    assert!(!resp.created_at.is_empty());
}

#[test]
fn guest_user_is_reused() {
    let mut svc = user_service();
    let first = svc.guest_user_id().unwrap();
    let second = svc.guest_user_id().unwrap();
    assert_eq!(first, second);
    assert_eq!(svc.get_user(first).unwrap().unwrap().display_name, "Guest");
    svc.delete_user(first).unwrap();
    let third = svc.guest_user_id().unwrap();
    assert_ne!(third, first);
}

fn slot(name: &str, rarity: u32, weight: u64) -> RouletteSlot {
    RouletteSlot::new(RouletteSlotId::new(0), name, RarityId::new(rarity), weight, "act")
}

fn one_rarity() -> InMemoryRarityRepository {
    InMemoryRarityRepository::seed(vec![Rarity::new(RarityId::new(1), "common", "Common", "c.png", "#fff")])
}

#[test]
fn pick_slot_by_weight() {
    let slots = vec![slot("a", 1, 10), slot("b", 1, 0), slot("c", 1, 5)];
    assert_eq!(pick_slot(&slots, 0), Some(0));
    assert_eq!(pick_slot(&slots, 9), Some(0));
    assert_eq!(pick_slot(&slots, 10), Some(2));
    assert_eq!(pick_slot(&slots, 14), Some(2));
    assert_eq!(pick_slot(&slots, 15), Some(0));
    assert_eq!(pick_slot(&slots, 27), Some(2));
    assert_eq!(pick_slot(&vec![slot("z", 1, 0)], 3), None);
    assert_eq!(pick_slot(&Vec::new(), 3), None);
    let heavy = vec![slot("x", 1, u64::MAX), slot("y", 1, u64::MAX)];
    assert_eq!(pick_slot(&heavy, u64::MAX), Some(1));
}

#[test]
fn dequeue_next_without_slots_leaves_entry_pending() {
    let mut queue = InMemoryQueueRepository::new();
    let entry = queue.enqueue(UserId::new(1), "user1").unwrap();
    let slots = InMemoryRouletteSlotRepository::new();
    let err = dequeue_next(&mut queue, &slots, &one_rarity()).unwrap_err();
    assert!(matches!(err, QueueServiceError::NoSlots));
    assert_eq!(ApiError::from_queue(err).status, 422);
    assert_eq!(queue.get_by_id(entry.id).unwrap().unwrap().status, QueueStatus::Pending);
}

#[test]
fn dequeue_next_starts_spin_and_announces_it() {
    let mut queue = InMemoryQueueRepository::new();
    let entry = queue.enqueue(UserId::new(1), "user1").unwrap();
    let slots = InMemoryRouletteSlotRepository::seed(vec![slot("test_slot", 1, 100)]);
    let (spun, chosen, event) = dequeue_next_with_roll(&mut queue, &slots, &one_rarity(), 42).unwrap();
    assert_eq!(spun.id, entry.id);
    assert_eq!(spun.status, QueueStatus::Spinning);
    assert_eq!(spun.result_slot_id, Some(chosen.id));
    assert_eq!(chosen.name, "test_slot");
    match event {
        SpinEvent::Started { entry_id, slot_name, slot_rarity, user_name } => {
            assert_eq!(entry_id, entry.id);
            assert_eq!(slot_name, "test_slot");
            assert_eq!(slot_rarity, "common");
            assert_eq!(user_name, "user1");
        }
        _ => panic!("expected a started event"),
    }
    let err = dequeue_next_with_roll(&mut queue, &slots, &one_rarity(), 7).unwrap_err();
    assert!(matches!(err, QueueServiceError::AlreadyActive));
    assert_eq!(ApiError::from_queue(err).status, 409);
}

#[test]
fn dequeue_next_retries_errored_entry() {
    let mut queue = InMemoryQueueRepository::new();
    let entry = queue.enqueue(UserId::new(1), "user1").unwrap();
    let slots = InMemoryRouletteSlotRepository::seed(vec![slot("test_slot", 1, 100)]);
    dequeue_next(&mut queue, &slots, &one_rarity()).unwrap();
    queue.mark_timed_out(i64::MAX).unwrap();
    assert_eq!(queue.get_by_id(entry.id).unwrap().unwrap().status, QueueStatus::Error);
    let (again, _, _) = dequeue_next(&mut queue, &slots, &one_rarity()).unwrap();
    assert_eq!(again.id, entry.id);
    assert_eq!(again.status, QueueStatus::Spinning);
}

#[test]
fn dequeue_next_on_empty_queue_and_unknown_rarity() {
    let mut queue = InMemoryQueueRepository::new();
    let slots = InMemoryRouletteSlotRepository::seed(vec![slot("test_slot", 1, 100)]);
    let err = dequeue_next(&mut queue, &slots, &one_rarity()).unwrap_err();
    assert!(matches!(err, QueueServiceError::QueueEmpty));
    assert_eq!(ApiError::from_queue(err).status, 404);
    let entry = queue.enqueue(UserId::new(1), "user1").unwrap();
    let orphan_slots = InMemoryRouletteSlotRepository::seed(vec![slot("lost", 9, 100)]);
    let err = dequeue_next(&mut queue, &orphan_slots, &one_rarity()).unwrap_err();
    assert!(matches!(err, QueueServiceError::RarityNotFound));
    assert_eq!(queue.get_by_id(entry.id).unwrap().unwrap().status, QueueStatus::Pending);
}

#[test]
fn login_ticket_opens_one_session() {
    let mut repo = InMemorySessionRepository::new();
    let mut admins = AdminService::new(InMemoryAdminRepository::new());
    admins.seed("100").unwrap();
    let t = create_login_ticket_at(&mut repo, "tick", "100", Some("viewer"), 1_000).unwrap();
    assert_eq!(t.expires_at, 1_000 + 600 * 1_000_000);
    let (session, root) = login_at(&mut repo, &admins, Some("tick"), "tick", "sess", 3600, 2_000).unwrap();
    assert!(root);
    assert_eq!(session.token.as_str(), "sess");
    assert_eq!(session.twitch_user_id, "100");
    assert_eq!(session.twitch_user_name.as_deref(), Some("viewer"));
    assert_eq!(session.expires_at, 2_000 + 3600 * 1_000_000);
    assert!(repo.validate_session_at("sess", 3_000).is_ok());
    let err = login_at(&mut repo, &admins, Some("tick"), "tick", "sess2", 3600, 2_500).unwrap_err();
    assert!(matches!(err, SessionServiceError::InvalidTicket));
    assert_eq!(ApiError::from_session(err).status, 400);
}

#[test]
fn login_needs_matching_unexpired_ticket() {
    let mut repo = InMemorySessionRepository::new();
    let admins = AdminService::new(InMemoryAdminRepository::new());
    create_login_ticket_at(&mut repo, "tick", "999", None, 0).unwrap();
    assert!(matches!(
        login_at(&mut repo, &admins, None, "tick", "s", 60, 1),
        Err(SessionServiceError::InvalidTicket)
    ));
    assert!(matches!(
        login_at(&mut repo, &admins, Some("other"), "tick", "s", 60, 1),
        Err(SessionServiceError::InvalidTicket)
    ));
    let (_, root) = login_at(&mut repo, &admins, Some("tick"), "tick", "s", 60, 1).unwrap();
    assert!(!root);
    create_login_ticket_at(&mut repo, "late", "999", None, 0).unwrap();
    assert!(matches!(
        login_at(&mut repo, &admins, Some("late"), "late", "s2", 60, 600 * 1_000_000),
        Err(SessionServiceError::InvalidTicket)
    ));
}

#[test]
fn logout_destroys_session() {
    let mut repo = InMemorySessionRepository::new();
    let admins = AdminService::new(InMemoryAdminRepository::new());
    create_login_ticket_at(&mut repo, "tick", "123", None, 0).unwrap();
    login_at(&mut repo, &admins, Some("tick"), "tick", "sess", 60, 1).unwrap();
    logout(&mut repo, "sess").unwrap();
    assert!(matches!(repo.validate_session_at("sess", 2), Err(SessionServiceError::SessionNotFound)));
    let err = logout(&mut repo, "sess").unwrap_err();
    assert!(matches!(err, SessionServiceError::SessionNotFound));
    assert_eq!(ApiError::from_session(err).status, 401);
}

#[test]
fn rewards_marked_when_a_rule_uses_them() {
    let rules = vec![Rule {
        id: RuleId::new(1),
        name: "redeem".to_string(),
        enabled: true,
        trigger: RuleTrigger::RewardRedemption,
        conditions: RuleConditions::RewardRedemption(RewardConditions { reward_id: Some("r2".to_string()) }),
        action_id: ActionId::new(1),
        created_at: 0,
        updated_at: 0,
    }];
    let rewards = vec![
        CustomReward { id: "r1".to_string(), title: "Hydrate".to_string(), cost: 100, is_enabled: true, is_paused: false },
        CustomReward { id: "r2".to_string(), title: "Spin".to_string(), cost: 500, is_enabled: false, is_paused: true },
    ];
    let out = reward_responses(&rewards, &rules);
    assert_eq!(out.len(), 2);
    assert_eq!(out[0].id, "r1");
    assert!(!out[0].used_in_rules);
    assert_eq!(out[1].title, "Spin");
    assert_eq!(out[1].cost, 500);
    assert!(!out[1].is_enabled);
    assert!(out[1].is_paused);
    assert!(out[1].used_in_rules);
}

#[test]
fn spin_started_frame_escapes_control_characters() {
    let frame = spin_event_to_sse(&SpinEvent::Started {
        entry_id: QueueEntryId::new(3),
        slot_name: "a\nb".to_string(),
        slot_rarity: "\u{1}\\".to_string(),
        user_name: "é".to_string(),
    });
    assert_eq!(
        frame.data,
        "{\"entry_id\":3,\"slot_name\":\"a\\nb\",\"slot_rarity\":\"\\u0001\\\\\",\"user_name\":\"é\"}"
    );
}
