use sapa_backend::action::ActionKind;
use sapa_backend::action_store::{ActionService, InMemoryActionRepository};
use sapa_backend::admin::{AdminService, InMemoryAdminRepository};
use sapa_backend::api::admin::{list_rewards, remove_admin, CustomReward};
use sapa_backend::catalog::{InMemoryRarityRepository, InMemoryRouletteSlotRepository, Rarity, RouletteSlot};
use sapa_backend::error::{AdminServiceError, ApiError, QueueServiceError, RuleServiceError, SessionServiceError, UserServiceError};
use sapa_backend::ids::{ActionId, QueueEntryId, RarityId, RouletteSlotId, RuleId, UserId};
use sapa_backend::queue::{InMemoryQueueRepository, QueueStatus};
use sapa_backend::roulette::dequeue_next;
use sapa_backend::rule_service::RuleService;
use sapa_backend::rules::{InMemoryRuleRepository, MessageConditions, MessageMatcher, Rule, RuleConditions, RuleTrigger};
use sapa_backend::session::InMemorySessionRepository;
use sapa_backend::session_service::{create_login_ticket_at, login_at};
use sapa_backend::store::{ConfigStore, ConfigRepository, InMemoryConfigRepository};
use sapa_backend::config::{RuntimeConfig, StaticConfig};
use sapa_backend::user::{InMemoryPlatformRepository, InMemoryUserRepository};
use sapa_backend::user_service::UserService;

fn users() -> UserService {
    UserService::new(InMemoryUserRepository::new(), InMemoryPlatformRepository::new_seeded())
}

fn user_status(e: UserServiceError) -> u16 {
    ApiError::from_user(e).status
}

#[test]
fn create_user_201() {
    let mut svc = users();
    let user = svc.create("Viewer").unwrap();
    let body = svc.user_response(user.id).unwrap();
    assert_eq!(body.display_name, "Viewer");
    assert_eq!(body.id, user.id);
    assert!(!body.created_at.is_empty());
}

#[test]
fn find_user_by_platform_200() {
    let mut svc = users();
    let user = svc.create("Viewer").unwrap();
    svc.link_platform(user.id, "twitch", "123", "twitch_user").unwrap();
    let found = svc.find_by_platform("twitch", "123").unwrap().unwrap();
    assert_eq!(svc.user_response(found.id).unwrap().display_name, "Viewer");
}

#[test]
fn find_user_by_platform_404() {
    let svc = users();
    assert!(svc.find_by_platform("twitch", "nonexistent").unwrap().is_none());
}

#[test]
fn find_user_unknown_platform_400() {
    let svc = users();
    let err = svc.find_by_platform("unknown", "123").unwrap_err();
    assert_eq!(user_status(err), 400);
}

#[test]
fn get_user_200() {
    let mut svc = users();
    let user = svc.create("Viewer").unwrap();
    assert_eq!(svc.user_response(user.id).unwrap().display_name, "Viewer");
}

#[test]
fn get_user_404() {
    let svc = users();
    let err = svc.user_response(UserId::new(999)).unwrap_err();
    assert_eq!(user_status(err), 404);
}

#[test]
fn update_user_200() {
    let mut svc = users();
    let user = svc.create("Viewer").unwrap();
    svc.update_user(user.id, "NewName").unwrap();
    assert_eq!(svc.user_response(user.id).unwrap().display_name, "NewName");
}

#[test]
fn update_user_404() {
    let mut svc = users();
    let err = svc.update_user(UserId::new(999), "NewName").unwrap_err();
    assert_eq!(user_status(err), 404);
}

#[test]
fn delete_user_204() {
    let mut svc = users();
    let user = svc.create("Viewer").unwrap();
    svc.delete_user(user.id).unwrap();
    assert!(svc.get_user(user.id).unwrap().is_none());
}

#[test]
fn delete_user_404() {
    let mut svc = users();
    let err = svc.delete_user(UserId::new(999)).unwrap_err();
    assert_eq!(user_status(err), 404);
}

#[test]
fn link_platform_200() {
    let mut svc = users();
    let user = svc.create("Viewer").unwrap();
    svc.link_platform(user.id, "twitch", "123", "tw_user").unwrap();
    let body = svc.user_response(user.id).unwrap();
    assert_eq!(body.platforms.len(), 1);
    assert_eq!(body.platforms[0].platform, "twitch");
}

#[test]
fn link_platform_404_nonexistent_user() {
    let mut svc = users();
    let err = svc.link_platform(UserId::new(999), "twitch", "123", "u").unwrap_err();
    assert_eq!(user_status(err), 404);
}

#[test]
fn link_platform_409_duplicate() {
    let mut svc = users();
    let user = svc.create("A").unwrap();
    svc.link_platform(user.id, "twitch", "123", "user").unwrap();
    let err = svc.link_platform(user.id, "twitch", "123", "other").unwrap_err();
    assert_eq!(user_status(err), 409);
}

#[test]
fn link_platform_400_unknown_platform() {
    let mut svc = users();
    let user = svc.create("Viewer").unwrap();
    let err = svc.link_platform(user.id, "unknown", "123", "u").unwrap_err();
    assert_eq!(user_status(err), 400);
}

#[test]
fn update_platform_username_200() {
    let mut svc = users();
    let user = svc.create("Viewer").unwrap();
    svc.link_platform(user.id, "twitch", "123", "old_name").unwrap();
    svc.update_platform_username(user.id, "twitch", "new_name").unwrap();
    let body = svc.user_response(user.id).unwrap();
    assert_eq!(body.platforms[0].platform_username, "new_name");
}

#[test]
fn update_platform_username_404_missing_link() {
    let mut svc = users();
    let user = svc.create("Viewer").unwrap();
    let err = svc.update_platform_username(user.id, "twitch", "new_name").unwrap_err();
    assert_eq!(user_status(err), 404);
}

#[test]
fn delete_platform_200() {
    let mut svc = users();
    let user = svc.create("Viewer").unwrap();
    svc.link_platform(user.id, "twitch", "123", "tw").unwrap();
    svc.delete_platform(user.id, "twitch").unwrap();
    assert!(svc.user_response(user.id).unwrap().platforms.is_empty());
}

#[test]
fn delete_platform_404_nonexistent_link() {
    let mut svc = users();
    let user = svc.create("Viewer").unwrap();
    let err = svc.delete_platform(user.id, "twitch").unwrap_err();
    assert_eq!(user_status(err), 404);
}

#[test]
fn delete_platform_400_unknown_platform() {
    let mut svc = users();
    let user = svc.create("Viewer").unwrap();
    let err = svc.delete_platform(user.id, "unknown").unwrap_err();
    assert_eq!(user_status(err), 400);
}

#[test]
fn list_platforms_200() {
    let svc = users();
    assert_eq!(svc.list_platforms().unwrap().len(), 3);
}

#[test]
fn full_flow_new_viewer() {
    let mut svc = users();
    assert!(svc.find_by_platform("twitch", "123").unwrap().is_none());
    let user = svc.create("Viewer").unwrap();
    svc.link_platform(user.id, "twitch", "123", "tw_user").unwrap();
    let found = svc.find_by_platform("twitch", "123").unwrap().unwrap();
    assert_eq!(found.id, user.id);
}

#[test]
fn delete_platform_nonexistent() {
    let mut repo = InMemoryUserRepository::new();
    let user = repo.create("Viewer").unwrap();
    assert!(!repo.delete_platform(user.id, sapa_backend::ids::PlatformId::twitch()).unwrap());
}

#[test]
fn delete_user_nonexistent() {
    let mut repo = InMemoryUserRepository::new();
    assert!(!repo.delete_user(UserId::new(999)).unwrap());
}

fn catalog() -> (InMemoryRouletteSlotRepository, InMemoryRarityRepository) {
    let rarities = InMemoryRarityRepository::seed(vec![Rarity::new(RarityId::new(1), "common", "Common", "c.png", "#fff")]);
    let slots = InMemoryRouletteSlotRepository::seed(vec![RouletteSlot::new(
        RouletteSlotId::new(0),
        "test_slot",
        RarityId::new(1),
        100,
        "test",
    )]);
    (slots, rarities)
}

#[test]
fn dequeue_next_returns_200() {
    let (slots, rarities) = catalog();
    let mut queue = InMemoryQueueRepository::new();
    queue.enqueue(UserId::new(1), "user1").unwrap();
    assert!(dequeue_next(&mut queue, &slots, &rarities).is_ok());
}

#[test]
fn dequeue_next_returns_409_when_already_active() {
    let (slots, rarities) = catalog();
    let mut queue = InMemoryQueueRepository::new();
    queue.enqueue(UserId::new(1), "user1").unwrap();
    queue.enqueue(UserId::new(1), "user1").unwrap();
    dequeue_next(&mut queue, &slots, &rarities).unwrap();
    let err = dequeue_next(&mut queue, &slots, &rarities).unwrap_err();
    assert!(matches!(err, QueueServiceError::AlreadyActive));
    assert_eq!(ApiError::from_queue(err).status, 409);
}

#[test]
fn dequeue_next_parallel_only_one_spin() {
    let (slots, rarities) = catalog();
    let mut queue = InMemoryQueueRepository::new();
    queue.enqueue(UserId::new(1), "user1").unwrap();
    queue.enqueue(UserId::new(1), "user1").unwrap();
    let statuses: Vec<u16> = (0..2)
        .map(|_| match dequeue_next(&mut queue, &slots, &rarities) {
            Ok(_) => 200,
            Err(e) => ApiError::from_queue(e).status,
        })
        .collect();
    assert_eq!(statuses.iter().filter(|s| **s == 200).count(), 1);
    assert_eq!(statuses.iter().filter(|s| **s == 409).count(), 1);
}

#[test]
fn dequeue_next_no_slots_no_orphan() {
    let mut queue = InMemoryQueueRepository::new();
    queue.enqueue(UserId::new(1), "user1").unwrap();
    let (_, rarities) = catalog();
    let err = dequeue_next(&mut queue, &InMemoryRouletteSlotRepository::new(), &rarities).unwrap_err();
    assert_eq!(ApiError::from_queue(err).status, 422);
    let spinning = queue.list(Some(QueueStatus::Spinning), None, 20).unwrap();
    assert_eq!(spinning.len(), 0);
}

#[test]
fn dequeue_next_retries_error_entry() {
    let (slots, rarities) = catalog();
    let mut queue = InMemoryQueueRepository::new();
    queue.enqueue(UserId::new(1), "user1").unwrap();
    assert!(dequeue_next(&mut queue, &slots, &rarities).is_ok());
    queue.mark_timed_out(i64::MAX).unwrap();
    assert!(dequeue_next(&mut queue, &slots, &rarities).is_ok());
}

#[test]
fn complete_parallel_only_one_success() {
    let (slots, rarities) = catalog();
    let mut queue = InMemoryQueueRepository::new();
    queue.enqueue(UserId::new(1), "user1").unwrap();
    let (entry, _, _) = dequeue_next(&mut queue, &slots, &rarities).unwrap();
    let statuses: Vec<u16> = (0..2)
        .map(|_| match queue.complete(entry.id) {
            Ok(_) => 200,
            Err(e) => ApiError::from_queue(e).status,
        })
        .collect();
    assert_eq!(statuses.iter().filter(|s| **s == 200).count(), 1);
    assert_eq!(statuses.iter().filter(|s| **s == 409).count(), 1);
}

#[test]
fn slot_created_via_api_used_in_roll() {
    let (_, rarities) = catalog();
    let mut slots = InMemoryRouletteSlotRepository::new();
    slots
        .save(RouletteSlot::new(RouletteSlotId::new(0), "api_slot", RarityId::new(1), 100, "act"))
        .unwrap();
    let mut queue = InMemoryQueueRepository::new();
    queue.enqueue(UserId::new(1), "user1").unwrap();
    let (_, slot, _) = dequeue_next(&mut queue, &slots, &rarities).unwrap();
    assert_eq!(slot.name, "api_slot");
}

#[test]
fn enqueue_anonymous_reuses_single_guest() {
    let mut svc = users();
    let mut queue = InMemoryQueueRepository::new();
    let guest = svc.guest_user_id().unwrap();
    let first = queue.enqueue(guest, "viewer1").unwrap();
    let guest = svc.guest_user_id().unwrap();
    let second = queue.enqueue(guest, "viewer2").unwrap();
    assert_eq!(first.user_id, second.user_id);
}

#[test]
fn list_is_paginated_with_cursor() {
    let mut queue = InMemoryQueueRepository::new();
    for _ in 0..3 {
        queue.enqueue(UserId::new(1), "user1").unwrap();
    }
    let first = queue.list(None, None, 2).unwrap();
    assert_eq!(first.len(), 2);
    let cursor: QueueEntryId = first[1].id;
    let second = queue.list(None, Some(cursor), 2).unwrap();
    assert_eq!(second.len(), 1);
    assert!(second[0].id.0 > cursor.0);
}

fn rules_setup() -> (RuleService, ActionService, ActionId) {
    let mut actions = ActionService::new(InMemoryActionRepository::new());
    let action = actions.create("spin", ActionKind::EnqueueRoulette, true).unwrap();
    (RuleService::new(InMemoryRuleRepository::new()), actions, action.id)
}

fn chat_conditions() -> RuleConditions {
    RuleConditions::ChatMessage(MessageConditions { matcher: MessageMatcher::Contains, pattern: Some("!spin".to_string()) })
}

#[test]
fn admin_can_list_rules() {
    let (mut rules, actions, action_id) = rules_setup();
    rules
        .create(&actions, "spin-rule", true, RuleTrigger::ChatMessage, chat_conditions(), action_id)
        .unwrap();
    let listed = rules.list().unwrap();
    assert_eq!(listed.len(), 1);
    assert_eq!(listed[0].name, "spin-rule");
    assert_eq!(listed[0].trigger, RuleTrigger::ChatMessage);
}

#[test]
fn create_rule_validates_conditions_and_action() {
    let (mut rules, actions, _) = rules_setup();
    let invalid = RuleConditions::ChatMessage(MessageConditions { matcher: MessageMatcher::Equals, pattern: None });
    let err = rules
        .create(&actions, "spin", true, RuleTrigger::ChatMessage, invalid, ActionId::new(999))
        .unwrap_err();
    assert_eq!(ApiError::from_rule(err).status, 400);
    let err = rules
        .create(&actions, "spin", true, RuleTrigger::ChatMessage, chat_conditions(), ActionId::new(999))
        .unwrap_err();
    assert_eq!(ApiError::from_rule(err).status, 400);
}

#[test]
fn root_can_update_and_delete_rule() {
    let (mut rules, actions, action_id) = rules_setup();
    let rule = rules
        .create(&actions, "spin-rule", true, RuleTrigger::ChatMessage, chat_conditions(), action_id)
        .unwrap();
    let renamed = Rule {
        id: rule.id,
        name: "renamed".to_string(),
        enabled: false,
        trigger: RuleTrigger::ChatMessage,
        conditions: chat_conditions(),
        action_id,
        created_at: 0,
        updated_at: 0,
    };
    let updated = rules.update(&actions, renamed).unwrap();
    assert_eq!(updated.name, "renamed");
    assert!(!updated.enabled);
    rules.delete(rule.id).unwrap();
    assert!(rules.get(rule.id).unwrap().is_none());
}

#[test]
fn delete_missing_rule_is_not_found() {
    let (mut rules, _, _) = rules_setup();
    let err = rules.delete(RuleId::new(999)).unwrap_err();
    assert!(matches!(err, RuleServiceError::RuleNotFound));
    assert_eq!(ApiError::from_rule(err).status, 404);
}

#[test]
fn root_cannot_remove_self() {
    let mut admins = AdminService::new(InMemoryAdminRepository::new());
    admins.add("100", None).unwrap();
    admins.set_root("100", true).unwrap();
    let err = remove_admin(&mut admins, "100", "100").unwrap_err();
    assert!(matches!(err, AdminServiceError::CannotRemoveSelf));
    assert_eq!(ApiError::from_admin(err).status, 409);
    assert!(admins.is_admin("100").unwrap());
}

#[test]
fn me_works_for_regular_user() {
    let mut sessions = InMemorySessionRepository::new();
    let admins = AdminService::new(InMemoryAdminRepository::new());
    create_login_ticket_at(&mut sessions, "t", "999", Some("viewer"), 0).unwrap();
    let (session, is_root) = login_at(&mut sessions, &admins, Some("t"), "t", "s", 3600, 1).unwrap();
    assert!(!is_root);
    assert_eq!(sessions.validate_session_at(session.token.as_str(), 2).unwrap().twitch_user_id, "999");
}

#[test]
fn invalid_session_cookie_is_rejected() {
    let sessions = InMemorySessionRepository::new();
    let err = sessions.validate_session_at("bogus", 0).unwrap_err();
    assert!(matches!(err, SessionServiceError::SessionNotFound));
    assert_eq!(ApiError::from_session(err).status, 401);
}

#[test]
fn rotate_access_key_generated_persists_and_is_visible() {
    let store = ConfigStore::load_or_seed(
        StaticConfig::test_config(),
        Some(RuntimeConfig::test_runtime("old-key")),
        InMemoryConfigRepository::new(),
        "seed-key".to_string(),
    );
    let mut store = match store {
        Ok(s) => s,
        Err(e) => panic!("{}", e.message()),
    };
    let key = store.rotate_widget_access_key_generated().unwrap();
    assert!(!key.is_empty());
    assert_eq!(store.source().read().widget_access_key, key);
    assert_eq!(store.widget_access_key(), key);
    assert_eq!(store.repository().load().unwrap().unwrap().widget_access_key, key);
}

#[test]
fn secret_of_gives_the_hex_digits_of_both_values() {
    let s = sapa_backend::random::secret_of(0x0123_4567_89ab_cdef, 255);
    assert_eq!(s, "0123456789abcdef00000000000000ff");
    let fresh = sapa_backend::random::generate_secret();
    assert_eq!(fresh.len(), 32);
    assert!(fresh.chars().all(|c| c.is_ascii_hexdigit() && !c.is_ascii_uppercase()));
}

#[test]
fn list_response_fills_slot_names_and_cursor() {
    let (slots, rarities) = catalog();
    let mut queue = InMemoryQueueRepository::new();
    for _ in 0..3 {
        queue.enqueue(UserId::new(1), "user1").unwrap();
    }
    dequeue_next(&mut queue, &slots, &rarities).unwrap();
    let all_slots = slots.load_all().unwrap();
    let first = queue.list(None, None, 2).unwrap();
    let page = sapa_backend::api::queue::list_response(&first, 2, &all_slots);
    assert_eq!(page.entries.len(), 2);
    assert_eq!(page.entries[0].slot_name.as_deref(), Some("test_slot"));
    assert_eq!(page.entries[1].slot_name, None);
    assert_eq!(page.next_cursor, Some(first[1].id));
    let rest = queue.list(None, page.next_cursor, 2).unwrap();
    let last = sapa_backend::api::queue::list_response(&rest, 2, &all_slots);
    assert_eq!(last.entries.len(), 1);
    assert_eq!(last.next_cursor, None);
}

#[test]
fn settings_cell_reads_later_updates() {
    let mut store = match ConfigStore::load_or_seed(
        StaticConfig::test_config(),
        Some(RuntimeConfig::test_runtime("old-key")),
        InMemoryConfigRepository::new(),
        "seed-key".to_string(),
    ) {
        Ok(s) => s,
        Err(e) => panic!("{}", e.message()),
    };
    let mut next = store.source().read().clone();
    next.session.ttl_secs = 42;
    store.update_runtime(next).unwrap();
    assert_eq!(store.source().read().session.ttl_secs, 42);
}

#[test]
fn list_rewards_answers_each_failed_step() {
    assert_eq!(list_rewards(false, true, Some(vec![]), Some(vec![])).unwrap_err(), 400);
    assert_eq!(list_rewards(true, false, Some(vec![]), Some(vec![])).unwrap_err(), 401);
    assert_eq!(list_rewards(true, true, None, Some(vec![])).unwrap_err(), 502);
    assert_eq!(list_rewards(true, true, Some(vec![]), None).unwrap_err(), 500);
    let reward = CustomReward { id: "r1".to_string(), title: "Spin".to_string(), cost: 10, is_enabled: true, is_paused: false };
    let out = list_rewards(true, true, Some(vec![reward]), Some(vec![])).unwrap();
    assert_eq!(out.len(), 1);
    assert!(!out[0].used_in_rules);
}

#[test]
fn update_runtime_with_valid_config_succeeds() {
    let mut store = match ConfigStore::load_or_seed(
        StaticConfig::test_config(),
        Some(RuntimeConfig::test_runtime("key")),
        InMemoryConfigRepository::new(),
        "seed".to_string(),
    ) {
        Ok(s) => s,
        Err(e) => panic!("{}", e.message()),
    };
    let mut next = store.source().read().clone();
    next.queue.default_limit = 5;
    assert!(store.update_runtime(next).is_ok());
    assert_eq!(store.queue_default_limit(), 5);
    assert_eq!(store.repository().load().unwrap().unwrap().queue.default_limit, 5);
}
