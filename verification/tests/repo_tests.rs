use sapa_backend::admin::{AdminService, InMemoryAdminRepository};
use sapa_backend::catalog::{InMemoryRarityRepository, InMemoryRouletteSlotRepository, Rarity, RouletteSlot};
use sapa_backend::credentials::{
    InMemoryPlatformCredentialRepository, InMemoryTwitchTokenRepository,
    PlatformCredentialRepository, TwitchTokenRepository,
};
use sapa_backend::error::{AdminServiceError, RepositoryError};
use sapa_backend::ids::{PlatformId, QueueEntryId, RarityId, RouletteSlotId, UserId};
use sapa_backend::queue::{DequeueOutcome, InMemoryQueueRepository, QueueEntry, QueueStatus};
use sapa_backend::user::{InMemoryPlatformRepository, InMemoryUserRepository};

#[test]
fn inmemory_admin_create_and_get() {
    let mut repo = InMemoryAdminRepository::new();
    let admin = repo.create("100", Some("sapushka_"), true).unwrap();
    assert!(admin.is_root);

    let fetched = repo.get_by_twitch_id("100").unwrap().unwrap();
    assert_eq!(fetched.twitch_id, "100");
    assert_eq!(fetched.display_name.as_deref(), Some("sapushka_"));
}

#[test]
fn create_conflicts_on_duplicate_id() {
    let mut repo = InMemoryAdminRepository::new();
    repo.create("100", None, true).unwrap();
    let err = repo.create("100", None, false).unwrap_err();
    assert!(matches!(err, RepositoryError::Conflict(_)));
}

#[test]
fn inmemory_admin_list_returns_all() {
    let mut repo = InMemoryAdminRepository::new();
    repo.create("100", None, true).unwrap();
    repo.create("200", None, false).unwrap();
    assert_eq!(repo.list().unwrap().len(), 2);
}

#[test]
fn set_root_flips_flag() {
    let mut repo = InMemoryAdminRepository::new();
    repo.create("200", None, false).unwrap();
    let admin = repo.set_root("200", true).unwrap().unwrap();
    assert!(admin.is_root);
    assert!(!repo.set_root("missing", true).unwrap().is_some());
}

#[test]
fn inmemory_admin_update_display_name() {
    let mut repo = InMemoryAdminRepository::new();
    repo.create("200", Some("old"), false).unwrap();
    let admin = repo.update_display_name("200", "new").unwrap().unwrap();
    assert_eq!(admin.display_name.as_deref(), Some("new"));
    assert!(repo.update_display_name("missing", "x").unwrap().is_none());
}

#[test]
fn inmemory_admin_delete_removes_entry() {
    let mut repo = InMemoryAdminRepository::new();
    repo.create("200", None, false).unwrap();
    assert!(repo.delete_by_twitch_id("200").unwrap());
    assert!(!repo.delete_by_twitch_id("200").unwrap());
    assert!(repo.get_by_twitch_id("200").unwrap().is_none());
}

fn admin_service() -> AdminService {
    AdminService::new(InMemoryAdminRepository::new())
}

#[test]
fn seed_creates_root_admin() {
    let mut svc = admin_service();
    svc.seed("100").unwrap();
    let admin = svc.get("100").unwrap().unwrap();
    assert!(admin.is_root);
    assert!(svc.is_admin("100").unwrap());
    assert!(svc.is_root("100").unwrap());
}

#[test]
fn seed_promotes_existing_non_root() {
    let mut svc = admin_service();
    svc.add("100", Some("sapushka_")).unwrap();
    assert!(!svc.is_root("100").unwrap());
    svc.seed("100").unwrap();
    assert!(svc.is_root("100").unwrap());
}

#[test]
fn seed_is_idempotent() {
    let mut svc = admin_service();
    svc.seed("100").unwrap();
    svc.seed("100").unwrap();
    assert_eq!(svc.list().unwrap().len(), 1);
}

#[test]
fn add_creates_non_root_admin() {
    let mut svc = admin_service();
    let admin = svc.add("200", Some("moderator")).unwrap();
    assert!(!admin.is_root);
    assert!(svc.is_admin("200").unwrap());
    assert!(!svc.is_root("200").unwrap());
}

#[test]
fn add_duplicate_is_rejected() {
    let mut svc = admin_service();
    svc.add("200", None).unwrap();
    let err = svc.add("200", None).unwrap_err();
    assert!(matches!(err, AdminServiceError::AlreadyAdmin));
}

#[test]
fn remove_deletes_admin() {
    let mut svc = admin_service();
    svc.add("200", None).unwrap();
    svc.remove("200").unwrap();
    assert!(!svc.is_admin("200").unwrap());
}

#[test]
fn remove_missing_is_not_found() {
    let mut svc = admin_service();
    let err = svc.remove("missing").unwrap_err();
    assert!(matches!(err, AdminServiceError::AdminNotFound));
}

#[test]
fn cannot_remove_last_root() {
    let mut svc = admin_service();
    svc.seed("100").unwrap();
    let err = svc.remove("100").unwrap_err();
    assert!(matches!(err, AdminServiceError::CannotRemoveLastRoot));
}

#[test]
fn can_remove_first_root_when_second_exists() {
    let mut svc = admin_service();
    svc.seed("100").unwrap();
    svc.add("200", None).unwrap();
    svc.set_root("200", true).unwrap();
    svc.remove("100").unwrap();
    assert!(svc.is_admin("200").unwrap());
}

#[test]
fn record_login_updates_display_name() {
    let mut svc = admin_service();
    svc.add("200", Some("old_name")).unwrap();
    svc.update_display_name("200", "new_name").unwrap();
    let admin = svc.get("200").unwrap().unwrap();
    assert_eq!(admin.display_name.as_deref(), Some("new_name"));
}

#[test]
fn find_by_name_found() {
    let repo = InMemoryPlatformRepository::new_seeded();
    let result = repo.find_by_name("twitch").unwrap();
    assert!(result.is_some());
    assert_eq!(result.unwrap().name, "twitch");
}

#[test]
fn find_by_name_not_found() {
    let repo = InMemoryPlatformRepository::new_seeded();
    assert!(repo.find_by_name("unknown").unwrap().is_none());
}

#[test]
fn load_all_returns_seeded() {
    let repo = InMemoryPlatformRepository::new_seeded();
    let all = repo.load_all().unwrap();
    assert_eq!(all.len(), 3);
    assert_eq!(all[0].name, "twitch");
    assert_eq!(all[1].name, "youtube");
    assert_eq!(all[2].name, "vk_video_live");
}

fn repo_with_pending_and_error() -> (InMemoryQueueRepository, QueueEntry) {
    let mut repo = InMemoryQueueRepository::new();
    let first = repo.enqueue(UserId::new(1), "a").unwrap();
    repo.enqueue(UserId::new(2), "b").unwrap();
    repo.update_status_if(first.id, QueueStatus::Pending, QueueStatus::Error)
        .unwrap();
    (repo, first)
}

#[test]
fn peek_prefers_error_over_pending() {
    let (repo, error_entry) = repo_with_pending_and_error();
    let peeked = repo.peek_next().unwrap().unwrap();
    assert_eq!(peeked.id, error_entry.id);
}

#[test]
fn dequeue_prefers_error_over_pending() {
    let (mut repo, error_entry) = repo_with_pending_and_error();
    match repo.dequeue_next_with_slot(RouletteSlotId::new(0)).unwrap() {
        DequeueOutcome::Picked(entry) => assert_eq!(entry.id, error_entry.id),
        _ => panic!("expected Picked"),
    }
}

#[test]
fn dequeue_refuses_second_spin() {
    let (mut repo, _) = repo_with_pending_and_error();
    assert!(matches!(
        repo.dequeue_next_with_slot(RouletteSlotId::new(0)).unwrap(),
        DequeueOutcome::Picked(_)
    ));
    assert!(matches!(
        repo.dequeue_next_with_slot(RouletteSlotId::new(0)).unwrap(),
        DequeueOutcome::AlreadyActive
    ));
    let stats = repo.count_by_status().unwrap();
    assert_eq!(stats.spinning, 1);
    assert_eq!(stats.pending, 1);
}

#[test]
fn list_is_paginated_by_keyset_cursor() {
    let mut repo = InMemoryQueueRepository::new();
    for i in 0..5 {
        repo.enqueue(UserId::new(i as u32 + 1), &format!("u{i}"))
            .unwrap();
    }

    let first = repo.list(None, None, 2).unwrap();
    assert_eq!(first.len(), 2);
    assert_eq!(first[0].id, QueueEntryId::new(1));
    assert_eq!(first[1].id, QueueEntryId::new(2));

    let second = repo.list(None, Some(first[1].id), 2).unwrap();
    assert_eq!(second.len(), 2);
    assert_eq!(second[0].id, QueueEntryId::new(3));
    assert_eq!(second[1].id, QueueEntryId::new(4));

    let third = repo.list(None, Some(second[1].id), 2).unwrap();
    assert_eq!(third.len(), 1);
    assert_eq!(third[0].id, QueueEntryId::new(5));
}

#[test]
fn list_filters_by_status() {
    let mut repo = InMemoryQueueRepository::new();
    let entry = repo.enqueue(UserId::new(1), "a").unwrap();
    repo.update_status_if(entry.id, QueueStatus::Pending, QueueStatus::Completed)
        .unwrap();

    let pending = repo.list(Some(QueueStatus::Pending), None, 100).unwrap();
    assert!(pending.is_empty());
    let completed = repo.list(Some(QueueStatus::Completed), None, 100).unwrap();
    assert_eq!(completed.len(), 1);
}

#[test]
fn purge_removes_only_expired_completed_and_cancelled() {
    let mut repo = InMemoryQueueRepository::new();
    let done = repo.enqueue(UserId::new(1), "done").unwrap();
    let cancelled = repo.enqueue(UserId::new(2), "cancelled").unwrap();
    let pending = repo.enqueue(UserId::new(3), "pending").unwrap();

    repo.update_status_if(done.id, QueueStatus::Pending, QueueStatus::Completed)
        .unwrap();
    repo.update_status_if(cancelled.id, QueueStatus::Pending, QueueStatus::Cancelled)
        .unwrap();

    let future_cutoff = chrono::Utc::now().timestamp_micros() + 3_600_000_000;
    let removed = repo.purge_completed_cancelled(future_cutoff).unwrap();
    assert_eq!(removed, 2);

    let remaining = repo.list(None, None, 100).unwrap();
    assert_eq!(remaining.len(), 1);
    assert_eq!(remaining[0].id, pending.id);
}

#[test]
fn purge_skips_fresh_completed() {
    let mut repo = InMemoryQueueRepository::new();
    let done = repo.enqueue(UserId::new(1), "done").unwrap();
    repo.update_status_if(done.id, QueueStatus::Pending, QueueStatus::Completed)
        .unwrap();

    let past_cutoff = chrono::Utc::now().timestamp_micros() - 3_600_000_000;
    let removed = repo.purge_completed_cancelled(past_cutoff).unwrap();
    assert_eq!(removed, 0);
    assert_eq!(repo.list(None, None, 100).unwrap().len(), 1);
}

const TWITCH: PlatformId = PlatformId(1);
const YOUTUBE: PlatformId = PlatformId(2);

#[test]
fn create_user() {
    let mut repo = InMemoryUserRepository::new();
    let user = repo.create("Viewer").unwrap();
    assert_eq!(user.display_name, "Viewer");
    assert_eq!(user.id.value(), 1);
}

#[test]
fn find_by_platform_found() {
    let mut repo = InMemoryUserRepository::new();
    let user = repo.create("Viewer").unwrap();
    repo.link_platform(user.id, TWITCH, "123", "viewer_name").unwrap();

    let found = repo.find_by_platform(TWITCH, "123").unwrap();
    assert!(found.is_some());
    assert_eq!(found.unwrap().id, user.id);
}

#[test]
fn find_by_platform_not_found() {
    let repo = InMemoryUserRepository::new();
    assert!(repo.find_by_platform(TWITCH, "unknown").unwrap().is_none());
}

#[test]
fn link_platform_duplicate_global() {
    let mut repo = InMemoryUserRepository::new();
    let user1 = repo.create("A").unwrap();
    let user2 = repo.create("B").unwrap();
    repo.link_platform(user1.id, TWITCH, "123", "user_a").unwrap();

    let err = repo.link_platform(user2.id, TWITCH, "123", "user_b").unwrap_err();
    assert_eq!(
        err,
        RepositoryError::Conflict("platform_user_id already linked to another user".to_string())
    );
}

#[test]
fn get_platforms_returns_linked() {
    let mut repo = InMemoryUserRepository::new();
    let user = repo.create("Viewer").unwrap();
    repo.link_platform(user.id, TWITCH, "t123", "twitch_user").unwrap();
    repo.link_platform(user.id, YOUTUBE, "y456", "yt_user").unwrap();
    assert_eq!(repo.get_platforms(user.id).unwrap().len(), 2);
}

#[test]
fn get_platforms_empty() {
    let mut repo = InMemoryUserRepository::new();
    let user = repo.create("Viewer").unwrap();
    assert!(repo.get_platforms(user.id).unwrap().is_empty());
}

#[test]
fn inmemory_user_update_display_name() {
    let mut repo = InMemoryUserRepository::new();
    let user = repo.create("OldName").unwrap();
    let updated = repo.update_display_name(user.id, "NewName").unwrap().unwrap();
    assert_eq!(updated.display_name, "NewName");
    let fetched = repo.get_by_id(user.id).unwrap().unwrap();
    assert_eq!(fetched.display_name, "NewName");
}

#[test]
fn update_display_name_nonexistent() {
    let mut repo = InMemoryUserRepository::new();
    assert!(repo.update_display_name(UserId::new(999), "Name").unwrap().is_none());
}

#[test]
fn update_platform_username() {
    let mut repo = InMemoryUserRepository::new();
    let user = repo.create("Viewer").unwrap();
    repo.link_platform(user.id, TWITCH, "123", "old_name").unwrap();
    let updated = repo
        .update_platform_username(user.id, TWITCH, "new_name")
        .unwrap()
        .unwrap();
    assert_eq!(updated.platform_username, "new_name");
    let platforms = repo.get_platforms(user.id).unwrap();
    assert_eq!(platforms[0].platform_username, "new_name");
}

#[test]
fn update_platform_username_nonexistent_link() {
    let mut repo = InMemoryUserRepository::new();
    let user = repo.create("Viewer").unwrap();
    assert!(repo.update_platform_username(user.id, TWITCH, "name").unwrap().is_none());
}

#[test]
fn get_by_id_found() {
    let mut repo = InMemoryUserRepository::new();
    let user = repo.create("Viewer").unwrap();
    let fetched = repo.get_by_id(user.id).unwrap().unwrap();
    assert_eq!(fetched.id, user.id);
    assert_eq!(fetched.display_name, "Viewer");
}

#[test]
fn get_by_id_not_found() {
    let repo = InMemoryUserRepository::new();
    assert!(repo.get_by_id(UserId::new(999)).unwrap().is_none());
}

#[test]
fn delete_user_removes_user_and_platforms() {
    let mut repo = InMemoryUserRepository::new();
    let user = repo.create("Viewer").unwrap();
    repo.link_platform(user.id, TWITCH, "123", "v").unwrap();
    assert!(repo.delete_user(user.id).unwrap());
    assert!(repo.get_by_id(user.id).unwrap().is_none());
    assert!(repo.get_platforms(user.id).unwrap().is_empty());
    assert!(repo.find_by_platform(TWITCH, "123").unwrap().is_none());
    assert!(!repo.delete_user(user.id).unwrap());
}

#[test]
fn delete_platform_removes_link() {
    let mut repo = InMemoryUserRepository::new();
    let user = repo.create("Viewer").unwrap();
    repo.link_platform(user.id, TWITCH, "123", "v").unwrap();
    assert!(repo.delete_platform(user.id, TWITCH).unwrap());
    assert!(repo.get_platforms(user.id).unwrap().is_empty());
    assert!(!repo.delete_platform(user.id, TWITCH).unwrap());
}

#[test]
fn inmemory_platform_credential_roundtrip() {
    let mut repo = InMemoryPlatformCredentialRepository::new();
    assert_eq!(repo.load_credential(PlatformId::twitch()).unwrap(), None);
    repo.save_credential(PlatformId::twitch(), "refresh_token_1").unwrap();
    assert_eq!(
        repo.load_credential(PlatformId::twitch()).unwrap().as_deref(),
        Some("refresh_token_1")
    );
}

#[test]
fn clear_removes_credential() {
    let mut repo = InMemoryPlatformCredentialRepository::new();
    repo.save_credential(PlatformId::vk_video_live(), "token").unwrap();
    repo.clear_credential(PlatformId::vk_video_live()).unwrap();
    assert_eq!(repo.load_credential(PlatformId::vk_video_live()).unwrap(), None);
}

#[test]
fn credentials_are_per_platform() {
    let mut repo = InMemoryPlatformCredentialRepository::new();
    repo.save_credential(PlatformId::twitch(), "twitch_token").unwrap();
    assert_eq!(
        repo.load_credential(PlatformId::twitch()).unwrap().as_deref(),
        Some("twitch_token")
    );
    assert_eq!(repo.load_credential(PlatformId::youtube()).unwrap(), None);
}

#[test]
fn save_trims_credential() {
    let mut repo = InMemoryPlatformCredentialRepository::new();
    repo.save_credential(PlatformId::twitch(), "  tok  ").unwrap();
    assert_eq!(
        repo.load_credential(PlatformId::twitch()).unwrap().as_deref(),
        Some("tok")
    );
}

#[test]
fn seeded_credentials_later_wins() {
    let repo = InMemoryPlatformCredentialRepository::seeded(vec![
        (PlatformId::twitch(), "a".to_string()),
        (PlatformId::youtube(), " b ".to_string()),
        (PlatformId::twitch(), "c".to_string()),
    ]);
    assert_eq!(repo.load_credential(PlatformId::twitch()).unwrap().as_deref(), Some("c"));
    assert_eq!(repo.load_credential(PlatformId::youtube()).unwrap().as_deref(), Some(" b "));
}

#[test]
fn inmemory_twitch_auth_roundtrip() {
    let mut repo = InMemoryTwitchTokenRepository::new();
    assert_eq!(repo.load().unwrap(), None);
    repo.save("refresh_token_1").unwrap();
    assert_eq!(repo.load().unwrap().as_deref(), Some("refresh_token_1"));
}

#[test]
fn clear_removes_token() {
    let mut repo = InMemoryTwitchTokenRepository::new();
    repo.save("token").unwrap();
    repo.clear().unwrap();
    assert_eq!(repo.load().unwrap(), None);
}

fn make_slot(name: &str) -> RouletteSlot {
    RouletteSlot::new(RouletteSlotId::new(0), name, RarityId::new(1), 10, "action")
}

#[test]
fn test_save_assigns_id() {
    let mut repo = InMemoryRouletteSlotRepository::new();
    let slot = make_slot("test");
    assert_eq!(slot.id.value(), 0);
    let saved = repo.save(slot).unwrap();
    assert_eq!(saved.id.value(), 1);
}

#[test]
fn test_save_increments_id() {
    let mut repo = InMemoryRouletteSlotRepository::new();
    let saved_1 = repo.save(make_slot("a")).unwrap();
    let saved_2 = repo.save(make_slot("b")).unwrap();
    assert_eq!(saved_1.id.value(), 1);
    assert_eq!(saved_2.id.value(), 2);
}

#[test]
fn test_load_all_returns_saved_slots() {
    let mut repo = InMemoryRouletteSlotRepository::new();
    repo.save(make_slot("a")).unwrap();
    repo.save(make_slot("b")).unwrap();
    repo.save(make_slot("c")).unwrap();
    assert_eq!(repo.load_all().unwrap().len(), 3);
}

#[test]
fn test_update_existing_slot() {
    let mut repo = InMemoryRouletteSlotRepository::new();
    let saved = repo.save(make_slot("original")).unwrap();

    let updated = RouletteSlot::new(saved.id, "updated", RarityId::new(1), 99, "new action");
    let result = repo.update(updated.clone()).unwrap().unwrap();
    assert_eq!(result.name, "updated");
    assert_eq!(result.weight, 99);

    let all = repo.load_all().unwrap();
    assert_eq!(all.len(), 1);
    assert_eq!(all[0].name, "updated");
}

#[test]
fn test_update_nonexistent_returns_none() {
    let mut repo = InMemoryRouletteSlotRepository::new();
    let slot = RouletteSlot::new(RouletteSlotId::new(999), "ghost", RarityId::new(1), 10, "action");
    assert!(repo.update(slot).unwrap().is_none());
}

#[test]
fn test_delete_existing_slot() {
    let mut repo = InMemoryRouletteSlotRepository::new();
    let saved = repo.save(make_slot("to_delete")).unwrap();
    assert_eq!(repo.load_all().unwrap().len(), 1);
    repo.delete(saved.id).unwrap();
    assert_eq!(repo.load_all().unwrap().len(), 0);
}

#[test]
fn test_delete_nonexistent_returns_false() {
    let mut repo = InMemoryRouletteSlotRepository::new();
    assert!(!repo.delete(RouletteSlotId::new(42)).unwrap());
}

#[test]
fn test_seed_load_all() {
    let slots = vec![make_slot("preloaded_a"), make_slot("preloaded_b")];
    let repo = InMemoryRouletteSlotRepository::seed(slots);
    let all = repo.load_all().unwrap();
    assert_eq!(all.len(), 2);
    assert_eq!(all[0].id.value(), 1);
    assert_eq!(all[1].id.value(), 2);
    assert_eq!(all[0].name, "preloaded_a");
}

#[test]
fn test_seed_continues_ids() {
    let repo_slots = vec![make_slot("existing")];
    let mut repo = InMemoryRouletteSlotRepository::seed(repo_slots);
    let saved = repo.save(make_slot("new")).unwrap();
    assert_eq!(saved.id.value(), 2);
}

#[test]
fn test_seed_normalizes_ids() {
    let s1 = RouletteSlot::new(RouletteSlotId::new(0), "a", RarityId::new(1), 10, "act");
    let s2 = RouletteSlot::new(RouletteSlotId::new(0), "b", RarityId::new(1), 10, "act");
    let repo = InMemoryRouletteSlotRepository::seed(vec![s1, s2]);
    let all = repo.load_all().unwrap();
    assert_eq!(all[0].id.value(), 1);
    assert_eq!(all[1].id.value(), 2);
}

#[test]
fn seeded_wheel_and_rarities() {
    let slots = InMemoryRouletteSlotRepository::new_seeded().load_all().unwrap();
    assert_eq!(slots.len(), 4);
    assert_eq!(slots[0].name, "Поболтать");
    assert_eq!(slots[0].weight, 50);
    assert_eq!(slots[3].action, "jackpot");
    let rarities = InMemoryRarityRepository::new_seeded().load_all().unwrap();
    assert_eq!(rarities.len(), 4);
    assert_eq!(rarities[3].name, "legendary");
    assert_eq!(rarities[1].color, "#4CAF50");
}

#[test]
fn rarity_repository_lifecycle() {
    let mut repo = InMemoryRarityRepository::new();
    let saved = repo
        .save(Rarity::new(RarityId::new(0), "common", "Common", "c.png", "#fff"))
        .unwrap();
    assert_eq!(saved.id, RarityId::new(1));
    let updated = repo
        .update(Rarity::new(saved.id, "common", "Usual", "c.png", "#fff"))
        .unwrap()
        .unwrap();
    assert_eq!(updated.display_name, "Usual");
    assert!(repo.delete(saved.id).unwrap());
    assert!(!repo.delete(saved.id).unwrap());
    let seeded = InMemoryRarityRepository::seed(vec![Rarity::new(RarityId::new(9), "x", "X", "x.png", "#000")]);
    assert_eq!(seeded.load_all().unwrap()[0].id, RarityId::new(1));
}
