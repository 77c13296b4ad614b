use std::sync::Arc;

use sapa_backend::action::{
    render, Action, ActionEvent, ActionKind, EventContext, PlatformEvent, PlatformEventPayload,
};
use sapa_backend::ids::{ActionId, PlatformId};

fn chat_context() -> EventContext {
    EventContext {
        user_id: "1".to_string(),
        user_name: "viewer".to_string(),
        text: "hello".to_string(),
        ..EventContext::default()
    }
}

fn reward_context() -> EventContext {
    EventContext {
        user_id: "1".to_string(),
        user_name: "viewer".to_string(),
        reward_title: "Spin".to_string(),
        reward_cost: 500,
        user_input: "please".to_string(),
        ..EventContext::default()
    }
}

#[test]
fn render_replaces_known_keys() {
    assert_eq!(
        render("@{username} says {text}", &chat_context()),
        "@viewer says hello"
    );
    assert_eq!(
        render(
            "{username} {reward_title} for {cost} [{user_input}]",
            &reward_context()
        ),
        "viewer Spin for 500 [please]"
    );
    assert_eq!(render("{user_id}", &chat_context()), "1");
}

#[test]
fn render_leaves_unknown_keys_untouched() {
    assert_eq!(
        render("hi {unknown} {foo}", &chat_context()),
        "hi {unknown} {foo}"
    );
    assert_eq!(
        render("{username {nested}}", &chat_context()),
        "{username {nested}}"
    );
}

#[test]
fn render_empty_context() {
    assert_eq!(render("{username}", &EventContext::default()), "");
}

#[test]
fn render_negative_and_zero_cost() {
    let mut ctx = reward_context();
    ctx.reward_cost = -42;
    assert_eq!(render("{cost}", &ctx), "-42");
    ctx.reward_cost = 0;
    assert_eq!(render("cost={cost}", &ctx), "cost=0");
    ctx.reward_cost = i64::MIN;
    assert_eq!(render("{cost}", &ctx), "-9223372036854775808");
}

#[test]
fn render_without_braces_is_identity() {
    assert_eq!(render("plain text, no keys", &reward_context()), "plain text, no keys");
}

#[test]
fn render_replaces_every_occurrence_in_order() {
    assert_eq!(
        render("{username}{username} {text}", &chat_context()),
        "viewerviewer hello"
    );
    let ctx = EventContext {
        user_name: "{text}".to_string(),
        text: "t".to_string(),
        ..EventContext::default()
    };
    assert_eq!(render("{username}", &ctx), "t");
}

fn chat_event() -> Arc<PlatformEvent> {
    Arc::new(PlatformEvent::chat_message(
        PlatformId::twitch(),
        "msg-1",
        "1".to_string(),
        "viewer".to_string(),
        "hello".to_string(),
    ))
}

fn reward_event() -> Arc<PlatformEvent> {
    Arc::new(PlatformEvent::reward_redemption(
        PlatformId::twitch(),
        "red-1",
        "1".to_string(),
        "viewer".to_string(),
        "reward-9".to_string(),
        "Spin".to_string(),
        500,
        "please".to_string(),
        "unfulfilled".to_string(),
    ))
}

fn action(kind: ActionKind) -> Arc<Action> {
    Arc::new(Action {
        id: ActionId::new(1),
        name: "test".to_string(),
        kind,
        enabled: true,
        created_at: 0,
        updated_at: 0,
    })
}

#[test]
fn ctx_from_chat_payload() {
    let event = chat_event();
    let ctx = EventContext::from(&event.payload);
    assert_eq!(ctx.user_id, "1");
    assert_eq!(ctx.user_name, "viewer");
    assert_eq!(ctx.text, "hello");
    assert_eq!(ctx.reward_cost, 0);
}

#[test]
fn ctx_from_reward_payload() {
    let event = reward_event();
    let ctx = EventContext::from(&event.payload);
    assert_eq!(ctx.user_id, "1");
    assert_eq!(ctx.user_name, "viewer");
    assert_eq!(ctx.reward_title, "Spin");
    assert_eq!(ctx.reward_cost, 500);
    assert_eq!(ctx.user_input, "please");
    assert_eq!(ctx.text, "");
}

#[test]
fn action_event_keeps_source_and_kind() {
    let event = chat_event();
    let action = action(ActionKind::EnqueueRoulette);
    let action_event = ActionEvent::from_action(Arc::clone(&action), Arc::clone(&event));
    assert_eq!(action_event.action_id, action.id);
    assert_eq!(action_event.kind, ActionKind::EnqueueRoulette);
    assert_eq!(action_event.ctx.user_name, "viewer");
    assert!(Arc::ptr_eq(&action_event.source, &event));
}

#[test]
fn noop_action_builds_empty_kind() {
    let action = Action::noop(ActionId::new(1));
    assert_eq!(action.kind, ActionKind::NoAction);
    assert!(action.enabled);
    assert_eq!(action.name, "no-op");
}

#[test]
fn action_holds_kind() {
    let action = Action {
        id: ActionId::new(1),
        name: "reply".to_string(),
        kind: ActionKind::ChatReply {
            message_template: "hi {username}".to_string(),
        },
        enabled: true,
        created_at: 0,
        updated_at: 0,
    };
    assert_eq!(
        action.kind,
        ActionKind::ChatReply {
            message_template: "hi {username}".to_string()
        }
    );
}

#[test]
fn reward_payload_keeps_reward_fields() {
    let event = reward_event();
    match &event.payload {
        PlatformEventPayload::RewardRedemption(r) => {
            assert_eq!(r.reward_id, "reward-9");
            assert_eq!(r.status, "unfulfilled");
        }
        PlatformEventPayload::ChatMessage(_) => panic!("expected a redemption"),
    }
    assert_eq!(event.event_id, "red-1");
}
