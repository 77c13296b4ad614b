//! Actions, the context a platform event hands them, and the rendering of
//! chat-reply templates.

use std::sync::Arc;

use vstd::prelude::*;

use crate::clock::now_micros;
use crate::ids::{ActionId, PlatformId};
use crate::text::{
    brace_free, chars_of, decimal_text, i64_to_decimal, is_placeholder,
    lemma_decimal_text_brace_free, lemma_other_placeholder_stays, lemma_replace_at_front,
    lemma_replace_skips_brace_free, lemma_replace_without_brace, replace_all, replace_chars,
    replace_str, string_of,
};

verus! {

/// What an action does when its rule fires.
#[derive(Debug, PartialEq)]
pub enum ActionKind {
    NoAction,
    EnqueueRoulette,
    ChatReply { message_template: String },
}

impl Clone for ActionKind {
    fn clone(&self) -> (r: Self)
        ensures
            r == *self,
    {
        match self {
            ActionKind::NoAction => ActionKind::NoAction,
            ActionKind::EnqueueRoulette => ActionKind::EnqueueRoulette,
            ActionKind::ChatReply { message_template } => ActionKind::ChatReply {
                message_template: message_template.clone(),
            },
        }
    }
}

/// A configured action. Timestamps are microseconds since the epoch.
#[derive(Debug)]
pub struct Action {
    pub id: ActionId,
    pub name: String,
    pub kind: ActionKind,
    pub enabled: bool,
    pub created_at: i64,
    pub updated_at: i64,
}

impl Clone for Action {
    fn clone(&self) -> (r: Self)
        ensures
            r == *self,
    {
        Action {
            id: self.id,
            name: self.name.clone(),
            kind: self.kind.clone(),
            enabled: self.enabled,
            created_at: self.created_at,
            updated_at: self.updated_at,
        }
    }
}

impl Action {
    /// An enabled action named `no-op` that does nothing, stamped now.
    pub fn noop(id: ActionId) -> (r: Self)
        ensures
            r.id == id,
            r.name@ == "no-op"@,
            r.kind == ActionKind::NoAction,
            r.enabled,
            r.created_at == r.updated_at,
    {
        let now = now_micros();
        Action {
            id,
            name: String::from_str("no-op"),
            kind: ActionKind::NoAction,
            enabled: true,
            created_at: now,
            updated_at: now,
        }
    }
}

/// The values of an event that a template may refer to.
#[derive(Debug)]
pub struct EventContext {
    pub user_id: String,
    pub user_name: String,
    pub text: String,
    pub reward_title: String,
    pub reward_cost: i64,
    pub user_input: String,
}

impl Default for EventContext {
    fn default() -> (r: Self)
        ensures
            r.user_id@ == Seq::<char>::empty(),
            r.user_name@ == Seq::<char>::empty(),
            r.text@ == Seq::<char>::empty(),
            r.reward_title@ == Seq::<char>::empty(),
            r.reward_cost == 0,
            r.user_input@ == Seq::<char>::empty(),
    {
        EventContext {
            user_id: String::new(),
            user_name: String::new(),
            text: String::new(),
            reward_title: String::new(),
            reward_cost: 0,
            user_input: String::new(),
        }
    }
}

impl Clone for EventContext {
    fn clone(&self) -> (r: Self)
        ensures
            r == *self,
    {
        EventContext {
            user_id: self.user_id.clone(),
            user_name: self.user_name.clone(),
            text: self.text.clone(),
            reward_title: self.reward_title.clone(),
            reward_cost: self.reward_cost,
            user_input: self.user_input.clone(),
        }
    }
}

/// The template with its placeholders substituted one after another, in
/// this order: `{username}`, `{user_id}`, `{text}`, `{reward_title}`,
/// `{cost}` (the decimal cost) and `{user_input}`. Each pass replaces every
/// occurrence in the text the previous pass produced.
pub open spec fn render_spec(t: Seq<char>, ctx: EventContext) -> Seq<char> {
    let s1 = replace_all(t, "{username}"@, ctx.user_name@);
    let s2 = replace_all(s1, "{user_id}"@, ctx.user_id@);
    let s3 = replace_all(s2, "{text}"@, ctx.text@);
    let s4 = replace_all(s3, "{reward_title}"@, ctx.reward_title@);
    let s5 = replace_all(s4, "{cost}"@, decimal_text(ctx.reward_cost as int));
    replace_all(s5, "{user_input}"@, ctx.user_input@)
}

/// Substitutes the event's values into a chat-reply template; unknown
/// placeholders stay as they are.
pub fn render(template: &str, ctx: &EventContext) -> (r: String)
    ensures
        r@ == render_spec(template@, *ctx),
        context_brace_free(*ctx) ==> forall|k: int|
            0 <= k < 6 && template@ == #[trigger] placeholder(k) ==> r@ == placeholder_value(*ctx, k),
{
    proof {
        if context_brace_free(*ctx) {
            assert forall|k: int|
                0 <= k < 6 && template@ == #[trigger] placeholder(k) implies render_spec(
                    template@,
                    *ctx,
                ) == placeholder_value(*ctx, k) by {
                lemma_render_single_placeholder(k, *ctx);
            }
        }
        reveal_strlit("{username}");
        reveal_strlit("{user_id}");
        reveal_strlit("{text}");
        reveal_strlit("{reward_title}");
        reveal_strlit("{cost}");
        reveal_strlit("{user_input}");
    }
    let t = chars_of(template);
    let s1 = replace_str(&t, "{username}", ctx.user_name.as_str());
    let s2 = replace_str(&s1, "{user_id}", ctx.user_id.as_str());
    let s3 = replace_str(&s2, "{text}", ctx.text.as_str());
    let s4 = replace_str(&s3, "{reward_title}", ctx.reward_title.as_str());
    let cost_pattern = chars_of("{cost}");
    let cost = i64_to_decimal(ctx.reward_cost);
    let s5 = replace_chars(&s4, &cost_pattern, &cost);
    let s6 = replace_str(&s5, "{user_input}", ctx.user_input.as_str());
    string_of(&s6)
}

/// A template without `{` renders to itself, whatever the context.
pub proof fn lemma_render_without_braces(t: Seq<char>, ctx: EventContext)
    requires
        forall|i: int| 0 <= i < t.len() ==> t[i] != '{',
    ensures
        render_spec(t, ctx) == t,
{
    reveal_strlit("{username}");
    reveal_strlit("{user_id}");
    reveal_strlit("{text}");
    reveal_strlit("{reward_title}");
    reveal_strlit("{cost}");
    reveal_strlit("{user_input}");
    lemma_replace_without_brace(t, "{username}"@, ctx.user_name@);
    lemma_replace_without_brace(t, "{user_id}"@, ctx.user_id@);
    lemma_replace_without_brace(t, "{text}"@, ctx.text@);
    lemma_replace_without_brace(t, "{reward_title}"@, ctx.reward_title@);
    lemma_replace_without_brace(t, "{cost}"@, decimal_text(ctx.reward_cost as int));
    lemma_replace_without_brace(t, "{user_input}"@, ctx.user_input@);
}

/// The placeholders a template may hold, in the order they are filled.
pub open spec fn placeholder(k: int) -> Seq<char> {
    if k == 0 {
        "{username}"@
    } else if k == 1 {
        "{user_id}"@
    } else if k == 2 {
        "{text}"@
    } else if k == 3 {
        "{reward_title}"@
    } else if k == 4 {
        "{cost}"@
    } else {
        "{user_input}"@
    }
}

/// The value of the event that fills placeholder `k`.
pub open spec fn placeholder_value(ctx: EventContext, k: int) -> Seq<char> {
    if k == 0 {
        ctx.user_name@
    } else if k == 1 {
        ctx.user_id@
    } else if k == 2 {
        ctx.text@
    } else if k == 3 {
        ctx.reward_title@
    } else if k == 4 {
        decimal_text(ctx.reward_cost as int)
    } else {
        ctx.user_input@
    }
}

/// Whether none of the event's texts holds a `{`.
pub open spec fn context_brace_free(ctx: EventContext) -> bool {
    &&& brace_free(ctx.user_name@)
    &&& brace_free(ctx.user_id@)
    &&& brace_free(ctx.text@)
    &&& brace_free(ctx.reward_title@)
    &&& brace_free(ctx.user_input@)
}

/// Each known placeholder is one.
proof fn lemma_placeholders(k: int)
    requires
        0 <= k < 6,
    ensures
        is_placeholder(placeholder(k)),
        forall|j: int| 0 <= j < 6 && j != k ==> placeholder(j) != placeholder(k),
{
    reveal_strlit("{username}");
    reveal_strlit("{user_id}");
    reveal_strlit("{text}");
    reveal_strlit("{reward_title}");
    reveal_strlit("{cost}");
    reveal_strlit("{user_input}");
    assert forall|j: int| 0 <= j < 6 && j != k implies placeholder(j) != placeholder(k) by {
        if placeholder(j) == placeholder(k) {
            assert(placeholder(j).len() == placeholder(k).len());
            assert(placeholder(j)[1] == placeholder(k)[1]);
            assert(placeholder(j)[2] == placeholder(k)[2]);
            assert(placeholder(j)[6] == placeholder(k)[6]);
        }
    }
}

/// One pass of filling: text `a`, placeholder `p`, text `b` (no `{` in
/// either, nor in the value) becomes `a`, the value, `b` when the pass is
/// for `p`, and stays as it is for any other placeholder.
proof fn lemma_fill_pass(a: Seq<char>, p: Seq<char>, b: Seq<char>, q: Seq<char>, v: Seq<char>)
    requires
        is_placeholder(p),
        is_placeholder(q),
        brace_free(a),
        brace_free(b),
    ensures
        replace_all(a + p + b, q, v) == if p == q {
            a + v + b
        } else {
            a + p + b
        },
{
    assert(a + p + b =~= a + (p + b));
    lemma_replace_skips_brace_free(a, p + b, q, v);
    if p == q {
        lemma_replace_at_front(p, b, v);
        lemma_replace_without_brace(b, q, v);
        assert(a + (v + b) =~= a + v + b);
    } else {
        lemma_other_placeholder_stays(p, q, b, v);
    }
}

/// Text without `{` is left alone by every pass.
proof fn lemma_brace_free_concat(a: Seq<char>, v: Seq<char>, b: Seq<char>)
    requires
        brace_free(a),
        brace_free(v),
        brace_free(b),
    ensures
        brace_free(a + v + b),
{
    let s = a + v + b;
    assert forall|i: int| 0 <= i < s.len() implies s[i] != '{' by {
        if i < a.len() {
            assert(s[i] == a[i]);
        } else if i < a.len() + v.len() {
            assert(s[i] == v[i - a.len()]);
        } else {
            assert(s[i] == b[i - a.len() - v.len()]);
        }
    }
}

/// The text after the first `j` filling passes, for a template that is
/// `a`, placeholder `k`, `b`.
spec fn filled_after(a: Seq<char>, b: Seq<char>, k: int, ctx: EventContext, j: int) -> Seq<char> {
    if j <= k {
        a + placeholder(k) + b
    } else {
        a + placeholder_value(ctx, k) + b
    }
}

/// Pass `j` turns the text after `j` passes into the text after `j + 1`.
proof fn lemma_filled_step(a: Seq<char>, b: Seq<char>, k: int, ctx: EventContext, j: int)
    requires
        0 <= k < 6,
        0 <= j < 6,
        brace_free(a),
        brace_free(b),
        context_brace_free(ctx),
    ensures
        replace_all(filled_after(a, b, k, ctx, j), placeholder(j), placeholder_value(ctx, j))
            == filled_after(a, b, k, ctx, j + 1),
{
    lemma_placeholders(k);
    lemma_placeholders(j);
    let p = placeholder(k);
    let q = placeholder(j);
    let w = placeholder_value(ctx, j);
    if j <= k {
        lemma_fill_pass(a, p, b, q, w);
    } else {
        lemma_decimal_text_brace_free(ctx.reward_cost as int);
        let v = placeholder_value(ctx, k);
        lemma_brace_free_concat(a, v, b);
        lemma_replace_without_brace(a + v + b, q, w);
    }
}

/// Rendering fills a placeholder with its value: whatever the text around
/// it and the event's values (none holding a `{`), the placeholder is
/// replaced by exactly the event's value for it, the empty value
/// included, and the text around it is kept.
pub proof fn lemma_render_fills_placeholder(a: Seq<char>, b: Seq<char>, k: int, ctx: EventContext)
    requires
        0 <= k < 6,
        brace_free(a),
        brace_free(b),
        context_brace_free(ctx),
    ensures
        render_spec(a + placeholder(k) + b, ctx) == a + placeholder_value(ctx, k) + b,
{
    lemma_filled_step(a, b, k, ctx, 0);
    lemma_filled_step(a, b, k, ctx, 1);
    lemma_filled_step(a, b, k, ctx, 2);
    lemma_filled_step(a, b, k, ctx, 3);
    lemma_filled_step(a, b, k, ctx, 4);
    lemma_filled_step(a, b, k, ctx, 5);
}

/// A template that is just one placeholder renders to the event's value for
/// it, whatever that value is (the empty text included).
pub proof fn lemma_render_single_placeholder(k: int, ctx: EventContext)
    requires
        0 <= k < 6,
        context_brace_free(ctx),
    ensures
        render_spec(placeholder(k), ctx) == placeholder_value(ctx, k),
{
    let e = Seq::<char>::empty();
    assert(e + placeholder(k) + e =~= placeholder(k));
    assert(e + placeholder_value(ctx, k) + e =~= placeholder_value(ctx, k));
    lemma_render_fills_placeholder(e, e, k, ctx);
}

/// A chat message seen on a platform.
#[derive(Debug)]
pub struct ChatMessage {
    pub user_id: String,
    pub user_name: String,
    pub text: String,
}

/// A channel-points reward redeemed on a platform.
#[derive(Debug)]
pub struct RewardRedemption {
    pub user_id: String,
    pub user_name: String,
    pub reward_id: String,
    pub reward_title: String,
    pub reward_cost: i64,
    pub user_input: String,
    pub status: String,
}

/// What happened on a platform.
#[derive(Debug)]
pub enum PlatformEventPayload {
    ChatMessage(ChatMessage),
    RewardRedemption(RewardRedemption),
}

/// An event received from a platform, with its platform-side identifier.
#[derive(Debug)]
pub struct PlatformEvent {
    pub platform: PlatformId,
    pub event_id: String,
    pub payload: PlatformEventPayload,
}

impl PlatformEvent {
    pub fn chat_message(
        platform: PlatformId,
        event_id: &str,
        user_id: String,
        user_name: String,
        text: String,
    ) -> (r: Self)
        ensures
            r.platform == platform,
            r.event_id@ == event_id@,
            r.payload == PlatformEventPayload::ChatMessage(ChatMessage { user_id, user_name, text }),
    {
        PlatformEvent {
            platform,
            event_id: event_id.to_owned(),
            payload: PlatformEventPayload::ChatMessage(ChatMessage { user_id, user_name, text }),
        }
    }

    pub fn reward_redemption(
        platform: PlatformId,
        event_id: &str,
        user_id: String,
        user_name: String,
        reward_id: String,
        reward_title: String,
        reward_cost: i64,
        user_input: String,
        status: String,
    ) -> (r: Self)
        ensures
            r.platform == platform,
            r.event_id@ == event_id@,
            r.payload == PlatformEventPayload::RewardRedemption(
                RewardRedemption {
                    user_id,
                    user_name,
                    reward_id,
                    reward_title,
                    reward_cost,
                    user_input,
                    status,
                },
            ),
    {
        PlatformEvent {
            platform,
            event_id: event_id.to_owned(),
            payload: PlatformEventPayload::RewardRedemption(
                RewardRedemption {
                    user_id,
                    user_name,
                    reward_id,
                    reward_title,
                    reward_cost,
                    user_input,
                    status,
                },
            ),
        }
    }
}

/// The context a payload gives a template: a chat message fills the user
/// and the text, a redemption the user, the reward, its cost and the
/// viewer's input; everything else is empty or zero.
pub open spec fn context_of(p: PlatformEventPayload, c: EventContext) -> bool {
    match p {
        PlatformEventPayload::ChatMessage(m) => {
            &&& c.user_id@ == m.user_id@
            &&& c.user_name@ == m.user_name@
            &&& c.text@ == m.text@
            &&& c.reward_title@ == Seq::<char>::empty()
            &&& c.reward_cost == 0
            &&& c.user_input@ == Seq::<char>::empty()
        },
        PlatformEventPayload::RewardRedemption(r) => {
            &&& c.user_id@ == r.user_id@
            &&& c.user_name@ == r.user_name@
            &&& c.text@ == Seq::<char>::empty()
            &&& c.reward_title@ == r.reward_title@
            &&& c.reward_cost == r.reward_cost
            &&& c.user_input@ == r.user_input@
        },
    }
}

impl EventContext {
    /// The context of a platform event's payload.
    pub fn from(payload: &PlatformEventPayload) -> (r: Self)
        ensures
            context_of(*payload, r),
    {
        match payload {
            PlatformEventPayload::ChatMessage(msg) => EventContext {
                user_id: msg.user_id.clone(),
                user_name: msg.user_name.clone(),
                text: msg.text.clone(),
                reward_title: String::new(),
                reward_cost: 0,
                user_input: String::new(),
            },
            PlatformEventPayload::RewardRedemption(red) => EventContext {
                user_id: red.user_id.clone(),
                user_name: red.user_name.clone(),
                text: String::new(),
                reward_title: red.reward_title.clone(),
                reward_cost: red.reward_cost,
                user_input: red.user_input.clone(),
            },
        }
    }
}

/// An action that fired for a platform event, with the context the event
/// gives it.
#[derive(Debug)]
pub struct ActionEvent {
    pub source: Arc<PlatformEvent>,
    pub action_id: ActionId,
    pub kind: ActionKind,
    pub ctx: EventContext,
}

impl ActionEvent {
    /// Pairs an action with the event that fired it.
    pub fn from_action(action: Arc<Action>, source: Arc<PlatformEvent>) -> (r: Self)
        ensures
            r.source == source,
            r.action_id == action.id,
            r.kind == action.kind,
            context_of(source.payload, r.ctx),
    {
        let ctx = EventContext::from(&source.payload);
        ActionEvent { source, action_id: action.id, kind: action.kind.clone(), ctx }
    }
}

} // verus!
