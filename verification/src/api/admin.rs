//! Bodies and parameters of the admin endpoints.

use vstd::prelude::*;

use crate::action::{Action, ActionKind};
use crate::admin::{
    is_admin_in, is_root_in, other_admins, root_count, twitch_ids_unique, Admin, AdminService,
};
use crate::error::AdminServiceError;
use crate::auth::ExchangedToken;
use crate::catalog::{Rarity, RouletteSlot};
use crate::clock::{rfc3339_text, to_rfc3339};
use crate::ids::{ActionId, RarityId, RouletteSlotId};
use crate::rules::{referenced_reward, reward_used_in_rules, Rule, RuleConditions, RuleTrigger};

verus! {

/// An admin, as listed.
#[derive(Debug)]
pub struct AdminResponse {
    pub twitch_id: String,
    pub display_name: Option<String>,
    pub is_root: bool,
    pub created_at: String,
}

impl AdminResponse {
    pub fn from(admin: Admin) -> (r: Self)
        ensures
            r.twitch_id == admin.twitch_id,
            r.display_name == admin.display_name,
            r.is_root == admin.is_root,
            r.created_at@ == rfc3339_text(admin.created_at),
    {
        let created_at = to_rfc3339(admin.created_at);
        AdminResponse {
            twitch_id: admin.twitch_id,
            display_name: admin.display_name,
            is_root: admin.is_root,
            created_at,
        }
    }
}

/// A request to make someone an admin.
#[derive(Debug)]
pub struct AddAdminRequest {
    pub twitch_id: String,
    pub display_name: Option<String>,
}

/// An admin named in a path.
#[derive(Debug)]
pub struct TwitchIdParam {
    pub twitch_id: String,
}

/// The widget access key.
#[derive(Debug)]
pub struct WidgetAccessKeyResponse {
    pub widget_access_key: String,
}

/// An action, as listed.
#[derive(Debug)]
pub struct ActionResponse {
    pub id: u32,
    pub name: String,
    pub kind: ActionKind,
    pub enabled: bool,
    pub created_at: String,
    pub updated_at: String,
}

impl ActionResponse {
    pub fn from(action: Action) -> (r: Self)
        ensures
            r.id == action.id.0,
            r.name == action.name,
            r.kind == action.kind,
            r.enabled == action.enabled,
            r.created_at@ == rfc3339_text(action.created_at),
            r.updated_at@ == rfc3339_text(action.updated_at),
    {
        let created_at = to_rfc3339(action.created_at);
        let updated_at = to_rfc3339(action.updated_at);
        ActionResponse {
            id: action.id.get(),
            name: action.name,
            kind: action.kind,
            enabled: action.enabled,
            created_at,
            updated_at,
        }
    }
}

/// A request to create or replace an action.
#[derive(Debug)]
pub struct UpsertActionRequest {
    pub name: String,
    pub kind: ActionKind,
    pub enabled: bool,
}

/// An action named in a path.
#[derive(Debug)]
pub struct ActionIdParam {
    pub id: u32,
}

/// Whether the bot credentials are stored.
#[derive(Debug)]
pub struct IngressCredentialsResponse {
    pub configured: bool,
}

/// A channel-points reward of the broadcaster.
#[derive(Debug)]
pub struct RewardResponse {
    pub id: String,
    pub title: String,
    pub cost: u64,
    pub is_enabled: bool,
    pub is_paused: bool,
    pub used_in_rules: bool,
}

/// Removes the admin `twitch_id` on behalf of the signed-in admin
/// `requester`: nobody removes their own account; otherwise as
/// `AdminService::remove` (unknown admin, last root admin).
pub fn remove_admin(admins: &mut AdminService, requester: &str, twitch_id: &str) -> (r: Result<
    (),
    AdminServiceError,
>)
    ensures
        requester@ == twitch_id@ ==> {
            &&& r matches Err(AdminServiceError::CannotRemoveSelf)
            &&& final(admins).admins() == old(admins).admins()
        },
        requester@ != twitch_id@ && !is_admin_in(old(admins).admins(), twitch_id@) ==> {
            &&& r matches Err(AdminServiceError::AdminNotFound)
            &&& final(admins).admins() == old(admins).admins()
        },
        requester@ != twitch_id@ && is_root_in(old(admins).admins(), twitch_id@) && root_count(
            old(admins).admins(),
        ) <= 1 ==> {
            &&& r matches Err(AdminServiceError::CannotRemoveLastRoot)
            &&& final(admins).admins() == old(admins).admins()
        },
        requester@ != twitch_id@ && is_admin_in(old(admins).admins(), twitch_id@) && !(is_root_in(
            old(admins).admins(),
            twitch_id@,
        ) && root_count(old(admins).admins()) <= 1) ==> {
            &&& r is Ok
            &&& final(admins).admins() == old(admins).admins().filter(other_admins(twitch_id@))
        },
        twitch_ids_unique(old(admins).admins()) ==> twitch_ids_unique(final(admins).admins()),
{
    if crate::text::eq_str(&requester.to_owned(), twitch_id) {
        return Err(AdminServiceError::CannotRemoveSelf);
    }
    admins.remove(twitch_id)
}

/// A channel-points reward as Twitch reports it.
#[derive(Debug)]
pub struct CustomReward {
    pub id: String,
    pub title: String,
    pub cost: u64,
    pub is_enabled: bool,
    pub is_paused: bool,
}

/// Whether some rule listens for the reward `id`.
pub open spec fn reward_in_rules(rules: Seq<Rule>, id: Seq<char>) -> bool {
    exists|i: int| 0 <= i < rules.len() && #[trigger] referenced_reward(rules[i]) == Some(id)
}

/// Whether `r` lists `reward`, marked with whether a rule uses it.
pub open spec fn lists_reward(r: RewardResponse, reward: CustomReward, rules: Seq<Rule>) -> bool {
    &&& r.id == reward.id
    &&& r.title == reward.title
    &&& r.cost == reward.cost
    &&& r.is_enabled == reward.is_enabled
    &&& r.is_paused == reward.is_paused
    &&& r.used_in_rules == reward_in_rules(rules, reward.id@)
}

/// The broadcaster's rewards, in their order, each marked with whether a
/// rule listens for it.
pub fn reward_responses(rewards: &Vec<CustomReward>, rules: &Vec<Rule>) -> (r: Vec<RewardResponse>)
    ensures
        r@.len() == rewards@.len(),
        forall|i: int| 0 <= i < r@.len() ==> lists_reward(#[trigger] r@[i], rewards@[i], rules@),
{
    let mut out: Vec<RewardResponse> = Vec::new();
    let n = rewards.len();
    let mut i: usize = 0;
    while i < n
        invariant
            n == rewards@.len(),
            i <= n,
            out@.len() == i,
            forall|k: int| 0 <= k < i ==> lists_reward(#[trigger] out@[k], rewards@[k], rules@),
        decreases n - i,
    {
        let reward = &rewards[i];
        let used = reward_used_in_rules(rules, reward.id.as_str());
        out.push(RewardResponse {
            id: reward.id.clone(),
            title: reward.title.clone(),
            cost: reward.cost,
            is_enabled: reward.is_enabled,
            is_paused: reward.is_paused,
            used_in_rules: used,
        });
        i += 1;
    }
    out
}

/// What the listing of the broadcaster's rewards answers, given what each
/// of its steps found, in order: Twitch configured with a broadcaster (else
/// 400), a user token for the broadcaster (else 401), the rewards Twitch
/// returned (else 502), the rules (else 500); with all of them, the
/// rewards marked with whether a rule uses them.
pub fn list_rewards(
    configured: bool,
    has_token: bool,
    fetched: Option<Vec<CustomReward>>,
    rules: Option<Vec<Rule>>,
) -> (r: Result<Vec<RewardResponse>, u16>)
    ensures
        !configured ==> r == Err::<Vec<RewardResponse>, u16>(400),
        configured && !has_token ==> r == Err::<Vec<RewardResponse>, u16>(401),
        configured && has_token && fetched is None ==> r == Err::<Vec<RewardResponse>, u16>(502),
        configured && has_token && fetched is Some && rules is None ==> r == Err::<
            Vec<RewardResponse>,
            u16,
        >(500),
        configured && has_token && fetched is Some && rules is Some ==> (r matches Ok(v) && {
            let rewards = fetched->0@;
            &&& v@.len() == rewards.len()
            &&& forall|i: int|
                0 <= i < v@.len() ==> lists_reward(#[trigger] v@[i], rewards[i], rules->0@)
        }),
{
    if !configured {
        return Err(400);
    }
    if !has_token {
        return Err(401);
    }
    let rewards = match fetched {
        Some(v) => v,
        None => return Err(502),
    };
    let rules = match rules {
        Some(v) => v,
        None => return Err(500),
    };
    Ok(reward_responses(&rewards, &rules))
}

/// A roulette slot, as listed.
#[derive(Debug)]
pub struct RouletteSlotResponse {
    pub id: RouletteSlotId,
    pub name: String,
    pub rarity_id: RarityId,
    pub weight: u64,
    pub action: String,
}

impl RouletteSlotResponse {
    pub fn from(slot: RouletteSlot) -> (r: Self)
        ensures
            r == (RouletteSlotResponse {
                id: slot.id,
                name: slot.name,
                rarity_id: slot.rarity_id,
                weight: slot.weight,
                action: slot.action,
            }),
    {
        RouletteSlotResponse {
            id: slot.id,
            name: slot.name,
            rarity_id: slot.rarity_id,
            weight: slot.weight,
            action: slot.action,
        }
    }
}

/// A request to create or replace a roulette slot.
#[derive(Debug)]
pub struct UpsertRouletteSlotRequest {
    pub name: String,
    pub rarity_id: RarityId,
    pub weight: u64,
    pub action: String,
}

/// A roulette slot named in a path.
#[derive(Debug)]
pub struct SlotIdParam {
    pub id: RouletteSlotId,
}

/// A rarity, as listed.
#[derive(Debug)]
pub struct RarityResponse {
    pub id: RarityId,
    pub name: String,
    pub display_name: String,
    pub image: String,
    pub color: String,
}

impl RarityResponse {
    pub fn from(rarity: Rarity) -> (r: Self)
        ensures
            r == (RarityResponse {
                id: rarity.id,
                name: rarity.name,
                display_name: rarity.display_name,
                image: rarity.image,
                color: rarity.color,
            }),
    {
        RarityResponse {
            id: rarity.id,
            name: rarity.name,
            display_name: rarity.display_name,
            image: rarity.image,
            color: rarity.color,
        }
    }
}

/// A request to create or replace a rarity.
#[derive(Debug)]
pub struct UpsertRarityRequest {
    pub name: String,
    pub display_name: String,
    pub image: String,
    pub color: String,
}

/// A rarity named in a path.
#[derive(Debug)]
pub struct RarityIdParam {
    pub id: RarityId,
}

/// A rule, as listed.
#[derive(Debug)]
pub struct RuleResponse {
    pub id: u32,
    pub name: String,
    pub enabled: bool,
    pub trigger: RuleTrigger,
    pub conditions: RuleConditions,
    pub action_id: u32,
    pub created_at: String,
    pub updated_at: String,
}

impl RuleResponse {
    pub fn from(rule: Rule) -> (r: Self)
        ensures
            r.id == rule.id.0,
            r.name == rule.name,
            r.enabled == rule.enabled,
            r.trigger == rule.trigger,
            r.conditions == rule.conditions,
            r.action_id == rule.action_id.0,
            r.created_at@ == rfc3339_text(rule.created_at),
            r.updated_at@ == rfc3339_text(rule.updated_at),
    {
        let created_at = to_rfc3339(rule.created_at);
        let updated_at = to_rfc3339(rule.updated_at);
        RuleResponse {
            id: rule.id.get(),
            name: rule.name,
            enabled: rule.enabled,
            trigger: rule.trigger,
            conditions: rule.conditions,
            action_id: rule.action_id.get(),
            created_at,
            updated_at,
        }
    }
}

/// A request to create or replace a rule.
#[derive(Debug)]
pub struct UpsertRuleRequest {
    pub name: String,
    pub enabled: bool,
    pub trigger: RuleTrigger,
    pub conditions: RuleConditions,
    pub action_id: ActionId,
}

/// A rule named in a path.
#[derive(Debug)]
pub struct RuleIdParam {
    pub id: u32,
}

/// Where to send the admin to authorise the bot.
#[derive(Debug)]
pub struct TwitchAuthStartResponse {
    pub auth_url: String,
}

/// What Twitch hands the bot-authorisation callback.
#[derive(Debug)]
pub struct TwitchAuthCallbackQuery {
    pub code: String,
    pub state: String,
}

/// Who authorised the bot.
#[derive(Debug)]
pub struct TwitchAuthCallbackResponse {
    pub user_id: String,
    pub user_name: Option<String>,
}

impl TwitchAuthCallbackResponse {
    pub fn from(token: ExchangedToken) -> (r: Self)
        ensures
            r.user_id == token.user_id,
            r.user_name == token.user_name,
    {
        TwitchAuthCallbackResponse { user_id: token.user_id, user_name: token.user_name }
    }
}

/// A search for a Twitch user by login.
#[derive(Debug)]
pub struct TwitchUserSearchQuery {
    pub login: String,
}

/// A Twitch user found by login.
#[derive(Debug)]
pub struct TwitchUserResponse {
    pub id: String,
    pub login: String,
    pub display_name: String,
}

} // verus!
