//! Rule management: the checks a rule passes before it is stored.

use vstd::prelude::*;

use crate::action_store::{has_action, ActionService};
use crate::error::RuleServiceError;
use crate::ids::{ActionId, RuleId};
use crate::rules::{
    has_rule, matcher_name, rule_other_than, rule_updated, is_first_rule, InMemoryRuleRepository,
    MessageMatcher, Rule, RuleConditions, RuleTrigger,
};

verus! {

/// The matcher of a chat rule that has no pattern to compare with, if
/// any: every matcher but `Any` needs one.
pub open spec fn missing_pattern(c: RuleConditions) -> Option<MessageMatcher> {
    match c {
        RuleConditions::ChatMessage(m) => if m.matcher != MessageMatcher::Any && m.pattern is None {
            Some(m.matcher)
        } else {
            None
        },
        RuleConditions::RewardRedemption(_) => None,
    }
}

/// The error conditions are refused with, if they are.
pub open spec fn conditions_error(c: RuleConditions) -> Option<Seq<char>> {
    match missing_pattern(c) {
        Some(m) => Some(matcher_name(m)),
        None => None,
    }
}

/// Refuses chat conditions whose matcher has no pattern.
pub fn check_conditions(c: &RuleConditions) -> (r: Result<(), RuleServiceError>)
    ensures
        match conditions_error(*c) {
            Some(name) => r matches Err(RuleServiceError::MissingPattern(m)) && m@ == name,
            None => r is Ok,
        },
{
    match c {
        RuleConditions::ChatMessage(m) => {
            let needs_pattern = match m.matcher {
                MessageMatcher::Any => false,
                _ => true,
            };
            if needs_pattern && m.pattern.is_none() {
                Err(RuleServiceError::MissingPattern(m.matcher.name()))
            } else {
                Ok(())
            }
        },
        RuleConditions::RewardRedemption(_) => Ok(()),
    }
}

/// Whether `r` is how these conditions and this action are refused,
/// checked in that order: a missing pattern, then an unknown action.
pub open spec fn refused_as(
    r: RuleServiceError,
    actions: ActionService,
    conditions: RuleConditions,
    action_id: ActionId,
) -> bool {
    match conditions_error(conditions) {
        Some(name) => r matches RuleServiceError::MissingPattern(m) && m@ == name,
        None => !has_action(actions.repo().entries(), action_id) && r is ActionNotFound,
    }
}

/// Whether these conditions and action pass the checks.
pub open spec fn accepted(actions: ActionService, conditions: RuleConditions, action_id: ActionId) -> bool {
    conditions_error(conditions) is None && has_action(actions.repo().entries(), action_id)
}

/// Rules checked against the actions they fire before they are stored.
pub struct RuleService {
    repo: InMemoryRuleRepository,
}

impl RuleService {
    /// The stored rules.
    pub closed spec fn rules(&self) -> Seq<Rule> {
        self.repo.entries()
    }

    /// The id the next rule gets.
    pub closed spec fn next_id(&self) -> u32 {
        self.repo.next_id()
    }

    /// Ids strictly increase and stay below the next id.
    pub closed spec fn wf(&self) -> bool {
        self.repo.wf()
    }

    pub fn new(repo: InMemoryRuleRepository) -> (r: Self)
        ensures
            r.rules() == repo.entries(),
            r.next_id() == repo.next_id(),
            r.wf() == repo.wf(),
    {
        RuleService { repo }
    }

    /// Every rule, in the order they were created.
    pub fn list(&self) -> (r: Result<Vec<Rule>, RuleServiceError>)
        ensures
            r matches Ok(v) && v@ == self.rules(),
    {
        match self.repo.list() {
            Ok(v) => Ok(v),
            Err(e) => Err(RuleServiceError::Repo(e)),
        }
    }

    /// The rule with the id, if any.
    pub fn get(&self, id: RuleId) -> (r: Result<Option<Rule>, RuleServiceError>)
        ensures
            r matches Ok(v) && match v {
                Some(a) => exists|i: int| is_first_rule(self.rules(), id, i) && a == self.rules()[i],
                None => !has_rule(self.rules(), id),
            },
    {
        match self.repo.get_by_id(id) {
            Ok(v) => {
                proof {
                    if v is Some {
                        let a = v->0;
                        let i = choose|i: int|
                            is_first_rule(self.repo.entries(), id, i) && a == self.repo.entries()[i];
                        assert(is_first_rule(self.rules(), id, i) && a == self.rules()[i]);
                    }
                }
                Ok(v)
            },
            Err(e) => Err(RuleServiceError::Repo(e)),
        }
    }

    /// Checks the conditions and the action, then stores a new rule.
    pub fn create(
        &mut self,
        actions: &ActionService,
        name: &str,
        enabled: bool,
        trigger: RuleTrigger,
        conditions: RuleConditions,
        action_id: ActionId,
    ) -> (r: Result<Rule, RuleServiceError>)
        ensures
            !accepted(*actions, conditions, action_id) ==> {
                &&& r matches Err(e) && refused_as(e, *actions, conditions, action_id)
                &&& final(self).rules() == old(self).rules()
                &&& final(self).next_id() == old(self).next_id()
            },
            accepted(*actions, conditions, action_id) ==> {
                &&& r matches Ok(a) && {
                    &&& a.id.0 == old(self).next_id()
                    &&& a.name@ == name@
                    &&& a.enabled == enabled
                    &&& a.trigger == trigger
                    &&& a.conditions == conditions
                    &&& a.action_id == action_id
                    &&& a.created_at == a.updated_at
                    &&& final(self).rules() == old(self).rules().push(a)
                }
                &&& final(self).next_id() == old(self).next_id().wrapping_add(1)
            },
            old(self).wf() && old(self).next_id() < u32::MAX ==> final(self).wf(),
    {
        match check_conditions(&conditions) {
            Err(e) => return Err(e),
            Ok(()) => {},
        }
        match actions.get(action_id) {
            Ok(Some(_)) => {},
            Ok(None) => return Err(RuleServiceError::ActionNotFound),
            Err(e) => return Err(RuleServiceError::from_action_error(e)),
        }
        match self.repo.create(name, enabled, trigger, conditions, action_id) {
            Ok(a) => Ok(a),
            Err(e) => Err(RuleServiceError::Repo(e)),
        }
    }

    /// Checks the conditions and the action, then replaces the stored rule
    /// with the same id, keeping its creation time; `RuleNotFound` when
    /// there is none.
    pub fn update(&mut self, actions: &ActionService, rule: Rule) -> (r: Result<Rule, RuleServiceError>)
        ensures
            final(self).next_id() == old(self).next_id(),
            !accepted(*actions, rule.conditions, rule.action_id) ==> {
                &&& r matches Err(e) && refused_as(e, *actions, rule.conditions, rule.action_id)
                &&& final(self).rules() == old(self).rules()
            },
            accepted(*actions, rule.conditions, rule.action_id) && !has_rule(old(self).rules(), rule.id)
                ==> {
                &&& r matches Err(RuleServiceError::RuleNotFound)
                &&& final(self).rules() == old(self).rules()
            },
            accepted(*actions, rule.conditions, rule.action_id) && has_rule(old(self).rules(), rule.id)
                ==> (r matches Ok(x) && exists|i: int, now: i64|
                is_first_rule(old(self).rules(), rule.id, i) && x == rule_updated(
                    old(self).rules()[i],
                    rule,
                    now,
                ) && final(self).rules() == old(self).rules().update(i, x)),
            old(self).wf() ==> final(self).wf(),
    {
        match check_conditions(&rule.conditions) {
            Err(e) => return Err(e),
            Ok(()) => {},
        }
        match actions.get(rule.action_id) {
            Ok(Some(_)) => {},
            Ok(None) => return Err(RuleServiceError::ActionNotFound),
            Err(e) => return Err(RuleServiceError::from_action_error(e)),
        }
        match self.repo.update(rule) {
            Ok(Some(x)) => Ok(x),
            Ok(None) => Err(RuleServiceError::RuleNotFound),
            Err(e) => Err(RuleServiceError::Repo(e)),
        }
    }

    /// Removes the rule with the id; `RuleNotFound` when there is none.
    pub fn delete(&mut self, id: RuleId) -> (r: Result<(), RuleServiceError>)
        ensures
            final(self).next_id() == old(self).next_id(),
            final(self).rules() == old(self).rules().filter(rule_other_than(id)),
            has_rule(old(self).rules(), id) ==> r is Ok,
            !has_rule(old(self).rules(), id) ==> r matches Err(RuleServiceError::RuleNotFound),
            old(self).wf() ==> final(self).wf(),
    {
        match self.repo.delete(id) {
            Ok(true) => Ok(()),
            Ok(false) => Err(RuleServiceError::RuleNotFound),
            Err(e) => Err(RuleServiceError::Repo(e)),
        }
    }
}

} // verus!
