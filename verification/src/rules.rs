//! Rules: which platform events fire which action, kept in memory.

use vstd::prelude::*;

use crate::clock::now_micros;
use crate::error::RepositoryError;
use crate::ids::{ActionId, RuleId};

verus! {

/// The kind of platform event a rule listens to.
#[derive(Debug, Clone, Copy, PartialEq, Eq, Structural)]
pub enum RuleTrigger {
    ChatMessage,
    RewardRedemption,
}

/// How a chat rule matches a message against its pattern.
#[derive(Debug, Clone, Copy, PartialEq, Eq, Structural)]
pub enum MessageMatcher {
    Any,
    Equals,
    Contains,
}

/// The name a matcher goes by.
pub open spec fn matcher_name(m: MessageMatcher) -> Seq<char> {
    match m {
        MessageMatcher::Any => "any"@,
        MessageMatcher::Equals => "equals"@,
        MessageMatcher::Contains => "contains"@,
    }
}

impl MessageMatcher {
    /// The name this matcher goes by.
    pub fn name(&self) -> (r: String)
        ensures
            r@ == matcher_name(*self),
    {
        match self {
            MessageMatcher::Any => String::from_str("any"),
            MessageMatcher::Equals => String::from_str("equals"),
            MessageMatcher::Contains => String::from_str("contains"),
        }
    }
}

/// What a chat message must hold for a rule to fire.
#[derive(Debug, PartialEq, Eq)]
pub struct MessageConditions {
    pub matcher: MessageMatcher,
    pub pattern: Option<String>,
}

/// Which reward a redemption rule fires for; `None` for any reward.
#[derive(Debug, PartialEq, Eq)]
pub struct RewardConditions {
    pub reward_id: Option<String>,
}

/// The conditions of a rule, by trigger.
#[derive(Debug, PartialEq, Eq)]
pub enum RuleConditions {
    ChatMessage(MessageConditions),
    RewardRedemption(RewardConditions),
}

fn clone_opt(s: &Option<String>) -> (r: Option<String>)
    ensures
        r == *s,
{
    match s {
        Some(v) => Some(v.clone()),
        None => None,
    }
}

impl Clone for RuleConditions {
    fn clone(&self) -> (r: Self)
        ensures
            r == *self,
    {
        match self {
            RuleConditions::ChatMessage(c) => RuleConditions::ChatMessage(
                MessageConditions { matcher: c.matcher, pattern: clone_opt(&c.pattern) },
            ),
            RuleConditions::RewardRedemption(c) => RuleConditions::RewardRedemption(
                RewardConditions { reward_id: clone_opt(&c.reward_id) },
            ),
        }
    }
}

/// A rule: when its trigger fires and its conditions hold, its action
/// runs. Timestamps are microseconds since the epoch.
#[derive(Debug)]
pub struct Rule {
    pub id: RuleId,
    pub name: String,
    pub enabled: bool,
    pub trigger: RuleTrigger,
    pub conditions: RuleConditions,
    pub action_id: ActionId,
    pub created_at: i64,
    pub updated_at: i64,
}

impl Clone for Rule {
    fn clone(&self) -> (r: Self)
        ensures
            r == *self,
    {
        Rule {
            id: self.id,
            name: self.name.clone(),
            enabled: self.enabled,
            trigger: self.trigger,
            conditions: self.conditions.clone(),
            action_id: self.action_id,
            created_at: self.created_at,
            updated_at: self.updated_at,
        }
    }
}

/// The reward a rule listens for, if it names one.
pub open spec fn referenced_reward(rule: Rule) -> Option<Seq<char>> {
    match rule.conditions {
        RuleConditions::RewardRedemption(c) => match c.reward_id {
            Some(id) => Some(id@),
            None => None,
        },
        RuleConditions::ChatMessage(_) => None,
    }
}

impl Rule {
    /// The reward this rule listens for, if it names one.
    pub fn referenced_reward_id(&self) -> (r: Option<&str>)
        ensures
            match r {
                Some(s) => referenced_reward(*self) == Some(s@),
                None => referenced_reward(*self) is None,
            },
    {
        match &self.conditions {
            RuleConditions::RewardRedemption(c) => match &c.reward_id {
                Some(id) => Some(id.as_str()),
                None => None,
            },
            RuleConditions::ChatMessage(_) => None,
        }
    }
}

/// Whether some rule listens for the reward.
pub fn reward_used_in_rules(rules: &Vec<Rule>, reward_id: &str) -> (r: bool)
    ensures
        r == exists|i: int|
            0 <= i < rules@.len() && #[trigger] referenced_reward(rules@[i]) == Some(reward_id@),
{
    let mut i: usize = 0;
    while i < rules.len()
        invariant
            i <= rules@.len(),
            forall|k: int| 0 <= k < i ==> #[trigger] referenced_reward(rules@[k]) != Some(reward_id@),
        decreases rules@.len() - i,
    {
        match rules[i].referenced_reward_id() {
            Some(id) => {
                if crate::text::eq_str(&id.to_owned(), reward_id) {
                    return true;
                }
            },
            None => {},
        }
        i += 1;
    }
    false
}

/// Ids strictly increase along the sequence and stay below `next`.
pub open spec fn rule_ids_ordered(s: Seq<Rule>, next: u32) -> bool {
    &&& forall|i: int, j: int| 0 <= i < j < s.len() ==> s[i].id.0 < s[j].id.0
    &&& forall|i: int| 0 <= i < s.len() ==> s[i].id.0 < next
}

/// Whether `i` is the first position of a rule with the given id.
pub open spec fn is_first_rule(s: Seq<Rule>, id: RuleId, i: int) -> bool {
    0 <= i < s.len() && s[i].id == id && forall|j: int| 0 <= j < i ==> s[j].id != id
}

/// Whether some rule has the given id.
pub open spec fn has_rule(s: Seq<Rule>, id: RuleId) -> bool {
    exists|i: int| 0 <= i < s.len() && #[trigger] s[i].id == id
}

/// Whether a rule has another id than `id`.
pub open spec fn rule_other_than(id: RuleId) -> spec_fn(Rule) -> bool {
    |a: Rule| a.id != id
}

/// `a` as an update of `stored` at `now`: the new content, the old
/// creation time, the new modification time.
pub open spec fn rule_updated(stored: Rule, a: Rule, now: i64) -> Rule {
    Rule { created_at: stored.created_at, updated_at: now, ..a }
}

/// Rules in memory, numbered from one.
pub struct InMemoryRuleRepository {
    rules: Vec<Rule>,
    next_id: u32,
}

impl InMemoryRuleRepository {
    pub closed spec fn entries(&self) -> Seq<Rule> {
        self.rules@
    }

    pub closed spec fn next_id(&self) -> u32 {
        self.next_id
    }

    pub open spec fn wf(&self) -> bool {
        rule_ids_ordered(self.entries(), self.next_id())
    }

    pub fn new() -> (r: Self)
        ensures
            r.entries() == Seq::<Rule>::empty(),
            r.next_id() == 1,
            r.wf(),
    {
        InMemoryRuleRepository { rules: Vec::new(), next_id: 1 }
    }

    /// Adds a rule under the next id, stamped now.
    pub fn create(
        &mut self,
        name: &str,
        enabled: bool,
        trigger: RuleTrigger,
        conditions: RuleConditions,
        action_id: ActionId,
    ) -> (r: Result<Rule, RepositoryError>)
        ensures
            r matches Ok(a) && {
                &&& a.id.0 == old(self).next_id()
                &&& a.name@ == name@
                &&& a.enabled == enabled
                &&& a.trigger == trigger
                &&& a.conditions == conditions
                &&& a.action_id == action_id
                &&& a.created_at == a.updated_at
                &&& final(self).entries() == old(self).entries().push(a)
            },
            final(self).next_id() == old(self).next_id().wrapping_add(1),
            old(self).wf() && old(self).next_id() < u32::MAX ==> final(self).wf(),
    {
        let id = self.next_id;
        self.next_id = self.next_id.wrapping_add(1);
        let now = now_micros();
        let rule = Rule {
            id: RuleId::new(id),
            name: name.to_owned(),
            enabled,
            trigger,
            conditions,
            action_id,
            created_at: now,
            updated_at: now,
        };
        self.rules.push(rule.clone());
        Ok(rule)
    }

    fn position(&self, id: RuleId) -> (r: Option<usize>)
        ensures
            match r {
                Some(i) => is_first_rule(self.entries(), id, i as int),
                None => !has_rule(self.entries(), id),
            },
    {
        let mut i: usize = 0;
        while i < self.rules.len()
            invariant
                i <= self.rules@.len(),
                forall|j: int| 0 <= j < i ==> self.rules@[j].id != id,
            decreases self.rules@.len() - i,
        {
            if self.rules[i].id.0 == id.0 {
                return Some(i);
            }
            i += 1;
        }
        None
    }

    /// The first rule with the id, if any.
    pub fn get_by_id(&self, id: RuleId) -> (r: Result<Option<Rule>, RepositoryError>)
        ensures
            r matches Ok(v) && match v {
                Some(a) => exists|i: int| is_first_rule(self.entries(), id, i) && a == self.entries()[i],
                None => !has_rule(self.entries(), id),
            },
    {
        match self.position(id) {
            Some(i) => Ok(Some(self.rules[i].clone())),
            None => Ok(None),
        }
    }

    /// Every rule, in the order they were created.
    pub fn list(&self) -> (r: Result<Vec<Rule>, RepositoryError>)
        ensures
            r matches Ok(v) && v@ == self.entries(),
    {
        let mut out: Vec<Rule> = Vec::new();
        let mut i: usize = 0;
        while i < self.rules.len()
            invariant
                i <= self.rules@.len(),
                out@ == self.rules@.take(i as int),
            decreases self.rules@.len() - i,
        {
            out.push(self.rules[i].clone());
            proof {
                assert(self.rules@.take(i + 1) == self.rules@.take(i as int).push(
                    self.rules@[i as int],
                ));
            }
            i += 1;
        }
        proof {
            assert(self.rules@.take(i as int) == self.rules@);
        }
        Ok(out)
    }

    /// Replaces the first rule with the same id at `now`, keeping its
    /// creation time; `None` when there is none.
    pub fn update_at(&mut self, rule: Rule, now: i64) -> (r: Result<Option<Rule>, RepositoryError>)
        ensures
            final(self).next_id() == old(self).next_id(),
            r matches Ok(v) && match v {
                Some(x) => exists|i: int|
                    is_first_rule(old(self).entries(), rule.id, i) && x == rule_updated(
                        old(self).entries()[i],
                        rule,
                        now,
                    ) && final(self).entries() == old(self).entries().update(i, x),
                None => !has_rule(old(self).entries(), rule.id) && final(self).entries()
                    == old(self).entries(),
            },
            old(self).wf() ==> final(self).wf(),
    {
        match self.position(rule.id) {
            Some(i) => {
                let created_at = self.rules[i].created_at;
                let stored = Rule { created_at, updated_at: now, ..rule };
                let ghost before = self.rules@;
                self.rules.set(i, stored.clone());
                proof {
                    assert(is_first_rule(before, rule.id, i as int));
                    assert(stored == rule_updated(before[i as int], rule, now));
                    if rule_ids_ordered(before, self.next_id) {
                        assert forall|a: int, b: int|
                            0 <= a < b < self.rules@.len() implies self.rules@[a].id.0
                            < self.rules@[b].id.0 by {
                            assert(before[a].id.0 < before[b].id.0);
                        }
                    }
                }
                Ok(Some(stored))
            },
            None => Ok(None),
        }
    }

    /// Replaces the first rule with the same id, stamped now.
    pub fn update(&mut self, rule: Rule) -> (r: Result<Option<Rule>, RepositoryError>)
        ensures
            final(self).next_id() == old(self).next_id(),
            r matches Ok(v) && match v {
                Some(x) => exists|i: int, now: i64|
                    is_first_rule(old(self).entries(), rule.id, i) && x == rule_updated(
                        old(self).entries()[i],
                        rule,
                        now,
                    ) && final(self).entries() == old(self).entries().update(i, x),
                None => !has_rule(old(self).entries(), rule.id) && final(self).entries()
                    == old(self).entries(),
            },
            old(self).wf() ==> final(self).wf(),
    {
        let now = now_micros();
        self.update_at(rule, now)
    }

    /// Removes every rule with the id; reports whether there was one.
    pub fn delete(&mut self, id: RuleId) -> (r: Result<bool, RepositoryError>)
        ensures
            final(self).next_id() == old(self).next_id(),
            final(self).entries() == old(self).entries().filter(rule_other_than(id)),
            r matches Ok(b) && b == has_rule(old(self).entries(), id),
            old(self).wf() ==> final(self).wf(),
    {
        let ghost s = self.rules@;
        let mut kept: Vec<Rule> = Vec::new();
        let mut found = false;
        let mut i: usize = 0;
        let n = self.rules.len();
        while i < n
            invariant
                i <= n,
                n == s.len(),
                s == self.rules@,
                self.next_id == old(self).next_id,
                s == old(self).rules@,
                kept@ == s.take(i as int).filter(rule_other_than(id)),
                found == has_rule(s.take(i as int), id),
            decreases n - i,
        {
            proof {
                crate::seqs::lemma_take_one_more_filter(s, i as int, rule_other_than(id));
            }
            if self.rules[i].id.0 == id.0 {
                found = true;
            } else {
                kept.push(self.rules[i].clone());
            }
            proof {
                assert(s.take(i + 1)[i as int] == s[i as int]);
                assert forall|j: int| 0 <= j < i implies #[trigger] s.take(i + 1)[j] == s.take(
                    i as int,
                )[j] by {}
                if has_rule(s.take(i + 1), id) && !has_rule(s.take(i as int), id) {
                    let j = choose|j: int| 0 <= j < i + 1 && #[trigger] s.take(i + 1)[j].id == id;
                    assert(j == i);
                }
            }
            i += 1;
        }
        proof {
            assert(s.take(n as int) == s);
            lemma_filter_keeps_rule_order(s, rule_other_than(id), self.next_id);
        }
        self.rules = kept;
        Ok(found)
    }
}

/// Filtering keeps the ids ordered and below the next id.
pub proof fn lemma_filter_keeps_rule_order(s: Seq<Rule>, pred: spec_fn(Rule) -> bool, next: u32)
    ensures
        rule_ids_ordered(s, next) ==> rule_ids_ordered(s.filter(pred), next),
    decreases s.len(),
{
    if s.len() > 0 && rule_ids_ordered(s, next) {
        let init = s.drop_last();
        lemma_filter_keeps_rule_order(init, pred, next);
        assert(s == init.push(s.last()));
        init.lemma_filter_push(s.last(), pred);
        let f = init.filter(pred);
        assert forall|i: int| 0 <= i < f.len() implies #[trigger] f[i].id.0 < s.last().id.0 by {
            assert(f.contains(f[i]));
            init.lemma_filter_contains_rev(pred, f[i]);
            let j = choose|j: int| 0 <= j < init.len() && init[j] == f[i];
            assert(s[j] == init[j]);
        }
    }
}

} // verus!
