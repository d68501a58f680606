//! The bots that are registered with the application and the groups that
//! each of them tracks. The ingestion path only ever looks things up here.

use std::collections::HashMap;
use std::sync::Arc;
use vstd::prelude::*;

verus! {

broadcast use vstd::std_specs::hash::group_hash_axioms;

/// Hands out a second owner of a shared value.
///
/// Trusted: stands for `Arc::clone`, which returns a pointer to the same
/// allocation, so the value behind the result is the value behind `shared`.
#[verifier::external_body]
pub(crate) fn share<T>(shared: &Arc<T>) -> (other: Arc<T>)
    ensures
        other == *shared,
{
    Arc::clone(shared)
}

/// A group as a bot tracks it: its numeric code and its display name.
pub struct Group {
    pub code: i64,
    pub name: String,
}

impl Group {
    /// The group with this code and display name.
    pub fn new(code: i64, name: String) -> (group: Group)
        ensures
            group.code == code,
            group.name == name,
    {
        Group { code, name }
    }

    pub open spec fn spec_id(&self) -> i64 {
        self.code
    }

    /// The identifier that correlation keys are built from.
    #[verifier::when_used_as_spec(spec_id)]
    pub fn id(&self) -> (id: i64)
        ensures
            id == self.code,
    {
        self.code
    }

    /// The display name, markup included.
    pub fn name(&self) -> (name: &str)
        ensures
            name@ == self.name@,
    {
        self.name.as_str()
    }
}

/// A live connection: the account it is logged in as and the groups it tracks.
pub struct Bot {
    id: i64,
    groups: HashMap<i64, Arc<Group>>,
}

impl Bot {
    pub closed spec fn spec_id(&self) -> i64 {
        self.id
    }

    /// The tracked groups, by group code.
    pub closed spec fn groups(&self) -> Map<i64, Arc<Group>> {
        self.groups@
    }

    /// Every tracked group is filed under its own code.
    pub open spec fn wf(&self) -> bool {
        forall|code: i64| #[trigger]
            self.groups().contains_key(code) ==> self.groups()[code].code == code
    }

    /// A connection for account `id` that tracks no group yet.
    pub fn new(id: i64) -> (bot: Bot)
        ensures
            bot.spec_id() == id,
            bot.groups() == Map::<i64, Arc<Group>>::empty(),
            bot.wf(),
    {
        Bot { id, groups: HashMap::new() }
    }

    /// The account that the connection is logged in as.
    #[verifier::when_used_as_spec(spec_id)]
    pub fn id(&self) -> (id: i64)
        ensures
            id == self.spec_id(),
    {
        self.id
    }

    /// Starts tracking `group`, in place of any group with the same code.
    pub fn track(&mut self, group: Group)
        requires
            old(self).wf(),
        ensures
            final(self).wf(),
            final(self).spec_id() == old(self).spec_id(),
            final(self).groups() == old(self).groups().insert(group.code, Arc::new(group)),
    {
        let code = group.code;
        self.groups.insert(code, Arc::new(group));
        assert forall|other: i64| #[trigger]
            self.groups().contains_key(other) implies self.groups()[other].code == other by {
            if other != code {
                assert(old(self).groups().contains_key(other));
            }
        }
    }

    /// The tracked group with this code, if there is one.
    pub fn find_group(&self, code: i64) -> (found: Option<Arc<Group>>)
        ensures
            match found {
                Some(group) => self.groups().contains_key(code) && group == self.groups()[code],
                None => !self.groups().contains_key(code),
            },
    {
        match self.groups.get(&code) {
            Some(group) => Some(share(group)),
            None => None,
        }
    }
}

/// The application-wide mapping from account identifier to live connection.
pub struct BotRegistry {
    bots: HashMap<i64, Arc<Bot>>,
}

impl View for BotRegistry {
    type V = Map<i64, Arc<Bot>>;

    closed spec fn view(&self) -> Map<i64, Arc<Bot>> {
        self.bots@
    }
}

/// Every connection is filed under its own account and is itself well formed.
pub open spec fn registry_wf(bots: Map<i64, Arc<Bot>>) -> bool {
    forall|id: i64| #[trigger] bots.contains_key(id) ==> bots[id].spec_id() == id && bots[id].wf()
}

impl BotRegistry {
    pub open spec fn wf(&self) -> bool {
        registry_wf(self@)
    }

    /// A registry without any connection.
    pub fn new() -> (registry: BotRegistry)
        ensures
            registry@ == Map::<i64, Arc<Bot>>::empty(),
            registry.wf(),
    {
        BotRegistry { bots: HashMap::new() }
    }

    /// Registers `bot` under its account, in place of any earlier connection
    /// of the same account.
    pub fn register(&mut self, bot: Bot)
        requires
            old(self).wf(),
            bot.wf(),
        ensures
            final(self).wf(),
            final(self)@ == old(self)@.insert(bot.spec_id(), Arc::new(bot)),
    {
        let id = bot.id;
        self.bots.insert(id, Arc::new(bot));
        assert forall|other: i64| #[trigger]
            self@.contains_key(other) implies self@[other].spec_id() == other
            && self@[other].wf() by {
            if other != id {
                assert(old(self)@.contains_key(other));
            }
        }
    }

    /// The connection registered for account `id`, if there is one.
    pub fn get(&self, id: i64) -> (found: Option<Arc<Bot>>)
        ensures
            match found {
                Some(bot) => self@.contains_key(id) && bot == self@[id],
                None => !self@.contains_key(id),
            },
    {
        match self.bots.get(&id) {
            Some(bot) => Some(share(bot)),
            None => None,
        }
    }
}

} // verus!
