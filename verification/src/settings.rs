//! What the host keeps in its settings store about plugins: which of them
//! are enabled.

use crate::lifecycle::Action;
use crate::textmap::TextMap;
use vstd::prelude::*;

verus! {

/// The persisted flag of one plugin.
#[derive(Debug, PartialEq, Eq)]
pub struct PluginFlag {
    pub id: String,
    pub enabled: bool,
}

/// The persisted `enabled` flag of every plugin that has one.
pub struct PluginsConfig {
    flags: TextMap<bool>,
}

impl View for PluginsConfig {
    type V = Map<Seq<char>, bool>;

    closed spec fn view(&self) -> Map<Seq<char>, bool> {
        self.flags@
    }
}

/// Whether a plugin is enabled according to the persisted flags. A plugin
/// without a flag is not.
pub open spec fn enabled_in(flags: Map<Seq<char>, bool>, id: Seq<char>) -> bool {
    flags.contains_key(id) && flags[id]
}

/// The flags after the supervisor's `actions` for the plugin `id` were
/// carried out: every `PersistEnabled` among them sets the plugin's flag.
pub open spec fn persisted_after(flags: Map<Seq<char>, bool>, id: Seq<char>, actions: Seq<Action>)
    -> Map<Seq<char>, bool>
    decreases actions.len(),
{
    if actions.len() == 0 {
        flags
    } else {
        let before = persisted_after(flags, id, actions.drop_last());
        match actions.last() {
            Action::PersistEnabled { enabled } => before.insert(id, enabled),
            _ => before,
        }
    }
}

impl PluginsConfig {
    /// No plugin id occurs twice.
    pub closed spec fn wf(&self) -> bool {
        self.flags.wf()
    }

    /// The flags of a host that has never seen a plugin.
    pub fn new() -> (config: Self)
        ensures
            config.wf(),
            config@ == Map::<Seq<char>, bool>::empty(),
    {
        PluginsConfig { flags: TextMap::new() }
    }

    /// Whether the plugin `id` is enabled. A plugin that was never seen
    /// before is not.
    pub fn is_enabled(&self, id: &str) -> (enabled: bool)
        requires
            self.wf(),
        ensures
            enabled == enabled_in(self@, id@),
    {
        match self.flags.get(id) {
            Some(flag) => *flag,
            None => false,
        }
    }

    /// Sets the flag of the plugin `id`.
    pub fn set_enabled(&mut self, id: &str, enabled: bool)
        requires
            old(self).wf(),
        ensures
            final(self).wf(),
            final(self)@ == old(self)@.insert(id@, enabled),
    {
        self.flags.insert(id.to_string(), enabled);
    }

    /// The plugin ids that have a flag, in the order in which they got it.
    pub closed spec fn ids(&self) -> Seq<Seq<char>> {
        self.flags.keys()
    }

    /// The flags as a list, for writing them to the settings store: one
    /// entry per plugin id, with the flag of that id.
    pub fn entries(&self) -> (list: Vec<PluginFlag>)
        requires
            self.wf(),
        ensures
            list@.len() == self.ids().len(),
            forall|i: int|
                0 <= i < list@.len() ==> (#[trigger] list@[i]).id@ == self.ids()[i]
                    && self@.contains_key(self.ids()[i]) && list@[i].enabled == self@[self.ids()[i]],
            forall|id: Seq<char>| self@.contains_key(id) <==> self.ids().contains(id),
    {
        let mut list: Vec<PluginFlag> = Vec::new();
        let n = self.flags.len();
        let mut i: usize = 0;
        while i < n
            invariant
                i <= n,
                n == self.ids().len(),
                self.wf(),
                list@.len() == i,
                forall|j: int|
                    0 <= j < i ==> (#[trigger] list@[j]).id@ == self.ids()[j]
                        && self@.contains_key(self.ids()[j]) && list@[j].enabled == self@[self.ids()[j]],
            decreases n - i,
        {
            let id = self.flags.key_at(i).clone();
            let flag = *self.flags.value_at(i);
            let ghost earlier = list@;
            list.push(PluginFlag { id, enabled: flag });
            assert forall|j: int| 0 <= j < i + 1 implies (#[trigger] list@[j]).id@ == self.ids()[j]
                && self@.contains_key(self.ids()[j]) && list@[j].enabled == self@[self.ids()[j]] by {
                if j < i {
                    assert(list@[j] == earlier[j]);
                }
            }
            i = i + 1;
        }
        proof {
            self.flags.lemma_keys();
        }
        list
    }

    /// Carries out the `PersistEnabled` actions among `actions` for the
    /// plugin `id`.
    pub fn persist(&mut self, id: &str, actions: &Vec<Action>)
        requires
            old(self).wf(),
        ensures
            final(self).wf(),
            final(self)@ == persisted_after(old(self)@, id@, actions@),
    {
        let mut i: usize = 0;
        assert(actions@.take(0) =~= Seq::<Action>::empty());
        while i < actions.len()
            invariant
                i <= actions@.len(),
                self.wf(),
                self@ == persisted_after(old(self)@, id@, actions@.take(i as int)),
            decreases actions@.len() - i,
        {
            proof {
                let next = actions@.take(i as int + 1);
                assert(next.drop_last() =~= actions@.take(i as int));
                assert(next.last() == actions@[i as int]);
            }
            match actions[i] {
                Action::PersistEnabled { enabled } => {
                    self.set_enabled(id, enabled);
                },
                _ => {},
            }
            i = i + 1;
        }
        assert(actions@.take(i as int) =~= actions@);
    }
}

/// Carrying out one list of actions after another is carrying out both.
pub proof fn lemma_persisted_in_turn(
    flags: Map<Seq<char>, bool>,
    id: Seq<char>,
    first: Seq<Action>,
    second: Seq<Action>,
)
    ensures
        persisted_after(flags, id, first + second) == persisted_after(
            persisted_after(flags, id, first),
            id,
            second,
        ),
    decreases second.len(),
{
    if second.len() == 0 {
        assert(first + second =~= first);
    } else {
        assert((first + second).drop_last() =~= first + second.drop_last());
        assert((first + second).last() == second.last());
        lemma_persisted_in_turn(flags, id, first, second.drop_last());
    }
}

/// Actions that persist nothing leave the flags as they are.
pub proof fn lemma_persisted_nothing(flags: Map<Seq<char>, bool>, id: Seq<char>, actions: Seq<Action>)
    requires
        forall|i: int| 0 <= i < actions.len() ==> !((#[trigger] actions[i]) is PersistEnabled),
    ensures
        persisted_after(flags, id, actions) == flags,
    decreases actions.len(),
{
    if actions.len() > 0 {
        let before = actions.drop_last();
        assert forall|i: int| 0 <= i < before.len() implies !((#[trigger] before[i])
            is PersistEnabled) by {
            assert(before[i] == actions[i]);
        }
        lemma_persisted_nothing(flags, id, before);
        assert(!(actions[actions.len() - 1] is PersistEnabled));
    }
}

/// Actions that persist one value, once or several times, set the flag of
/// the plugin to that value and leave the other flags as they are.
pub proof fn lemma_persisted_once(
    flags: Map<Seq<char>, bool>,
    id: Seq<char>,
    actions: Seq<Action>,
    enabled: bool,
)
    requires
        exists|i: int| 0 <= i < actions.len() && (#[trigger] actions[i]) is PersistEnabled,
        forall|i: int|
            0 <= i < actions.len() && (#[trigger] actions[i]) is PersistEnabled ==> actions[i] == (
            Action::PersistEnabled { enabled }),
    ensures
        persisted_after(flags, id, actions) == flags.insert(id, enabled),
    decreases actions.len(),
{
    let before = actions.drop_last();
    let last = actions[actions.len() - 1];
    assert forall|i: int| 0 <= i < before.len() && (#[trigger] before[i]) is PersistEnabled implies before[i]
        == (Action::PersistEnabled { enabled }) by {
        assert(before[i] == actions[i]);
    }
    if exists|i: int| 0 <= i < before.len() && (#[trigger] before[i]) is PersistEnabled {
        lemma_persisted_once(flags, id, before, enabled);
        if last is PersistEnabled {
            assert(flags.insert(id, enabled).insert(id, enabled) =~= flags.insert(id, enabled));
        }
    } else {
        lemma_persisted_nothing(flags, id, before);
        let i = choose|i: int| 0 <= i < actions.len() && (#[trigger] actions[i]) is PersistEnabled;
        if i < before.len() {
            assert(before[i] == actions[i]);
        }
        assert(last is PersistEnabled);
    }
}

} // verus!
