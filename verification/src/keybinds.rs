//! The mode-dependent keybinding table and the action resolver.
//!
//! The table is supplied externally and read-only here: a mapping from
//! (mode, key) to an ordered sequence of actions. Resolution is a pure
//! lookup; the first entry for a (mode, key) pair decides, and absence of a
//! binding yields the empty sequence, which is not an error.

use vstd::prelude::*;

use crate::actions::{clone_action, lemma_views_of_push, views_of, Action, ActionView};
use crate::key::{InputMode, Key};

verus! {

/// One row of the keybinding table.
#[derive(Clone, Debug, PartialEq, Eq)]
pub struct KeyBinding {
    pub mode: InputMode,
    pub key: Key,
    pub actions: Vec<Action>,
}

/// The keybinding table: ordered rows of (mode, key, actions).
#[derive(Clone, Debug, PartialEq, Eq)]
pub struct Keybinds {
    pub entries: Vec<KeyBinding>,
}

/// Whether the rows hold a binding for the (mode, key) pair.
pub open spec fn spec_has_binding(
    entries: Seq<KeyBinding>,
    mode: InputMode,
    key: Key,
) -> bool
    decreases entries.len(),
{
    if entries.len() == 0 {
        false
    } else if entries[0].mode == mode && entries[0].key == key {
        true
    } else {
        spec_has_binding(entries.drop_first(), mode, key)
    }
}

/// The actions the rows resolve the (mode, key) pair to: those of the first
/// matching row, and the empty sequence where none matches.
pub open spec fn spec_resolve(
    entries: Seq<KeyBinding>,
    mode: InputMode,
    key: Key,
) -> Seq<ActionView>
    decreases entries.len(),
{
    if entries.len() == 0 {
        Seq::empty()
    } else if entries[0].mode == mode && entries[0].key == key {
        views_of(entries[0].actions@)
    } else {
        spec_resolve(entries.drop_first(), mode, key)
    }
}

impl Keybinds {
    /// Whether the table holds a binding for the (mode, key) pair.
    pub open spec fn has_binding(&self, mode: InputMode, key: Key) -> bool {
        spec_has_binding(self.entries@, mode, key)
    }

    /// The actions the table resolves the (mode, key) pair to.
    pub open spec fn actions_for(&self, mode: InputMode, key: Key) -> Seq<ActionView> {
        spec_resolve(self.entries@, mode, key)
    }

    /// Makes an empty table.
    pub fn new() -> (keybinds: Keybinds)
        ensures
            keybinds.entries@.len() == 0,
    {
        Keybinds { entries: Vec::new() }
    }

    /// Appends a binding row to the table.
    pub fn add_binding(&mut self, mode: InputMode, key: Key, actions: Vec<Action>)
        ensures
            final(self).entries@ == old(self).entries@.push(KeyBinding { mode, key, actions }),
    {
        self.entries.push(KeyBinding { mode, key, actions });
    }

    /// Resolves a key in a mode to the bound ordered action sequence. A pure
    /// lookup: an absent binding yields the empty sequence.
    pub fn key_to_actions(key: &Key, mode: &InputMode, keybinds: &Keybinds) -> (actions: Vec<
        Action,
    >)
        ensures
            views_of(actions@) == keybinds.actions_for(*mode, *key),
    {
        let ghost all = keybinds.entries@;
        proof {
            assert(all.skip(0) =~= all);
        }
        let mut i: usize = 0;
        while i < keybinds.entries.len()
            invariant
                i <= keybinds.entries.len(),
                all == keybinds.entries@,
                spec_resolve(all.skip(i as int), *mode, *key) == spec_resolve(all, *mode, *key),
            decreases keybinds.entries.len() - i,
        {
            let entry = &keybinds.entries[i];
            proof {
                assert(all.skip(i as int)[0] == all[i as int]);
            }
            if entry.mode == *mode && entry.key == *key {
                let mut resolved: Vec<Action> = Vec::new();
                let mut j: usize = 0;
                proof {
                    assert(views_of(resolved@) =~= views_of(entry.actions@.take(0)));
                }
                while j < entry.actions.len()
                    invariant
                        j <= entry.actions.len(),
                        entry == &keybinds.entries@[i as int],
                        i < keybinds.entries@.len(),
                        views_of(resolved@) == views_of(entry.actions@.take(j as int)),
                    decreases entry.actions.len() - j,
                {
                    let copy = clone_action(&entry.actions[j]);
                    proof {
                        lemma_views_of_push(resolved@, copy);
                        lemma_views_of_push(entry.actions@.take(j as int), entry.actions@[j as int]);
                        assert(entry.actions@.take(j as int).push(entry.actions@[j as int])
                            =~= entry.actions@.take(j + 1 as int));
                        assert(views_of(entry.actions@.take(j as int)).push(copy@)
                            =~= views_of(entry.actions@.take(j as int)).push(
                            entry.actions@[j as int]@,
                        ));
                    }
                    resolved.push(copy);
                    j = j + 1;
                }
                proof {
                    assert(entry.actions@.take(entry.actions@.len() as int) =~= entry.actions@);
                }
                return resolved;
            }
            proof {
                assert(all.skip(i as int).drop_first() =~= all.skip(i + 1 as int));
            }
            i = i + 1;
        }
        proof {
            assert(all.skip(all.len() as int).len() == 0);
            assert(views_of(Seq::<Action>::empty()) =~= Seq::<ActionView>::empty());
        }
        Vec::new()
    }
}

/// Law: for every (mode, key) pair absent from the table, resolution yields
/// the empty action sequence.
pub proof fn lemma_unbound_key_resolves_empty(keybinds: Keybinds, mode: InputMode, key: Key)
    requires
        !keybinds.has_binding(mode, key),
    ensures
        keybinds.actions_for(mode, key) == Seq::<ActionView>::empty(),
{
    lemma_unbound_rows_resolve_empty(keybinds.entries@, mode, key);
}

proof fn lemma_unbound_rows_resolve_empty(entries: Seq<KeyBinding>, mode: InputMode, key: Key)
    requires
        !spec_has_binding(entries, mode, key),
    ensures
        spec_resolve(entries, mode, key) == Seq::<ActionView>::empty(),
    decreases entries.len(),
{
    if entries.len() > 0 {
        lemma_unbound_rows_resolve_empty(entries.drop_first(), mode, key);
    }
}

} // verus!
