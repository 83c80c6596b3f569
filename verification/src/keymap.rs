//! The global key bindings: which action a key, or a chord of keys pressed
//! within one tick, triggers in which mode.

use crate::action::Action;
use crate::action::ActionView;
use crate::app::Mode;
use crate::key::KeyEvent;
use vstd::prelude::*;

verus! {

/// One binding: in `mode`, the keys `keys` pressed one after the other
/// trigger `action`.
#[derive(Debug, Clone, PartialEq, Eq)]
pub struct Binding {
    pub mode: Mode,
    pub keys: Vec<KeyEvent>,
    pub action: Action,
}

/// A `Binding` with its keys as a sequence.
pub struct BindingView {
    pub mode: Mode,
    pub keys: Seq<KeyEvent>,
    pub action: ActionView,
}

impl View for Binding {
    type V = BindingView;

    open spec fn view(&self) -> BindingView {
        BindingView { mode: self.mode, keys: self.keys@, action: self.action@ }
    }
}

impl DeepView for Binding {
    type V = BindingView;

    open spec fn deep_view(&self) -> BindingView {
        self@
    }
}

/// The bindings. Of two bindings for the same keys in the same mode the
/// first counts; `bind` never leaves two.
#[derive(Debug, Clone, PartialEq, Eq)]
pub struct KeyBindings {
    pub bindings: Vec<Binding>,
}

/// The position of the first binding from `from` on for `keys` in `mode`.
pub open spec fn binding_index(bindings: Seq<BindingView>, mode: Mode, keys: Seq<KeyEvent>, from: int)
    -> Option<int>
    decreases bindings.len() - from,
{
    if from < 0 || from >= bindings.len() {
        None
    } else if bindings[from].mode == mode && bindings[from].keys == keys {
        Some(from)
    } else {
        binding_index(bindings, mode, keys, from + 1)
    }
}

/// The action that `keys` trigger in `mode`, if they are bound there.
pub open spec fn lookup(bindings: Seq<BindingView>, mode: Mode, keys: Seq<KeyEvent>) -> Option<
    ActionView,
> {
    match binding_index(bindings, mode, keys, 0) {
        Some(index) => Some(bindings[index].action),
        None => None,
    }
}

/// What a key press leaves of the chord gathered since the last tick. A key
/// that is bound by itself leaves the chord as it is; any other key joins it.
pub open spec fn chord_after(
    bindings: Seq<BindingView>,
    mode: Mode,
    chord: Seq<KeyEvent>,
    key: KeyEvent,
) -> Seq<KeyEvent> {
    if lookup(bindings, mode, seq![key]) is Some {
        chord
    } else {
        chord.push(key)
    }
}

/// The action that a key press triggers: that of the key itself where it is
/// bound by itself, and else that of the chord which the key completes.
pub open spec fn routed(bindings: Seq<BindingView>, mode: Mode, chord: Seq<KeyEvent>, key: KeyEvent)
    -> Option<ActionView> {
    match lookup(bindings, mode, seq![key]) {
        Some(action) => Some(action),
        None => lookup(bindings, mode, chord.push(key)),
    }
}

/// `binding_index` finds the first binding for the keys: a binding for them,
/// with none for them before it; and `None` only where none is for them.
pub proof fn lemma_binding_index(bindings: Seq<BindingView>, mode: Mode, keys: Seq<KeyEvent>, from: int)
    requires
        0 <= from,
    ensures
        binding_index(bindings, mode, keys, from) matches Some(index) ==> {
            &&& from <= index < bindings.len()
            &&& bindings[index].mode == mode
            &&& bindings[index].keys == keys
            &&& forall|j: int|
                from <= j < index ==> !((#[trigger] bindings[j]).mode == mode && bindings[j].keys
                    == keys)
        },
        binding_index(bindings, mode, keys, from) is None ==> forall|j: int|
            from <= j < bindings.len() ==> !((#[trigger] bindings[j]).mode == mode
                && bindings[j].keys == keys),
    decreases bindings.len() - from,
{
    if from < bindings.len() && !(bindings[from].mode == mode && bindings[from].keys == keys) {
        lemma_binding_index(bindings, mode, keys, from + 1);
    }
}

/// Two sequences of bindings that agree from `from` on in which bindings
/// are for the keys, and in the actions of those, give the same first action.
proof fn lemma_lookup_same(
    before: Seq<BindingView>,
    after: Seq<BindingView>,
    mode: Mode,
    keys: Seq<KeyEvent>,
    from: int,
)
    requires
        0 <= from,
        before.len() <= after.len(),
        forall|j: int|
            from <= j < before.len() ==> ((#[trigger] before[j]).mode == mode && before[j].keys
                == keys) == (after[j].mode == mode && after[j].keys == keys),
        forall|j: int|
            from <= j < before.len() && (#[trigger] before[j]).mode == mode && before[j].keys
                == keys ==> before[j].action == after[j].action,
        forall|j: int|
            before.len() <= j < after.len() ==> !((#[trigger] after[j]).mode == mode
                && after[j].keys == keys),
    ensures
        match (binding_index(before, mode, keys, from), binding_index(after, mode, keys, from)) {
            (Some(i), Some(j)) => i == j && before[i].action == after[j].action,
            (None, None) => true,
            _ => false,
        },
    decreases after.len() - from,
{
    if from < before.len() {
        if !(before[from].mode == mode && before[from].keys == keys) {
            lemma_lookup_same(before, after, mode, keys, from + 1);
        }
    } else if from < after.len() {
        lemma_lookup_same(before, after, mode, keys, from + 1);
    }
}

impl View for KeyBindings {
    type V = Seq<BindingView>;

    open spec fn view(&self) -> Seq<BindingView> {
        self.bindings.deep_view()
    }
}

fn same_keys(left: &Vec<KeyEvent>, right: &Vec<KeyEvent>) -> (same: bool)
    ensures
        same == (left@ == right@),
{
    if left.len() != right.len() {
        return false;
    }
    let mut i: usize = 0;
    while i < left.len()
        invariant
            i <= left.len(),
            left.len() == right.len(),
            forall|j: int| 0 <= j < i ==> left@[j] == right@[j],
        decreases left.len() - i,
    {
        if left[i] != right[i] {
            return false;
        }
        i = i + 1;
    }
    assert(left@ =~= right@);
    true
}

impl KeyBindings {
    /// No key is bound.
    pub fn new() -> (bindings: Self)
        ensures
            bindings@ == Seq::<BindingView>::empty(),
    {
        let bindings = KeyBindings { bindings: Vec::new() };
        assert(bindings@ =~= Seq::<BindingView>::empty());
        bindings
    }

    /// The position of the binding for `keys` in `mode`.
    fn position(&self, mode: Mode, keys: &Vec<KeyEvent>) -> (index: Option<usize>)
        ensures
            index matches Some(i) ==> i < self.bindings.len() && binding_index(
                self@,
                mode,
                keys@,
                0,
            ) == Some(i as int),
            index is None ==> binding_index(self@, mode, keys@, 0) is None,
    {
        let mut i: usize = 0;
        while i < self.bindings.len()
            invariant
                i <= self.bindings.len(),
                binding_index(self@, mode, keys@, 0) == binding_index(self@, mode, keys@, i as int),
            decreases self.bindings.len() - i,
        {
            if self.bindings[i].mode == mode && same_keys(&self.bindings[i].keys, keys) {
                return Some(i);
            }
            i = i + 1;
        }
        None
    }

    /// The action that `keys` trigger in `mode`, if they are bound there.
    pub fn get(&self, mode: Mode, keys: &Vec<KeyEvent>) -> (action: Option<Action>)
        ensures
            action.deep_view() == lookup(self@, mode, keys@),
    {
        match self.position(mode, keys) {
            Some(index) => Some(self.bindings[index].action.clone()),
            None => None,
        }
    }

    /// Binds `keys` in `mode` to `action`, in place of what they were bound
    /// to there. Every other binding stays.
    pub fn bind(&mut self, mode: Mode, keys: Vec<KeyEvent>, action: Action)
        ensures
            lookup(final(self)@, mode, keys@) == Some(action@),
            forall|other_mode: Mode, other_keys: Seq<KeyEvent>|
                !(other_mode == mode && other_keys == keys@) ==> #[trigger] lookup(
                    final(self)@,
                    other_mode,
                    other_keys,
                ) == lookup(old(self)@, other_mode, other_keys),
    {
        let ghost before = self@;
        let ghost bound_keys = keys@;
        let ghost bound_action = action@;
        match self.position(mode, &keys) {
            Some(index) => {
                proof {
                    lemma_binding_index(before, mode, bound_keys, 0);
                }
                self.bindings.set(index, Binding { mode, keys, action });
                let ghost after = self@;
                assert(after =~= before.update(
                    index as int,
                    BindingView { mode, keys: bound_keys, action: bound_action },
                ));
                proof {
                    lemma_binding_index(after, mode, bound_keys, 0);
                    assert(after[index as int].mode == mode && after[index as int].keys
                        == bound_keys);
                    assert forall|other_mode: Mode, other_keys: Seq<KeyEvent>|
                        !(other_mode == mode && other_keys == bound_keys) implies #[trigger] lookup(
                        after,
                        other_mode,
                        other_keys,
                    ) == lookup(before, other_mode, other_keys) by {
                        lemma_lookup_same(before, after, other_mode, other_keys, 0);
                    }
                }
            },
            None => {
                proof {
                    lemma_binding_index(before, mode, bound_keys, 0);
                }
                self.bindings.push(Binding { mode, keys, action });
                let ghost after = self@;
                assert(after =~= before.push(
                    BindingView { mode, keys: bound_keys, action: bound_action },
                ));
                proof {
                    lemma_binding_index(after, mode, bound_keys, 0);
                    assert(after[before.len() as int].mode == mode && after[before.len() as int].keys
                        == bound_keys);
                    assert forall|other_mode: Mode, other_keys: Seq<KeyEvent>|
                        !(other_mode == mode && other_keys == bound_keys) implies #[trigger] lookup(
                        after,
                        other_mode,
                        other_keys,
                    ) == lookup(before, other_mode, other_keys) by {
                        lemma_lookup_same(before, after, other_mode, other_keys, 0);
                    }
                }
            },
        }
    }

    /// Takes a key press into the chord gathered since the last tick and
    /// says which action it triggers in `mode`: that of the key itself where
    /// it is bound by itself; else the key joins the chord, and the action
    /// is that of the chord where the chord is bound.
    pub fn route(&self, mode: Mode, chord: &mut Vec<KeyEvent>, key: KeyEvent) -> (action: Option<Action>)
        ensures
            final(chord)@ == chord_after(self@, mode, old(chord)@, key),
            action.deep_view() == routed(self@, mode, old(chord)@, key),
    {
        let mut single: Vec<KeyEvent> = Vec::new();
        single.push(key);
        assert(single@ =~= seq![key]);
        match self.get(mode, &single) {
            Some(action) => Some(action),
            None => {
                chord.push(key);
                self.get(mode, chord)
            },
        }
    }
}

/// A chord of two keys that is bound in a mode, and neither key of which is
/// bound there by itself, triggers its action at the second key exactly:
/// after a tick has emptied the chord, the first key triggers nothing and
/// the second key triggers the action of the chord.
pub proof fn lemma_two_key_chord(
    bindings: Seq<BindingView>,
    mode: Mode,
    first: KeyEvent,
    second: KeyEvent,
    action: ActionView,
)
    requires
        lookup(bindings, mode, seq![first, second]) == Some(action),
        lookup(bindings, mode, seq![first]) is None,
        lookup(bindings, mode, seq![second]) is None,
    ensures
        routed(bindings, mode, Seq::empty(), first) is None,
        chord_after(bindings, mode, Seq::empty(), first) == seq![first],
        routed(bindings, mode, chord_after(bindings, mode, Seq::empty(), first), second) == Some(
            action,
        ),
{
    assert(Seq::<KeyEvent>::empty().push(first) =~= seq![first]);
    assert(seq![first].push(second) =~= seq![first, second]);
}

/// A tick between the two keys of a chord keeps the chord from triggering:
/// the second key then stands alone.
pub proof fn lemma_tick_breaks_chord(
    bindings: Seq<BindingView>,
    mode: Mode,
    first: KeyEvent,
    second: KeyEvent,
)
    requires
        lookup(bindings, mode, seq![second]) is None,
    ensures
        routed(bindings, mode, Seq::empty(), second) is None,
{
    assert(Seq::<KeyEvent>::empty().push(second) =~= seq![second]);
}

} // verus!
