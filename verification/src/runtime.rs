//! The dispatch semantics of a generated machine.
//!
//! The generator emits host code; this module is the same machine as
//! a value: a current-state discriminant and one storage slot per
//! declared state, pre-populated with that state's default payload.
//! Dispatching an event walks the transition rules declared for the
//! current state in order and takes the first whose pattern matches
//! the slot and whose guard holds.
//!
//! Two things only the host can do arrive as plain values: guard
//! blocks are opaque host expressions, so each dispatch takes the
//! guard outcomes for the candidate rules; handler bodies are opaque
//! host code, so a fired rule hands back which handler to invoke,
//! with which slots and arguments, and the host writes the handler's
//! result into a slot with `store`. Dispatch itself never changes a
//! slot: payloads persist across transitions until a store overwrites
//! them.

use vstd::prelude::*;

use crate::machine::Machine;
use crate::semantic::sp_wf_machine;
use crate::semantic::sp_state_declared;
use crate::states::Fields;
use crate::states::FieldsV;
use crate::states::VariantV;
use crate::token::str_eq;
use crate::transitions::find_event;
use crate::transitions::find_from;
use crate::transitions::find_event_row;
use crate::transitions::find_from_row;
use crate::transitions::StatePat;
use crate::transitions::StatePatV;
use crate::transitions::TransitionV;
use crate::transitions::TuplePatItem;
use crate::transitions::TuplePatItemV;

verus! {

/// One named payload field of a running machine's slot.
#[derive(Debug, PartialEq, Clone)]
pub struct FieldValue {
    pub name: String,
    pub value: i64,
}

/// The mathematical shape of a payload field.
pub struct FieldValueV {
    pub name: Seq<char>,
    pub value: i64,
}

impl DeepView for FieldValue {
    type V = FieldValueV;

    open spec fn deep_view(&self) -> FieldValueV {
        FieldValueV { name: self.name@, value: self.value }
    }
}

/// A slot's payload, shaped like its state: no payload, positional
/// fields, or named fields. Field contents are modelled as plain
/// integers.
#[derive(Debug, PartialEq, Clone)]
pub enum Value {
    Unit,
    Tuple(Vec<i64>),
    Record(Vec<FieldValue>),
}

/// The mathematical shape of a payload.
pub enum ValueV {
    Unit,
    Tuple(Seq<i64>),
    Record(Seq<FieldValueV>),
}

impl DeepView for Value {
    type V = ValueV;

    open spec fn deep_view(&self) -> ValueV {
        match self {
            Value::Unit => ValueV::Unit,
            Value::Tuple(xs) => ValueV::Tuple(xs.deep_view()),
            Value::Record(fs) => ValueV::Record(fs.deep_view()),
        }
    }
}

/// Whether a payload has the shape a state declares: same kind, same
/// arity, and the same field names in the same order.
pub open spec fn value_fits(v: ValueV, f: FieldsV) -> bool {
    match f {
        FieldsV::Unit => v is Unit,
        FieldsV::Unnamed(ts) => v matches ValueV::Tuple(xs) && xs.len() == ts.len(),
        FieldsV::Named(ps) => v matches ValueV::Record(fs) && fs.len() == ps.len() && (forall|
            k: int,
        |
            0 <= k < fs.len() ==> #[trigger] fs[k].name == ps[k].name.text),
    }
}

/// The canonical default payload of a state's shape: the bare value
/// for a unit state, and every field — positional or named — at the
/// integer default, zero.
pub open spec fn default_value(f: FieldsV) -> ValueV {
    match f {
        FieldsV::Unit => ValueV::Unit,
        FieldsV::Unnamed(ts) => ValueV::Tuple(Seq::new(ts.len(), |k: int| 0i64)),
        FieldsV::Named(ps) => ValueV::Record(
            Seq::new(ps.len(), |k: int| FieldValueV { name: ps[k].name.text, value: 0 }),
        ),
    }
}

/// Builds the canonical default payload of a shape.
#[verifier::loop_isolation(false)]
pub fn default_value_of(f: &Fields) -> (r: Value)
    ensures
        r.deep_view() == default_value(f.deep_view()),
        value_fits(r.deep_view(), f.deep_view()),
{
    match f {
        Fields::Unit => Value::Unit,
        Fields::Unnamed(ts) => {
            let mut xs: Vec<i64> = Vec::new();
            let mut k: usize = 0;
            while k < ts.len()
                invariant
                    k <= ts@.len(),
                    xs@.len() == k as int,
                    forall|p: int| 0 <= p < k as int ==> xs@[p] == 0i64,
                decreases ts@.len() - k,
            {
                xs.push(0);
                k = k + 1;
            }
            let r = Value::Tuple(xs);
            proof {
                assert(xs.deep_view() =~= Seq::new(
                    f.deep_view()->Unnamed_0.len(),
                    |k: int| 0i64,
                ));
            }
            r
        },
        Fields::Named(ps) => {
            let mut fs: Vec<FieldValue> = Vec::new();
            let mut k: usize = 0;
            while k < ps.len()
                invariant
                    k <= ps@.len(),
                    fs@.len() == k as int,
                    forall|p: int|
                        0 <= p < k as int ==> fs.deep_view()[p] == (FieldValueV {
                            name: ps.deep_view()[p].name.text,
                            value: 0,
                        }),
                decreases ps@.len() - k,
            {
                let ghost prev = fs.deep_view();
                let fv = FieldValue { name: ps[k].name.text.clone(), value: 0 };
                fs.push(fv);
                k = k + 1;
                proof {
                    assert(fs.deep_view() =~= prev.push(fv.deep_view()));
                }
            }
            let r = Value::Record(fs);
            proof {
                let psv = f.deep_view()->Named_0;
                assert(fs.deep_view() =~= Seq::new(
                    psv.len(),
                    |k: int| FieldValueV { name: psv[k].name.text, value: 0 },
                ));
            }
            r
        },
    }
}

/// The index of the first declared state of that spelling, or -1.
pub open spec fn sp_state_index(states: Seq<VariantV>, text: Seq<char>) -> int
    decreases states.len(),
{
    if states.len() == 0 {
        -1
    } else if states[0].name.text == text {
        0
    } else {
        let r = sp_state_index(states.drop_first(), text);
        if r < 0 {
            -1
        } else {
            r + 1
        }
    }
}

/// What `sp_state_index` returns when the first `i` states do not
/// match and state `i` does (or `i` is the end).
pub proof fn lemma_state_index_at(states: Seq<VariantV>, text: Seq<char>, i: int)
    requires
        0 <= i <= states.len(),
        forall|k: int| 0 <= k < i ==> states[k].name.text != text,
        i < states.len() ==> states[i].name.text == text,
    ensures
        sp_state_index(states, text) == if i == states.len() {
            -1int
        } else {
            i
        },
    decreases i,
{
    if i > 0 {
        assert(forall|k: int|
            0 <= k < i - 1 ==> states.drop_first()[k].name.text != text) by {
            assert(forall|k: int| 0 <= k < i - 1 ==> states.drop_first()[k] == states[k + 1]);
        }
        lemma_state_index_at(states.drop_first(), text, i - 1);
    }
}

/// A declared state has an index, and the index names that state.
pub proof fn lemma_state_index_declared(states: Seq<VariantV>, text: Seq<char>)
    ensures
        sp_state_declared(states, text) <==> sp_state_index(states, text) >= 0,
        sp_state_index(states, text) >= 0 ==> sp_state_index(states, text) < states.len()
            && states[sp_state_index(states, text)].name.text == text,
    decreases states.len(),
{
    if states.len() > 0 && states[0].name.text != text {
        lemma_state_index_declared(states.drop_first(), text);
        assert(forall|k: int|
            0 <= k < states.drop_first().len() ==> states.drop_first()[k] == states[k + 1]);
        if sp_state_declared(states, text) {
            let w = choose|w: int|
                0 <= w < states.len() && states[w].name.text == text;
            assert(states.drop_first()[w - 1].name.text == text);
        }
    }
}

/// The exec index of the first declared state of that spelling, or
/// the state count.
#[verifier::loop_isolation(false)]
pub fn state_index(states: &Vec<crate::states::Variant>, text: &String) -> (r: usize)
    ensures
        r <= states@.len(),
        sp_state_index(states.deep_view(), text@) < states@.len(),
        r as int == if sp_state_index(states.deep_view(), text@) < 0 {
            states@.len() as int
        } else {
            sp_state_index(states.deep_view(), text@)
        },
{
    let mut i: usize = 0;
    while i < states.len()
        invariant
            i <= states@.len(),
            forall|k: int| 0 <= k < i as int ==> states.deep_view()[k].name.text != text@,
        decreases states@.len() - i,
    {
        if str_eq(&states[i].name.text, text) {
            proof {
                lemma_state_index_at(states.deep_view(), text@, i as int);
            }
            return i;
        }
        i = i + 1;
    }
    proof {
        lemma_state_index_at(states.deep_view(), text@, states@.len() as int);
    }
    i
}

/// How many binders a tuple pattern holds (its `..` markers bind
/// nothing).
pub open spec fn sp_bind_count(items: Seq<TuplePatItemV>) -> int
    decreases items.len(),
{
    if items.len() == 0 {
        0
    } else {
        sp_bind_count(items.drop_last()) + if items.last() is Bind {
            1int
        } else {
            0int
        }
    }
}

/// Whether a tuple pattern holds a `..` marker.
pub open spec fn sp_has_rest(items: Seq<TuplePatItemV>) -> bool {
    exists|k: int| 0 <= k < items.len() && items[k] is Rest
}

/// Whether a record holds a field of that spelling.
pub open spec fn sp_record_has(fs: Seq<FieldValueV>, name: Seq<char>) -> bool {
    exists|k: int| 0 <= k < fs.len() && fs[k].name == name
}

/// Whether a from-pattern destructures a payload: a bare identifier
/// matches the unit payload; a tuple pattern matches a positional
/// payload of fitting arity; a struct pattern matches a named
/// payload holding every bound field, and exactly those when it has
/// no `..` rest.
pub open spec fn sp_pat_matches(p: StatePatV, v: ValueV) -> bool {
    match p {
        StatePatV::Unit { .. } => v is Unit,
        StatePatV::Tuple { items, .. } => v matches ValueV::Tuple(xs) && (if sp_has_rest(items) {
            sp_bind_count(items) <= xs.len()
        } else {
            sp_bind_count(items) == xs.len()
        }),
        StatePatV::Struct { fields, has_rest, .. } => v matches ValueV::Record(fs) && (forall|
            k: int,
        |
            0 <= k < fields.len() ==> sp_record_has(fs, #[trigger] fields[k].text)) && (!has_rest
            ==> fields.len() == fs.len()),
    }
}

/// Whether a from-pattern destructures a payload, decided at run
/// time.
#[verifier::loop_isolation(false)]
pub fn pat_matches(p: &StatePat, v: &Value) -> (r: bool)
    ensures
        r == sp_pat_matches(p.deep_view(), v.deep_view()),
{
    match p {
        StatePat::Unit { .. } => match v {
            Value::Unit => true,
            _ => false,
        },
        StatePat::Tuple { items, .. } => match v {
            Value::Tuple(xs) => {
                let mut binds: usize = 0;
                let mut rest: bool = false;
                let mut k: usize = 0;
                proof {
                    assert(items.deep_view().take(0) =~= Seq::<TuplePatItemV>::empty());
                }
                while k < items.len()
                    invariant
                        k <= items@.len(),
                        binds as int == sp_bind_count(items.deep_view().take(k as int)),
                        binds <= k,
                        rest == exists|q: int|
                            0 <= q < k as int && items.deep_view()[q] is Rest,
                    decreases items@.len() - k,
                {
                    let ghost prefix = items.deep_view().take(k as int);
                    match &items[k] {
                        TuplePatItem::Bind(..) => {
                            binds = binds + 1;
                        },
                        TuplePatItem::Rest { .. } => {
                            proof {
                                assert(items.deep_view()[k as int] is Rest);
                            }
                            rest = true;
                        },
                    }
                    k = k + 1;
                    proof {
                        let prefix2 = items.deep_view().take(k as int);
                        assert(prefix2.drop_last() =~= prefix);
                        assert(prefix2.last() == items.deep_view()[k - 1]);
                    }
                }
                proof {
                    assert(items.deep_view().take(items@.len() as int) =~= items.deep_view());
                }
                if rest {
                    binds <= xs.len()
                } else {
                    binds == xs.len()
                }
            },
            _ => false,
        },
        StatePat::Struct { fields, has_rest, .. } => match v {
            Value::Record(fs) => {
                let mut k: usize = 0;
                while k < fields.len()
                    invariant
                        k <= fields@.len(),
                        forall|q: int|
                            0 <= q < k as int ==> sp_record_has(
                                fs.deep_view(),
                                #[trigger] fields.deep_view()[q].text,
                            ),
                    decreases fields@.len() - k,
                {
                    let mut found: bool = false;
                    let mut j: usize = 0;
                    while j < fs.len()
                        invariant
                            j <= fs@.len(),
                            k < fields@.len(),
                            found ==> sp_record_has(
                                fs.deep_view(),
                                fields.deep_view()[k as int].text,
                            ),
                            !found ==> forall|q: int|
                                0 <= q < j as int ==> fs.deep_view()[q].name
                                    != fields.deep_view()[k as int].text,
                        decreases fs@.len() - j,
                    {
                        if str_eq(&fs[j].name, &fields[k].text) {
                            proof {
                                assert(fs.deep_view()[j as int].name == fields.deep_view()[k as int].text);
                            }
                            found = true;
                        }
                        j = j + 1;
                    }
                    if !found {
                        proof {
                            assert(!sp_record_has(
                                fs.deep_view(),
                                fields.deep_view()[k as int].text,
                            ));
                        }
                        return false;
                    }
                    k = k + 1;
                }
                if !*has_rest {
                    fields.len() == fs.len()
                } else {
                    true
                }
            },
            _ => false,
        },
    }
}

/// Whether rule `k` of the candidate list may fire: a rule without a
/// guard always may; a guarded rule only when the host evaluated its
/// guard to true.
pub open spec fn sp_guard_holds(t: TransitionV, k: int, guards: Seq<bool>) -> bool {
    match t.predicate {
        None => true,
        Some(_) => 0 <= k < guards.len() && guards[k],
    }
}

/// The rules declared for this event from the state with that index:
/// the event's row, then the from-state's list, or nothing when
/// either is absent.
pub open spec fn sp_candidates(m: crate::machine::MachineV, current: int, event: Seq<char>) -> Seq<
    TransitionV,
> {
    let i = find_event(m.transitions.rows, event);
    if i < 0 || !(0 <= current < m.states.definition.len()) {
        Seq::empty()
    } else {
        let row = m.transitions.rows[i];
        let j = find_from(row.froms, m.states.definition[current].name.text);
        if j < 0 {
            Seq::empty()
        } else {
            row.froms[j].list
        }
    }
}

/// The first candidate at or after `k` whose pattern destructures
/// the slot and whose guard holds, or -1.
pub open spec fn sp_selected(list: Seq<TransitionV>, slot: ValueV, guards: Seq<bool>, k: int) -> int
    decreases list.len() - k,
{
    if k < 0 || k >= list.len() {
        -1
    } else if sp_pat_matches(list[k].from_pat, slot) && sp_guard_holds(list[k], k, guards) {
        k
    } else {
        sp_selected(list, slot, guards, k + 1)
    }
}

/// Dispatch determinism: the selected rule is the first, in declared
/// order, whose pattern matches and whose guard holds; every earlier
/// rule fails one of the two, and when none qualifies, none is
/// selected.
pub proof fn lemma_first_match_wins(list: Seq<TransitionV>, slot: ValueV, guards: Seq<bool>)
    ensures
        ({
            let sel = sp_selected(list, slot, guards, 0);
            &&& sel >= 0 ==> 0 <= sel < list.len() && sp_pat_matches(list[sel].from_pat, slot)
                && sp_guard_holds(list[sel], sel, guards) && (forall|j: int|
                0 <= j < sel ==> !(sp_pat_matches(#[trigger] list[j].from_pat, slot)
                    && sp_guard_holds(list[j], j, guards)))
            &&& sel < 0 ==> forall|j: int|
                0 <= j < list.len() ==> !(sp_pat_matches(#[trigger] list[j].from_pat, slot)
                    && sp_guard_holds(list[j], j, guards))
        }),
{
    lemma_selected_from(list, slot, guards, 0);
}

proof fn lemma_selected_from(list: Seq<TransitionV>, slot: ValueV, guards: Seq<bool>, k0: int)
    requires
        0 <= k0,
    ensures
        ({
            let sel = sp_selected(list, slot, guards, k0);
            &&& sel >= 0 ==> k0 <= sel < list.len() && sp_pat_matches(list[sel].from_pat, slot)
                && sp_guard_holds(list[sel], sel, guards) && (forall|j: int|
                k0 <= j < sel ==> !(sp_pat_matches(#[trigger] list[j].from_pat, slot)
                    && sp_guard_holds(list[j], j, guards)))
            &&& sel < 0 ==> forall|j: int|
                k0 <= j < list.len() ==> !(sp_pat_matches(#[trigger] list[j].from_pat, slot)
                    && sp_guard_holds(list[j], j, guards))
        }),
    decreases list.len() - k0,
{
    if k0 < list.len() && !(sp_pat_matches(list[k0].from_pat, slot) && sp_guard_holds(
        list[k0],
        k0,
        guards,
    )) {
        lemma_selected_from(list, slot, guards, k0 + 1);
    }
}

/// An event with no candidate rules selects nothing: the dispatch is
/// a no-op that reports `false`.
pub proof fn lemma_unmatched_event(
    m: crate::machine::MachineV,
    current: int,
    event: Seq<char>,
    slot: ValueV,
    guards: Seq<bool>,
)
    requires
        find_event(m.transitions.rows, event) < 0,
    ensures
        sp_candidates(m, current, event) =~= Seq::<TransitionV>::empty(),
        sp_selected(sp_candidates(m, current, event), slot, guards, 0) == -1,
{
}

/// Which handler a fired rule asks the host to invoke: the declared
/// handler's name, the old slot — absent on a self-transition — the
/// destination slot, and the event arguments in declared order.
#[derive(Debug, PartialEq)]
pub struct HandlerCall {
    pub handler: String,
    pub from_slot: Option<usize>,
    pub to_slot: usize,
    pub args: Vec<i64>,
}

/// A machine description running under the dispatch semantics: the
/// description, the active state's index, and one payload slot per
/// declared state.
#[derive(Debug)]
pub struct RuntimeMachine {
    pub desc: Machine,
    pub current: usize,
    pub slots: Vec<Value>,
}

impl RuntimeMachine {
    /// The machine is sound: its description has sound references,
    /// the active index names a declared state, and every state owns
    /// one slot of its declared shape.
    pub open spec fn wf(self) -> bool {
        &&& sp_wf_machine(self.desc.deep_view())
        &&& (self.current as int) < self.desc.states.definition@.len()
        &&& self.slots@.len() == self.desc.states.definition@.len()
        &&& forall|i: int|
            0 <= i < self.slots@.len() ==> value_fits(
                self.slots.deep_view()[i],
                self.desc.states.definition.deep_view()[i].fields,
            )
    }

    /// Builds a running machine: the declared initial state is
    /// active, and every slot holds its state's canonical default
    /// payload.
    #[verifier::loop_isolation(false)]
    pub fn new(desc: Machine) -> (r: RuntimeMachine)
        requires
            sp_wf_machine(desc.deep_view()),
            sp_state_declared(
                desc.states.definition.deep_view(),
                desc.states.initial.deep_view().text,
            ),
        ensures
            r.wf(),
            r.desc.deep_view() == desc.deep_view(),
            r.current as int == sp_state_index(
                desc.states.definition.deep_view(),
                desc.states.initial.deep_view().text,
            ),
            forall|i: int|
                0 <= i < r.slots@.len() ==> r.slots.deep_view()[i] == default_value(
                    desc.states.definition.deep_view()[i].fields,
                ),
    {
        proof {
            lemma_state_index_declared(
                desc.states.definition.deep_view(),
                desc.states.initial.deep_view().text,
            );
        }
        let current = state_index(&desc.states.definition, &desc.states.initial.text);
        let mut slots: Vec<Value> = Vec::new();
        let mut i: usize = 0;
        while i < desc.states.definition.len()
            invariant
                i <= desc.states.definition@.len(),
                slots@.len() == i as int,
                forall|k: int|
                    0 <= k < i as int ==> slots.deep_view()[k] == default_value(
                        desc.states.definition.deep_view()[k].fields,
                    ),
                forall|k: int|
                    0 <= k < i as int ==> value_fits(
                        slots.deep_view()[k],
                        desc.states.definition.deep_view()[k].fields,
                    ),
            decreases desc.states.definition@.len() - i,
        {
            let ghost prev = slots.deep_view();
            let v = default_value_of(&desc.states.definition[i].fields);
            slots.push(v);
            i = i + 1;
            proof {
                assert(slots.deep_view() =~= prev.push(v.deep_view()));
            }
        }
        RuntimeMachine { desc, current, slots }
    }

    /// Dispatches one event. The host hands in the event's arguments
    /// and the outcome of each candidate rule's guard. The first
    /// candidate whose pattern destructures the current slot and
    /// whose guard holds fires: the discriminant moves to its
    /// destination and the rule's handler invocation, if any, is
    /// handed back — with the old slot absent on a self-transition.
    /// No slot changes; when nothing fires the whole machine is
    /// untouched and the dispatch reports `false`.
    #[verifier::loop_isolation(false)]
    pub fn dispatch(&mut self, event: &String, args: &Vec<i64>, guards: &Vec<bool>) -> (r: (
        bool,
        Option<HandlerCall>,
    ))
        requires
            old(self).wf(),
        ensures
            final(self).wf(),
            final(self).desc.deep_view() == old(self).desc.deep_view(),
            final(self).slots.deep_view() == old(self).slots.deep_view(),
            ({
                let m = old(self).desc.deep_view();
                let cands = sp_candidates(m, old(self).current as int, event@);
                let slot = old(self).slots.deep_view()[old(self).current as int];
                let sel = sp_selected(cands, slot, guards@, 0);
                &&& sel < 0 ==> !r.0 && r.1 is None && final(self).current == old(self).current
                &&& sel >= 0 ==> {
                    let t = cands[sel];
                    &&& r.0
                    &&& final(self).current as int == sp_state_index(
                        m.states.definition,
                        t.to_ident.text,
                    )
                    &&& (match t.handler {
                        None => r.1 is None,
                        Some(h) => r.1 matches Some(hc) && hc.handler@ == h.text && (
                        if t.to_ident.text == m.states.definition[old(self).current as int].name.text {
                            hc.from_slot is None
                        } else {
                            hc.from_slot == Some(old(self).current)
                        }) && hc.to_slot == final(self).current && hc.args@ == args@
                    })
                }
            }),
    {
        let ghost m = self.desc.deep_view();
        let ghost cands = sp_candidates(m, self.current as int, event@);
        let ghost slotv = self.slots.deep_view()[self.current as int];
        let idx = find_event_row(&self.desc.transitions.rows, event);
        if idx == self.desc.transitions.rows.len() {
            proof {
                assert(cands =~= Seq::<TransitionV>::empty());
            }
            return (false, None);
        }
        let current_name = &self.desc.states.definition[self.current].name;
        let j = find_from_row(&self.desc.transitions.rows[idx].froms, &current_name.text);
        if j == self.desc.transitions.rows[idx].froms.len() {
            proof {
                assert(cands =~= Seq::<TransitionV>::empty());
            }
            return (false, None);
        }
        let list = &self.desc.transitions.rows[idx].froms[j].list;
        proof {
            assert(list.deep_view() == cands);
        }
        let mut k: usize = 0;
        while k < list.len()
            invariant
                self == old(self),
                k <= list@.len(),
                sp_selected(cands, slotv, guards@, 0) == sp_selected(
                    cands,
                    slotv,
                    guards@,
                    k as int,
                ),
            decreases list@.len() - k,
        {
            let t = &list[k];
            let guard_ok: bool = match &t.predicate {
                None => true,
                Some(_) => k < guards.len() && guards[k],
            };
            proof {
                assert(cands[k as int] == t.deep_view());
                assert(guard_ok == sp_guard_holds(cands[k as int], k as int, guards@));
            }
            if guard_ok && pat_matches(&t.from_pat, &self.slots[self.current]) {
                proof {
                    assert(sp_pat_matches(cands[k as int].from_pat, slotv));
                    assert(sp_selected(cands, slotv, guards@, k as int) == k as int);
                    assert(sp_wf_machine(m));
                    assert(cands[k as int].to_ident.text == t.deep_view().to_ident.text);
                    assert(sp_state_declared(m.states.definition, t.deep_view().to_ident.text));
                    lemma_state_index_declared(m.states.definition, t.deep_view().to_ident.text);
                }
                let to = state_index(&self.desc.states.definition, &t.to_ident.text);
                let call: Option<HandlerCall> = match &t.handler {
                    None => None,
                    Some(h) => {
                        let from_slot: Option<usize> = if str_eq(
                            &t.to_ident.text,
                            &current_name.text,
                        ) {
                            None
                        } else {
                            Some(self.current)
                        };
                        Some(
                            HandlerCall {
                                handler: h.text.clone(),
                                from_slot,
                                to_slot: to,
                                args: args.clone(),
                            },
                        )
                    },
                };
                self.current = to;
                return (true, call);
            }
            proof {
                assert(!(sp_pat_matches(cands[k as int].from_pat, slotv) && sp_guard_holds(
                    cands[k as int],
                    k as int,
                    guards@,
                )));
            }
            k = k + 1;
        }
        proof {
            assert(sp_selected(cands, slotv, guards@, k as int) == -1);
        }
        (false, None)
    }

    /// Writes a handler's result into one slot, which must keep its
    /// state's declared shape. This is the only operation that
    /// changes a slot: what a handler does not overwrite persists.
    pub fn store(&mut self, slot: usize, value: Value)
        requires
            old(self).wf(),
            slot < old(self).slots@.len(),
            value_fits(
                value.deep_view(),
                old(self).desc.states.definition.deep_view()[slot as int].fields,
            ),
        ensures
            final(self).wf(),
            final(self).desc.deep_view() == old(self).desc.deep_view(),
            final(self).current == old(self).current,
            final(self).slots.deep_view() == old(self).slots.deep_view().update(
                slot as int,
                value.deep_view(),
            ),
    {
        let ghost prev = self.slots.deep_view();
        let ghost vv = value.deep_view();
        self.slots.set(slot, value);
        proof {
            assert(self.slots.deep_view() =~= prev.update(slot as int, vv));
        }
    }
}

/// Slot persistence: dispatch keeps every slot, and a store to one
/// slot keeps every other, so after leaving a state and coming back
/// its slot still holds whatever was last written there — the
/// synthesized default only until some handler's store overwrote it.
pub proof fn lemma_slot_persistence(
    slots0: Seq<ValueV>,
    slots1: Seq<ValueV>,
    slots2: Seq<ValueV>,
    written: int,
    v: ValueV,
    x: int,
)
    requires
        slots1 == slots0,
        slots2 == slots1.update(written, v),
        0 <= x < slots0.len(),
        0 <= written < slots1.len(),
        written != x,
    ensures
        slots2[x] == slots0[x],
{
}

} // verus!
