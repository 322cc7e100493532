//! The semantic validator.
//!
//! A parsed machine is checked for referential integrity: no state
//! name may be declared with two shapes, and every state or event a
//! transition mentions must be declared. Any violation is fatal and
//! reported at the offending identifier. Reachability findings are
//! advisory: an event with no transition row can never fire, a state
//! that no transition leaves or enters can never be reached — each
//! yields one warning, and compilation goes on. The machine itself
//! passes through unchanged.

use vstd::prelude::*;

use crate::error::SemanticError;
use crate::error::SemanticErrorV;
use crate::error::SemanticWarning;
use crate::error::SemanticWarningV;
use crate::events::EventV;
use crate::machine::Machine;
use crate::machine::MachineV;
use crate::states::VariantV;
use crate::token::str_eq;
use crate::transitions::find_event;
use crate::transitions::find_event_row;
use crate::transitions::EventRowV;
use crate::transitions::FromRowV;
use crate::transitions::TransitionV;

verus! {

/// Whether a state of that spelling is declared.
pub open spec fn sp_state_declared(states: Seq<VariantV>, text: Seq<char>) -> bool {
    exists|i: int| 0 <= i < states.len() && states[i].name.text == text
}

/// Whether an event of that spelling is declared.
pub open spec fn sp_event_declared(events: Seq<EventV>, text: Seq<char>) -> bool {
    exists|i: int| 0 <= i < events.len() && events[i].name.text == text
}

/// Whether any transition leaves or enters a state of that spelling.
pub open spec fn sp_state_used(rows: Seq<EventRowV>, text: Seq<char>) -> bool {
    exists|i: int, j: int|
        0 <= i < rows.len() && 0 <= j < rows[i].froms.len() && (rows[i].froms[j].from.text == text
            || sp_list_enters(rows[i].froms[j].list, text))
}

/// Whether some transition of the list enters a state of that
/// spelling.
pub open spec fn sp_list_enters(list: Seq<TransitionV>, text: Seq<char>) -> bool {
    exists|k: int| 0 <= k < list.len() && list[k].to_ident.text == text
}

/// No state name is declared twice.
pub open spec fn sp_no_dup_states(states: Seq<VariantV>) -> bool {
    forall|i: int, j: int|
        0 <= i < j < states.len() ==> states[i].name.text != states[j].name.text
}

/// Every from-state of the table is declared.
pub open spec fn sp_froms_declared(states: Seq<VariantV>, rows: Seq<EventRowV>) -> bool {
    forall|i: int, j: int|
        0 <= i < rows.len() && 0 <= j < rows[i].froms.len() ==> sp_state_declared(
            states,
            #[trigger] rows[i].froms[j].from.text,
        )
}

/// Every destination state of the table is declared.
pub open spec fn sp_tos_declared(states: Seq<VariantV>, rows: Seq<EventRowV>) -> bool {
    forall|i: int, j: int, k: int|
        0 <= i < rows.len() && 0 <= j < rows[i].froms.len() && 0 <= k
            < rows[i].froms[j].list.len() ==> sp_state_declared(
            states,
            #[trigger] rows[i].froms[j].list[k].to_ident.text,
        )
}

/// Every event of the table is declared.
pub open spec fn sp_events_declared(events: Seq<EventV>, rows: Seq<EventRowV>) -> bool {
    forall|i: int|
        0 <= i < rows.len() ==> sp_event_declared(events, #[trigger] rows[i].event.text)
}

/// A machine with sound references: one shape per state name, and no
/// transition naming an undeclared state or event.
pub open spec fn sp_wf_machine(m: MachineV) -> bool {
    &&& sp_no_dup_states(m.states.definition)
    &&& sp_froms_declared(m.states.definition, m.transitions.rows)
    &&& sp_tos_declared(m.states.definition, m.transitions.rows)
    &&& sp_events_declared(m.events, m.transitions.rows)
}

/// The first state name declared with a second shape, from `i` on.
pub open spec fn sp_check_dup(states: Seq<VariantV>, i: int) -> Option<SemanticErrorV>
    decreases states.len() - i,
{
    if i >= states.len() {
        None
    } else if exists|k: int| 0 <= k < i && states[k].name.text == states[i].name.text {
        Some(
            SemanticErrorV::ConflictingShapes {
                name: states[i].name.text,
                span: states[i].name.span,
            },
        )
    } else {
        sp_check_dup(states, i + 1)
    }
}

/// The first undeclared destination in one transition list, from `k`
/// on.
pub open spec fn sp_check_tos(
    states: Seq<VariantV>,
    list: Seq<TransitionV>,
    k: int,
) -> Option<SemanticErrorV>
    decreases list.len() - k,
{
    if k >= list.len() {
        None
    } else if !sp_state_declared(states, list[k].to_ident.text) {
        Some(
            SemanticErrorV::UndefinedState {
                name: list[k].to_ident.text,
                span: list[k].to_ident.span,
            },
        )
    } else {
        sp_check_tos(states, list, k + 1)
    }
}

/// The first undeclared state in one event row, from `j` on: each
/// from-state first, then the destinations of its transitions.
pub open spec fn sp_check_froms(
    states: Seq<VariantV>,
    froms: Seq<FromRowV>,
    j: int,
) -> Option<SemanticErrorV>
    decreases froms.len() - j,
{
    if j >= froms.len() {
        None
    } else if !sp_state_declared(states, froms[j].from.text) {
        Some(
            SemanticErrorV::UndefinedState {
                name: froms[j].from.text,
                span: froms[j].from.span,
            },
        )
    } else {
        match sp_check_tos(states, froms[j].list, 0) {
            Some(e) => Some(e),
            None => sp_check_froms(states, froms, j + 1),
        }
    }
}

/// The first undeclared state in the table, from row `i` on.
pub open spec fn sp_check_states(
    states: Seq<VariantV>,
    rows: Seq<EventRowV>,
    i: int,
) -> Option<SemanticErrorV>
    decreases rows.len() - i,
{
    if i >= rows.len() {
        None
    } else {
        match sp_check_froms(states, rows[i].froms, 0) {
            Some(e) => Some(e),
            None => sp_check_states(states, rows, i + 1),
        }
    }
}

/// The first undeclared event in the table, from row `i` on.
pub open spec fn sp_check_events(
    events: Seq<EventV>,
    rows: Seq<EventRowV>,
    i: int,
) -> Option<SemanticErrorV>
    decreases rows.len() - i,
{
    if i >= rows.len() {
        None
    } else if !sp_event_declared(events, rows[i].event.text) {
        Some(
            SemanticErrorV::UndefinedEvent {
                name: rows[i].event.text,
                span: rows[i].event.span,
            },
        )
    } else {
        sp_check_events(events, rows, i + 1)
    }
}

/// The first fatal finding, in checking order: duplicate shapes,
/// then undeclared states, then undeclared events.
pub open spec fn sp_first_error(m: MachineV) -> Option<SemanticErrorV> {
    match sp_check_dup(m.states.definition, 0) {
        Some(e) => Some(e),
        None => match sp_check_states(m.states.definition, m.transitions.rows, 0) {
            Some(e) => Some(e),
            None => sp_check_events(m.events, m.transitions.rows, 0),
        },
    }
}

/// One warning per declared event with no transition row, in
/// declaration order, from `i` on.
pub open spec fn sp_event_warnings(
    events: Seq<EventV>,
    rows: Seq<EventRowV>,
    i: int,
) -> Seq<SemanticWarningV>
    decreases events.len() - i,
{
    if i >= events.len() {
        Seq::empty()
    } else {
        let head: Seq<SemanticWarningV> = if find_event(rows, events[i].name.text) < 0 {
            seq![
                SemanticWarningV::UnreachableEvent {
                    name: events[i].name.text,
                    span: events[i].name.span,
                },
            ]
        } else {
            Seq::empty()
        };
        head + sp_event_warnings(events, rows, i + 1)
    }
}

/// One warning per declared state that no transition leaves or
/// enters, in declaration order, from `i` on.
pub open spec fn sp_state_warnings(
    states: Seq<VariantV>,
    rows: Seq<EventRowV>,
    i: int,
) -> Seq<SemanticWarningV>
    decreases states.len() - i,
{
    if i >= states.len() {
        Seq::empty()
    } else {
        let head: Seq<SemanticWarningV> = if !sp_state_used(rows, states[i].name.text) {
            seq![
                SemanticWarningV::UnreachableState {
                    name: states[i].name.text,
                    span: states[i].name.span,
                },
            ]
        } else {
            Seq::empty()
        };
        head + sp_state_warnings(states, rows, i + 1)
    }
}

/// The whole validation pass: the first fatal finding, or the
/// collected warnings — events first, then states.
pub open spec fn sp_validate(m: MachineV) -> Result<Seq<SemanticWarningV>, SemanticErrorV> {
    match sp_first_error(m) {
        Some(e) => Err(e),
        None => Ok(
            sp_event_warnings(m.events, m.transitions.rows, 0) + sp_state_warnings(
                m.states.definition,
                m.transitions.rows,
                0,
            ),
        ),
    }
}

/// The duplicate check finds nothing exactly on duplicate-free
/// declarations.
pub proof fn lemma_check_dup_none(states: Seq<VariantV>, i: int)
    requires
        0 <= i <= states.len(),
        forall|p: int, q: int| 0 <= p < q < i ==> states[p].name.text != states[q].name.text,
    ensures
        sp_check_dup(states, i) is None <==> sp_no_dup_states(states),
    decreases states.len() - i,
{
    if i < states.len() {
        if exists|k: int| 0 <= k < i && states[k].name.text == states[i].name.text {
        } else {
            lemma_check_dup_none(states, i + 1);
        }
    }
}

/// The destination check finds nothing exactly when every
/// destination of the list is declared.
pub proof fn lemma_check_tos_none(states: Seq<VariantV>, list: Seq<TransitionV>)
    ensures
        sp_check_tos(states, list, 0) is None <==> (forall|k: int|
            0 <= k < list.len() ==> sp_state_declared(states, #[trigger] list[k].to_ident.text)),
{
    lemma_check_tos_none_from(states, list, 0);
}

proof fn lemma_check_tos_none_from(states: Seq<VariantV>, list: Seq<TransitionV>, k0: int)
    requires
        0 <= k0,
    ensures
        sp_check_tos(states, list, k0) is None <==> (forall|k: int|
            k0 <= k < list.len() ==> sp_state_declared(states, #[trigger] list[k].to_ident.text)),
    decreases list.len() - k0,
{
    if k0 < list.len() && sp_state_declared(states, list[k0].to_ident.text) {
        lemma_check_tos_none_from(states, list, k0 + 1);
    }
}

proof fn lemma_check_froms_none_from(states: Seq<VariantV>, froms: Seq<FromRowV>, j0: int)
    requires
        0 <= j0,
    ensures
        sp_check_froms(states, froms, j0) is None <==> (forall|j: int|
            j0 <= j < froms.len() ==> sp_state_declared(states, #[trigger] froms[j].from.text)
                && (forall|k: int|
                0 <= k < froms[j].list.len() ==> sp_state_declared(
                    states,
                    #[trigger] froms[j].list[k].to_ident.text,
                ))),
    decreases froms.len() - j0,
{
    if j0 < froms.len() {
        lemma_check_tos_none(states, froms[j0].list);
        if sp_state_declared(states, froms[j0].from.text) && sp_check_tos(
            states,
            froms[j0].list,
            0,
        ) is None {
            lemma_check_froms_none_from(states, froms, j0 + 1);
        }
    }
}

/// The state check over the table finds nothing exactly when every
/// from-state and every destination is declared.
pub proof fn lemma_check_states_none(states: Seq<VariantV>, rows: Seq<EventRowV>)
    ensures
        sp_check_states(states, rows, 0) is None <==> (sp_froms_declared(states, rows)
            && sp_tos_declared(states, rows)),
{
    lemma_check_states_none_from(states, rows, 0);
    if sp_check_states(states, rows, 0) is None {
        assert forall|i: int, j: int, k: int|
            0 <= i < rows.len() && 0 <= j < rows[i].froms.len() && 0 <= k
                < rows[i].froms[j].list.len() implies sp_state_declared(
            states,
            #[trigger] rows[i].froms[j].list[k].to_ident.text,
        ) by {
            assert(sp_state_declared(states, rows[i].froms[j].from.text));
        }
    }
}

proof fn lemma_check_states_none_from(states: Seq<VariantV>, rows: Seq<EventRowV>, i0: int)
    requires
        0 <= i0,
    ensures
        sp_check_states(states, rows, i0) is None <==> (forall|i: int, j: int|
            i0 <= i < rows.len() && 0 <= j < rows[i].froms.len() ==> sp_state_declared(
                states,
                #[trigger] rows[i].froms[j].from.text,
            ) && (forall|k: int|
                0 <= k < rows[i].froms[j].list.len() ==> sp_state_declared(
                    states,
                    #[trigger] rows[i].froms[j].list[k].to_ident.text,
                ))),
    decreases rows.len() - i0,
{
    if i0 < rows.len() {
        lemma_check_froms_none_from(states, rows[i0].froms, 0);
        if sp_check_froms(states, rows[i0].froms, 0) is None {
            lemma_check_states_none_from(states, rows, i0 + 1);
        }
    }
}

/// The event check over the table finds nothing exactly when every
/// event of the table is declared.
pub proof fn lemma_check_events_none(events: Seq<EventV>, rows: Seq<EventRowV>)
    ensures
        sp_check_events(events, rows, 0) is None <==> sp_events_declared(events, rows),
{
    lemma_check_events_none_from(events, rows, 0);
}

proof fn lemma_check_events_none_from(events: Seq<EventV>, rows: Seq<EventRowV>, i0: int)
    requires
        0 <= i0,
    ensures
        sp_check_events(events, rows, i0) is None <==> (forall|i: int|
            i0 <= i < rows.len() ==> sp_event_declared(events, #[trigger] rows[i].event.text)),
    decreases rows.len() - i0,
{
    if i0 < rows.len() && sp_event_declared(events, rows[i0].event.text) {
        lemma_check_events_none_from(events, rows, i0 + 1);
    }
}

/// Validation succeeds exactly on machines with sound references.
pub proof fn lemma_validate_ok_iff(m: MachineV)
    ensures
        sp_validate(m) is Ok <==> sp_wf_machine(m),
{
    lemma_check_dup_none(m.states.definition, 0);
    lemma_check_states_none(m.states.definition, m.transitions.rows);
    lemma_check_events_none(m.events, m.transitions.rows);
}


/// Whether a state of that spelling is declared.
fn state_declared_exec(states: &Vec<crate::states::Variant>, text: &String) -> (r: bool)
    ensures
        r == sp_state_declared(states.deep_view(), text@),
{
    let mut i: usize = 0;
    while i < states.len()
        invariant
            i <= states@.len(),
            forall|k: int| 0 <= k < i as int ==> states.deep_view()[k].name.text != text@,
        decreases states@.len() - i,
    {
        if str_eq(&states[i].name.text, text) {
            proof {
                assert(states.deep_view()[i as int].name.text == text@);
            }
            return true;
        }
        i = i + 1;
    }
    false
}

/// Whether an event of that spelling is declared.
fn event_declared_exec(events: &Vec<crate::events::Event>, text: &String) -> (r: bool)
    ensures
        r == sp_event_declared(events.deep_view(), text@),
{
    let mut i: usize = 0;
    while i < events.len()
        invariant
            i <= events@.len(),
            forall|k: int| 0 <= k < i as int ==> events.deep_view()[k].name.text != text@,
        decreases events@.len() - i,
    {
        if str_eq(&events[i].name.text, text) {
            proof {
                assert(events.deep_view()[i as int].name.text == text@);
            }
            return true;
        }
        i = i + 1;
    }
    false
}

/// Whether some transition of the list enters a state of that
/// spelling.
fn list_enters_exec(list: &Vec<crate::transitions::Transition>, text: &String) -> (r: bool)
    ensures
        r == sp_list_enters(list.deep_view(), text@),
{
    let mut k: usize = 0;
    while k < list.len()
        invariant
            k <= list@.len(),
            forall|p: int| 0 <= p < k as int ==> list.deep_view()[p].to_ident.text != text@,
        decreases list@.len() - k,
    {
        if str_eq(&list[k].to_ident.text, text) {
            proof {
                assert(list.deep_view()[k as int].to_ident.text == text@);
            }
            return true;
        }
        k = k + 1;
    }
    false
}

/// Whether any transition of the table leaves or enters a state of
/// that spelling.
fn state_used_exec(rows: &Vec<crate::transitions::EventRow>, text: &String) -> (r: bool)
    ensures
        r == sp_state_used(rows.deep_view(), text@),
{
    let mut i: usize = 0;
    while i < rows.len()
        invariant
            i <= rows@.len(),
            forall|p: int, q: int|
                0 <= p < i as int && 0 <= q < rows.deep_view()[p].froms.len() ==> !(
                rows.deep_view()[p].froms[q].from.text == text@ || sp_list_enters(
                    rows.deep_view()[p].froms[q].list,
                    text@,
                )),
        decreases rows@.len() - i,
    {
        let froms = &rows[i].froms;
        let mut j: usize = 0;
        while j < froms.len()
            invariant
                i < rows@.len(),
                j <= froms@.len(),
                froms.deep_view() == rows.deep_view()[i as int].froms,
                forall|q: int|
                    0 <= q < j as int ==> !(rows.deep_view()[i as int].froms[q].from.text == text@
                        || sp_list_enters(rows.deep_view()[i as int].froms[q].list, text@)),
            decreases froms@.len() - j,
        {
            if str_eq(&froms[j].from.text, text) || list_enters_exec(&froms[j].list, text) {
                proof {
                    assert(froms.deep_view()[j as int] == rows.deep_view()[i as int].froms[j as int]);
                }
                return true;
            }
            j = j + 1;
        }
        i = i + 1;
    }
    false
}

/// Whether an earlier variant already uses the name of variant `i`.
fn dup_before(states: &Vec<crate::states::Variant>, i: usize) -> (r: bool)
    requires
        i < states@.len(),
    ensures
        r == exists|k: int|
            0 <= k < i as int && states.deep_view()[k].name.text == states.deep_view()[i as int].name.text,
{
    let mut k: usize = 0;
    while k < i
        invariant
            k <= i < states@.len(),
            forall|p: int|
                0 <= p < k as int ==> states.deep_view()[p].name.text != states.deep_view()[i as int].name.text,
        decreases i - k,
    {
        if str_eq(&states[k].name.text, &states[i].name.text) {
            proof {
                assert(states.deep_view()[k as int].name.text == states.deep_view()[i as int].name.text);
            }
            return true;
        }
        k = k + 1;
    }
    false
}

/// The validation pass: checks referential integrity, collects
/// reachability warnings, and returns the machine unchanged on
/// success. It succeeds exactly on machines with sound references.
#[verifier::loop_isolation(false)]
pub fn parse_semantic(machine: Machine) -> (r: Result<
    (Machine, Vec<SemanticWarning>),
    SemanticError,
>)
    ensures
        match r {
            Ok((m2, ws)) => m2.deep_view() == machine.deep_view() && sp_validate(
                machine.deep_view(),
            ) == Ok::<_, SemanticErrorV>(ws.deep_view()),
            Err(e) => sp_validate(machine.deep_view()) == Err::<Seq<SemanticWarningV>, _>(
                e.deep_view(),
            ),
        },
        r is Ok <==> sp_wf_machine(machine.deep_view()),
{
    proof {
        lemma_validate_ok_iff(machine.deep_view());
    }
    let ghost sdv = machine.states.definition.deep_view();
    let ghost rdv = machine.transitions.rows.deep_view();
    let ghost edv = machine.events.deep_view();

    let mut i: usize = 0;
    while i < machine.states.definition.len()
        invariant
            i <= sdv.len(),
            sp_check_dup(sdv, 0) == sp_check_dup(sdv, i as int),
        decreases sdv.len() - i,
    {
        if dup_before(&machine.states.definition, i) {
            let e = SemanticError::ConflictingShapes {
                name: machine.states.definition[i].name.text.clone(),
                span: machine.states.definition[i].name.span,
            };
            return Err(e);
        }
        i = i + 1;
    }

    let mut i: usize = 0;
    while i < machine.transitions.rows.len()
        invariant
            i <= rdv.len(),
            sp_check_dup(sdv, 0) is None,
            sp_check_states(sdv, rdv, 0) == sp_check_states(sdv, rdv, i as int),
        decreases rdv.len() - i,
    {
        let froms = &machine.transitions.rows[i].froms;
        let mut j: usize = 0;
        while j < froms.len()
            invariant
                i < rdv.len(),
                j <= froms@.len(),
                froms.deep_view() == rdv[i as int].froms,
                sp_check_froms(sdv, rdv[i as int].froms, 0) == sp_check_froms(
                    sdv,
                    rdv[i as int].froms,
                    j as int,
                ),
            decreases froms@.len() - j,
        {
            if !state_declared_exec(&machine.states.definition, &froms[j].from.text) {
                let e = SemanticError::UndefinedState {
                    name: froms[j].from.text.clone(),
                    span: froms[j].from.span,
                };
                return Err(e);
            }
            let list = &froms[j].list;
            let mut k: usize = 0;
            while k < list.len()
                invariant
                    i < rdv.len(),
                    j < froms@.len(),
                    k <= list@.len(),
                    froms.deep_view() == rdv[i as int].froms,
                    list.deep_view() == rdv[i as int].froms[j as int].list,
                    sp_check_tos(sdv, rdv[i as int].froms[j as int].list, 0) == sp_check_tos(
                        sdv,
                        rdv[i as int].froms[j as int].list,
                        k as int,
                    ),
                decreases list@.len() - k,
            {
                if !state_declared_exec(&machine.states.definition, &list[k].to_ident.text) {
                    let e = SemanticError::UndefinedState {
                        name: list[k].to_ident.text.clone(),
                        span: list[k].to_ident.span,
                    };
                    return Err(e);
                }
                k = k + 1;
            }
            j = j + 1;
        }
        i = i + 1;
    }

    let mut i: usize = 0;
    while i < machine.transitions.rows.len()
        invariant
            i <= rdv.len(),
            sp_check_dup(sdv, 0) is None,
            sp_check_states(sdv, rdv, 0) is None,
            sp_check_events(edv, rdv, 0) == sp_check_events(edv, rdv, i as int),
        decreases rdv.len() - i,
    {
        if !event_declared_exec(&machine.events, &machine.transitions.rows[i].event.text) {
            let e = SemanticError::UndefinedEvent {
                name: machine.transitions.rows[i].event.text.clone(),
                span: machine.transitions.rows[i].event.span,
            };
            return Err(e);
        }
        i = i + 1;
    }

    let mut ws: Vec<SemanticWarning> = Vec::new();
    proof {
        assert(ws.deep_view() =~= Seq::<SemanticWarningV>::empty());
        assert(ws.deep_view() + sp_event_warnings(edv, rdv, 0) =~= sp_event_warnings(
            edv,
            rdv,
            0,
        ));
    }
    let mut i: usize = 0;
    while i < machine.events.len()
        invariant
            i <= edv.len(),
            sp_event_warnings(edv, rdv, 0) == ws.deep_view() + sp_event_warnings(
                edv,
                rdv,
                i as int,
            ),
        decreases edv.len() - i,
    {
        let ghost before = ws.deep_view();
        let f = find_event_row(&machine.transitions.rows, &machine.events[i].name.text);
        if f == machine.transitions.rows.len() {
            let w = SemanticWarning::UnreachableEvent {
                name: machine.events[i].name.text.clone(),
                span: machine.events[i].name.span,
            };
            ws.push(w);
            proof {
                assert(ws.deep_view() =~= before.push(w.deep_view()));
            }
        }
        i = i + 1;
        proof {
            assert(sp_event_warnings(edv, rdv, 0) =~= ws.deep_view() + sp_event_warnings(
                edv,
                rdv,
                i as int,
            ));
        }
    }
    let ghost ews = sp_event_warnings(edv, rdv, 0);
    proof {
        assert(sp_event_warnings(edv, rdv, edv.len() as int) =~= Seq::<SemanticWarningV>::empty());
        assert(ws.deep_view() =~= ews);
        assert(ews + sp_state_warnings(sdv, rdv, 0) =~= ws.deep_view() + sp_state_warnings(
            sdv,
            rdv,
            0,
        ));
    }
    let mut i: usize = 0;
    while i < machine.states.definition.len()
        invariant
            i <= sdv.len(),
            ews + sp_state_warnings(sdv, rdv, 0) == ws.deep_view() + sp_state_warnings(
                sdv,
                rdv,
                i as int,
            ),
        decreases sdv.len() - i,
    {
        let ghost before = ws.deep_view();
        if !state_used_exec(&machine.transitions.rows, &machine.states.definition[i].name.text) {
            let w = SemanticWarning::UnreachableState {
                name: machine.states.definition[i].name.text.clone(),
                span: machine.states.definition[i].name.span,
            };
            ws.push(w);
            proof {
                assert(ws.deep_view() =~= before.push(w.deep_view()));
            }
        }
        i = i + 1;
        proof {
            assert(ews + sp_state_warnings(sdv, rdv, 0) =~= ws.deep_view() + sp_state_warnings(
                sdv,
                rdv,
                i as int,
            ));
        }
    }
    proof {
        assert(sp_state_warnings(sdv, rdv, sdv.len() as int) =~= Seq::<SemanticWarningV>::empty());
        assert(ws.deep_view() =~= ews + sp_state_warnings(sdv, rdv, 0));
    }
    Ok((machine, ws))
}


/// How many warnings of the list say that an event of that spelling
/// is unreachable.
pub open spec fn sp_count_unreachable_event(ws: Seq<SemanticWarningV>, text: Seq<char>) -> int
    decreases ws.len(),
{
    if ws.len() == 0 {
        0
    } else {
        (match ws[0] {
            SemanticWarningV::UnreachableEvent { name, .. } => if name == text {
                1int
            } else {
                0int
            },
            _ => 0int,
        }) + sp_count_unreachable_event(ws.drop_first(), text)
    }
}

proof fn lemma_count_concat(a: Seq<SemanticWarningV>, b: Seq<SemanticWarningV>, text: Seq<char>)
    ensures
        sp_count_unreachable_event(a + b, text) == sp_count_unreachable_event(a, text)
            + sp_count_unreachable_event(b, text),
    decreases a.len(),
{
    if a.len() == 0 {
        assert(a + b =~= b);
    } else {
        assert((a + b).drop_first() =~= a.drop_first() + b);
        lemma_count_concat(a.drop_first(), b, text);
    }
}

/// How many declared events from `i` on have that spelling and no
/// transition row.
pub open spec fn sp_count_missing(
    events: Seq<EventV>,
    rows: Seq<EventRowV>,
    text: Seq<char>,
    i: int,
) -> int
    decreases events.len() - i,
{
    if i < 0 || i >= events.len() {
        0
    } else {
        (if events[i].name.text == text && find_event(rows, events[i].name.text) < 0 {
            1int
        } else {
            0int
        }) + sp_count_missing(events, rows, text, i + 1)
    }
}

proof fn lemma_count_event_warnings(
    events: Seq<EventV>,
    rows: Seq<EventRowV>,
    text: Seq<char>,
    i: int,
)
    requires
        0 <= i,
    ensures
        sp_count_unreachable_event(sp_event_warnings(events, rows, i), text) == sp_count_missing(
            events,
            rows,
            text,
            i,
        ),
    decreases events.len() - i,
{
    if i < events.len() {
        lemma_count_event_warnings(events, rows, text, i + 1);
        let head: Seq<SemanticWarningV> = if find_event(rows, events[i].name.text) < 0 {
            seq![
                SemanticWarningV::UnreachableEvent {
                    name: events[i].name.text,
                    span: events[i].name.span,
                },
            ]
        } else {
            Seq::empty()
        };
        assert(sp_event_warnings(events, rows, i) == head + sp_event_warnings(
            events,
            rows,
            i + 1,
        ));
        lemma_count_concat(head, sp_event_warnings(events, rows, i + 1), text);
        assert(sp_count_unreachable_event(Seq::<SemanticWarningV>::empty(), text) == 0);
        if find_event(rows, events[i].name.text) < 0 {
            assert(head.drop_first() =~= Seq::<SemanticWarningV>::empty());
            assert(sp_count_unreachable_event(head, text) == if events[i].name.text == text {
                1int
            } else {
                0int
            });
        } else {
            assert(sp_count_unreachable_event(head, text) == 0);
        }
    }
}

proof fn lemma_state_warnings_count_zero(
    states: Seq<VariantV>,
    rows: Seq<EventRowV>,
    text: Seq<char>,
    i: int,
)
    requires
        0 <= i,
    ensures
        sp_count_unreachable_event(sp_state_warnings(states, rows, i), text) == 0,
    decreases states.len() - i,
{
    if i < states.len() {
        lemma_state_warnings_count_zero(states, rows, text, i + 1);
        let head: Seq<SemanticWarningV> = if !sp_state_used(rows, states[i].name.text) {
            seq![
                SemanticWarningV::UnreachableState {
                    name: states[i].name.text,
                    span: states[i].name.span,
                },
            ]
        } else {
            Seq::empty()
        };
        assert(sp_state_warnings(states, rows, i) == head + sp_state_warnings(
            states,
            rows,
            i + 1,
        ));
        lemma_count_concat(head, sp_state_warnings(states, rows, i + 1), text);
        assert(sp_count_unreachable_event(Seq::<SemanticWarningV>::empty(), text) == 0);
        if !sp_state_used(rows, states[i].name.text) {
            assert(head.drop_first() =~= Seq::<SemanticWarningV>::empty());
            assert(sp_count_unreachable_event(head, text) == 0);
        } else {
            assert(sp_count_unreachable_event(head, text) == 0);
        }
    }
}

proof fn lemma_count_missing_unique(
    events: Seq<EventV>,
    rows: Seq<EventRowV>,
    i: int,
    k: int,
)
    requires
        0 <= k <= events.len(),
        0 <= i < events.len(),
        find_event(rows, events[i].name.text) < 0,
        forall|j: int|
            0 <= j < events.len() && j != i ==> events[j].name.text != events[i].name.text,
    ensures
        sp_count_missing(events, rows, events[i].name.text, k) == if k <= i {
            1int
        } else {
            0int
        },
    decreases events.len() - k,
{
    if k < events.len() {
        lemma_count_missing_unique(events, rows, i, k + 1);
    }
}

/// An event declared once and absent from every transition row
/// yields exactly one unreachable-event warning — and, the
/// validation having succeeded, no fatal error at all.
pub proof fn lemma_unreachable_event_exactly_once(
    m: MachineV,
    ws: Seq<SemanticWarningV>,
    i: int,
)
    requires
        sp_validate(m) == Ok::<Seq<SemanticWarningV>, SemanticErrorV>(ws),
        0 <= i < m.events.len(),
        find_event(m.transitions.rows, m.events[i].name.text) < 0,
        forall|j: int|
            0 <= j < m.events.len() && j != i ==> m.events[j].name.text != m.events[i].name.text,
    ensures
        sp_count_unreachable_event(ws, m.events[i].name.text) == 1,
{
    let text = m.events[i].name.text;
    lemma_count_concat(
        sp_event_warnings(m.events, m.transitions.rows, 0),
        sp_state_warnings(m.states.definition, m.transitions.rows, 0),
        text,
    );
    lemma_count_event_warnings(m.events, m.transitions.rows, text, 0);
    lemma_state_warnings_count_zero(m.states.definition, m.transitions.rows, text, 0);
    lemma_count_missing_unique(m.events, m.transitions.rows, i, 0);
}

proof fn lemma_check_tos_kind(states: Seq<VariantV>, list: Seq<TransitionV>, k: int)
    requires
        0 <= k,
    ensures
        sp_check_tos(states, list, k) matches Some(e) ==> e is UndefinedState,
    decreases list.len() - k,
{
    if k < list.len() && sp_state_declared(states, list[k].to_ident.text) {
        lemma_check_tos_kind(states, list, k + 1);
    }
}

proof fn lemma_check_froms_kind(states: Seq<VariantV>, froms: Seq<FromRowV>, j: int)
    requires
        0 <= j,
    ensures
        sp_check_froms(states, froms, j) matches Some(e) ==> e is UndefinedState,
    decreases froms.len() - j,
{
    if j < froms.len() && sp_state_declared(states, froms[j].from.text) {
        lemma_check_tos_kind(states, froms[j].list, 0);
        lemma_check_froms_kind(states, froms, j + 1);
    }
}

proof fn lemma_check_states_kind(states: Seq<VariantV>, rows: Seq<EventRowV>, i: int)
    requires
        0 <= i,
    ensures
        sp_check_states(states, rows, i) matches Some(e) ==> e is UndefinedState,
    decreases rows.len() - i,
{
    if i < rows.len() {
        lemma_check_froms_kind(states, rows[i].froms, 0);
        lemma_check_states_kind(states, rows, i + 1);
    }
}

/// A transition naming an undeclared state is fatal: validation
/// returns exactly one undefined-state error and, the result being
/// an error, no code is generated.
pub proof fn lemma_undeclared_state_fatal(m: MachineV)
    requires
        sp_no_dup_states(m.states.definition),
        !(sp_froms_declared(m.states.definition, m.transitions.rows) && sp_tos_declared(
            m.states.definition,
            m.transitions.rows,
        )),
    ensures
        sp_validate(m) is Err,
        sp_validate(m) matches Err(e) ==> e is UndefinedState,
{
    lemma_check_dup_none(m.states.definition, 0);
    lemma_check_states_none(m.states.definition, m.transitions.rows);
    lemma_check_states_kind(m.states.definition, m.transitions.rows, 0);
}

} // verus!
