//! Tests of the dispatch semantics: a machine description running
//! under the runtime model, with guard outcomes supplied by the
//! caller and handler effects applied through explicit stores.

use declarative_state_machine::runtime::FieldValue;
use declarative_state_machine::runtime::RuntimeMachine;
use declarative_state_machine::runtime::Value;
use declarative_state_machine::semantic::parse_semantic;
use declarative_state_machine::syntax::parse_syntax;
use declarative_state_machine::token::Delim;
use declarative_state_machine::token::Token;

fn id(text: &str) -> Token {
    Token::Ident {
        text: text.to_string(),
        span: 0,
    }
}

fn punct(ch: char) -> Token {
    Token::Punct { ch, span: 0 }
}

fn brace(tokens: Vec<Token>) -> Token {
    Token::Group {
        delim: Delim::Brace,
        tokens,
        span: 0,
    }
}

fn paren(tokens: Vec<Token>) -> Token {
    Token::Group {
        delim: Delim::Paren,
        tokens,
        span: 0,
    }
}

/// The bottle-filler example: `Idle { remaining: i64 }`,
/// `Filling(i64)`, `Empty`; `fill(volume)` either starts filling,
/// guarded by `volume <= remaining`, or empties the machine.
fn bottle_machine() -> RuntimeMachine {
    let toks = vec![
        id("machine"),
        id("bottle_filler"),
        brace(vec![
            id("event"),
            id("fill"),
            paren(vec![id("volume"), punct(':'), id("i64")]),
            punct(';'),
            id("handler"),
            id("fill_bottle"),
            paren(vec![id("volume"), punct(':'), id("i64")]),
            brace(vec![]),
            id("states"),
            brace(vec![
                id("Idle"),
                brace(vec![id("remaining"), punct(':'), id("i64")]),
                punct(','),
                id("Filling"),
                paren(vec![id("i64")]),
                punct(','),
                id("Empty"),
            ]),
            id("transitions"),
            brace(vec![
                // Idle { remaining } => Filling : fill(volume) { volume <= remaining } -> fill_bottle;
                id("Idle"),
                brace(vec![id("remaining")]),
                punct('='),
                punct('>'),
                id("Filling"),
                punct(':'),
                id("fill"),
                paren(vec![id("volume")]),
                brace(vec![id("volume"), punct('<'), punct('='), id("remaining")]),
                punct('-'),
                punct('>'),
                id("fill_bottle"),
                punct(';'),
                // Idle { remaining } => Empty : fill(volume) { volume > remaining };
                id("Idle"),
                brace(vec![id("remaining")]),
                punct('='),
                punct('>'),
                id("Empty"),
                punct(':'),
                id("fill"),
                paren(vec![id("volume")]),
                brace(vec![id("volume"), punct('>'), id("remaining")]),
                punct(';'),
                // Filling(..) => Idle : fill(volume);
                id("Filling"),
                paren(vec![punct('.'), punct('.')]),
                punct('='),
                punct('>'),
                id("Idle"),
                punct(':'),
                id("fill"),
                paren(vec![id("volume")]),
                punct(';'),
            ]),
        ]),
    ];
    let machine = parse_syntax(&toks).expect("parses");
    let (machine, _warnings) = parse_semantic(machine).expect("validates");
    RuntimeMachine::new(machine)
}

fn record(fields: Vec<(&str, i64)>) -> Value {
    Value::Record(
        fields
            .into_iter()
            .map(|(name, value)| FieldValue {
                name: name.to_string(),
                value,
            })
            .collect(),
    )
}

#[test]
fn construction_populates_every_slot_with_its_default() {
    let m = bottle_machine();
    assert_eq!(m.current, 0);
    assert_eq!(m.slots.len(), 3);
    assert_eq!(m.slots[0], record(vec![("remaining", 0)]));
    assert_eq!(m.slots[1], Value::Tuple(vec![0]));
    assert_eq!(m.slots[2], Value::Unit);
}

#[test]
fn fill_within_capacity_starts_filling_and_names_the_handler() {
    let mut m = bottle_machine();
    m.store(0, record(vec![("remaining", 20)]));
    // The host evaluated the two guards: 10 <= 20 and 10 > 20.
    let (fired, call) = m.dispatch(&"fill".to_string(), &vec![10], &vec![true, false]);
    assert!(fired);
    assert_eq!(m.current, 1);
    let call = call.expect("the first rule names fill_bottle");
    assert_eq!(call.handler, "fill_bottle");
    assert_eq!(call.from_slot, Some(0));
    assert_eq!(call.to_slot, 1);
    assert_eq!(call.args, vec![10]);
    // The handler writes the bound volume into the filling slot.
    m.store(call.to_slot, Value::Tuple(vec![10]));
    assert_eq!(m.slots[1], Value::Tuple(vec![10]));
}

#[test]
fn fill_beyond_capacity_empties_without_a_handler() {
    let mut m = bottle_machine();
    m.store(0, record(vec![("remaining", 20)]));
    // The host evaluated the two guards: 99 <= 20 and 99 > 20.
    let (fired, call) = m.dispatch(&"fill".to_string(), &vec![99], &vec![false, true]);
    assert!(fired);
    assert_eq!(m.current, 2);
    assert!(call.is_none());
}

#[test]
fn first_matching_rule_wins() {
    // Both rules from Idle would accept; the first declared fires.
    let mut m = bottle_machine();
    let (fired, call) = m.dispatch(&"fill".to_string(), &vec![5], &vec![true, true]);
    assert!(fired);
    assert_eq!(m.current, 1);
    assert!(call.is_some());
}

#[test]
fn guarded_out_first_rule_falls_through_to_the_second() {
    // The regression of dispatch determinism: a first rule whose
    // guard failed must never fire even though its pattern matches.
    let mut m = bottle_machine();
    let (fired, call) = m.dispatch(&"fill".to_string(), &vec![5], &vec![false, true]);
    assert!(fired);
    assert_eq!(m.current, 2);
    assert!(call.is_none());
}

#[test]
fn unmatched_event_is_a_no_op() {
    let mut m = bottle_machine();
    m.store(0, record(vec![("remaining", 7)]));
    let slots_before = vec![m.slots[0].clone(), m.slots[1].clone(), m.slots[2].clone()];
    // No transition row exists for this spelling at all.
    let (fired, call) = m.dispatch(&"drain".to_string(), &vec![], &vec![]);
    assert!(!fired);
    assert!(call.is_none());
    assert_eq!(m.current, 0);
    assert_eq!(m.slots, slots_before);
    // A declared event with no rule from the current state: move to
    // Empty first, where fill has no row either.
    m.dispatch(&"fill".to_string(), &vec![99], &vec![false, true]);
    assert_eq!(m.current, 2);
    let (fired, call) = m.dispatch(&"fill".to_string(), &vec![1], &vec![true, true]);
    assert!(!fired);
    assert!(call.is_none());
    assert_eq!(m.current, 2);
}

#[test]
fn slots_persist_across_transitions() {
    let mut m = bottle_machine();
    m.store(0, record(vec![("remaining", 20)]));
    // Leave Idle for Filling; the handler writes the filling slot.
    m.dispatch(&"fill".to_string(), &vec![10], &vec![true, false]);
    m.store(1, Value::Tuple(vec![10]));
    // Idle's slot kept its payload while the machine was elsewhere.
    assert_eq!(m.slots[0], record(vec![("remaining", 20)]));
    // Come back to Idle without any handler touching the slots.
    let (fired, _call) = m.dispatch(&"fill".to_string(), &vec![0], &vec![]);
    assert!(fired);
    assert_eq!(m.current, 0);
    assert_eq!(m.slots[0], record(vec![("remaining", 20)]));
    assert_eq!(m.slots[1], Value::Tuple(vec![10]));
}

#[test]
fn self_transition_hands_the_handler_no_old_state() {
    let toks = vec![
        id("machine"),
        id("looper"),
        brace(vec![
            id("event"),
            id("tick"),
            paren(vec![]),
            punct(';'),
            id("handler"),
            id("bump"),
            paren(vec![]),
            brace(vec![]),
            id("states"),
            brace(vec![id("On"), paren(vec![id("i64")])]),
            id("transitions"),
            brace(vec![
                id("On"),
                paren(vec![punct('.'), punct('.')]),
                punct('='),
                punct('>'),
                id("On"),
                punct(':'),
                id("tick"),
                paren(vec![]),
                punct('-'),
                punct('>'),
                id("bump"),
                punct(';'),
            ]),
        ]),
    ];
    let machine = parse_syntax(&toks).expect("parses");
    let (machine, _warnings) = parse_semantic(machine).expect("validates");
    let mut m = RuntimeMachine::new(machine);
    let (fired, call) = m.dispatch(&"tick".to_string(), &vec![], &vec![]);
    assert!(fired);
    assert_eq!(m.current, 0);
    let call = call.expect("the rule names a handler");
    assert_eq!(call.handler, "bump");
    assert_eq!(call.from_slot, None);
    assert_eq!(call.to_slot, 0);
}
