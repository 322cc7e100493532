//! End-to-end tests of the compiler pipeline: parsing, validation,
//! and code generation over hand-built token trees.

use declarative_state_machine::error::SemanticError;
use declarative_state_machine::error::SemanticWarning;
use declarative_state_machine::error::StateMachineError;
use declarative_state_machine::generate::generate;
use declarative_state_machine::semantic::parse_semantic;
use declarative_state_machine::state_machine;
use declarative_state_machine::states::Fields;
use declarative_state_machine::syntax::parse_syntax;
use declarative_state_machine::token::Delim;
use declarative_state_machine::token::Token;
use declarative_state_machine::transitions::StatePat;

fn id(text: &str) -> Token {
    Token::Ident {
        text: text.to_string(),
        span: 0,
    }
}

fn id_at(text: &str, span: u32) -> Token {
    Token::Ident {
        text: text.to_string(),
        span,
    }
}

fn punct(ch: char) -> Token {
    Token::Punct { ch, span: 0 }
}

fn brace(tokens: Vec<Token>) -> Token {
    Token::Group {
        delim: Delim::Brace,
        tokens,
        span: 0,
    }
}

fn paren(tokens: Vec<Token>) -> Token {
    Token::Group {
        delim: Delim::Paren,
        tokens,
        span: 0,
    }
}

/// `event fill(volume: i64);`
fn event_block(name: &str, params: Vec<Token>) -> Vec<Token> {
    vec![id("event"), id(name), paren(params), punct(';')]
}

/// The `states` block of the bottle-filler example:
/// `states { Idle { remaining: i64 }, Filling(i64), Empty, }`.
fn bottle_states() -> Vec<Token> {
    vec![
        id("states"),
        brace(vec![
            id("Idle"),
            brace(vec![id("remaining"), punct(':'), id("i64")]),
            punct(','),
            id("Filling"),
            paren(vec![id("i64")]),
            punct(','),
            id("Empty"),
            punct(','),
        ]),
    ]
}

/// One transition rule:
/// `Idle { remaining } => <to> : fill(volume) { <guard> } [-> handler] ;`
fn fill_rule(to: &str, guard: Vec<Token>, handler: Option<&str>) -> Vec<Token> {
    let mut rule = vec![
        id("Idle"),
        brace(vec![id("remaining")]),
        punct('='),
        punct('>'),
        id(to),
        punct(':'),
        id("fill"),
        paren(vec![id("volume")]),
        brace(guard),
    ];
    if let Some(h) = handler {
        rule.push(punct('-'));
        rule.push(punct('>'));
        rule.push(id(h));
    }
    rule.push(punct(';'));
    rule
}

/// The whole bottle-filler machine definition.
fn bottle_tokens() -> Vec<Token> {
    let mut body: Vec<Token> = Vec::new();
    body.extend(event_block(
        "fill",
        vec![id("volume"), punct(':'), id("i64")],
    ));
    body.extend(vec![
        id("handler"),
        id("fill_bottle"),
        paren(vec![
            id("from"),
            punct(':'),
            id("Old"),
            punct(','),
            id("to"),
            punct(':'),
            id("New"),
            punct(','),
            id("volume"),
            punct(':'),
            id("i64"),
        ]),
        brace(vec![id("body")]),
    ]);
    body.extend(bottle_states());
    let mut rules = fill_rule(
        "Filling",
        vec![id("volume"), punct('<'), punct('='), id("remaining")],
        Some("fill_bottle"),
    );
    rules.extend(fill_rule(
        "Empty",
        vec![id("volume"), punct('>'), id("remaining")],
        None,
    ));
    body.push(id("transitions"));
    body.push(brace(rules));
    vec![id("machine"), id("bottle_filler"), brace(body)]
}

/// Searches a token tree for an identifier of that spelling.
fn contains_ident(tokens: &[Token], text: &str) -> bool {
    tokens.iter().any(|t| match t {
        Token::Ident { text: s, .. } => s == text,
        Token::Group { tokens: inner, .. } => contains_ident(inner, text),
        _ => false,
    })
}

#[test]
fn parses_bottle_machine() {
    let machine = parse_syntax(&bottle_tokens()).expect("well-formed input parses");
    assert_eq!(machine.name.text, "bottle_filler");
    assert_eq!(machine.events.len(), 1);
    assert_eq!(machine.events[0].name.text, "fill");
    assert_eq!(machine.events[0].params.len(), 1);
    assert_eq!(machine.events[0].params[0].name.text, "volume");
    assert_eq!(machine.handlers.len(), 1);
    assert_eq!(machine.handlers[0].name.text, "fill_bottle");
    assert_eq!(machine.states.initial.text, "Idle");
    assert_eq!(machine.states.definition.len(), 3);
    assert_eq!(machine.states.definition[0].name.text, "Idle");
    assert!(matches!(machine.states.definition[0].fields, Fields::Named(_)));
    assert!(matches!(machine.states.definition[1].fields, Fields::Unnamed(_)));
    assert!(matches!(machine.states.definition[2].fields, Fields::Unit));
    assert_eq!(machine.transitions.rows.len(), 1);
    let row = &machine.transitions.rows[0];
    assert_eq!(row.event.text, "fill");
    assert_eq!(row.froms.len(), 1);
    assert_eq!(row.froms[0].from.text, "Idle");
    let list = &row.froms[0].list;
    assert_eq!(list.len(), 2);
    assert_eq!(list[0].to_ident.text, "Filling");
    assert_eq!(list[0].handler.as_ref().unwrap().text, "fill_bottle");
    assert!(list[0].predicate.is_some());
    assert_eq!(list[0].event_params.len(), 1);
    assert_eq!(list[0].event_params[0].text, "volume");
    assert_eq!(list[1].to_ident.text, "Empty");
    assert!(list[1].handler.is_none());
    match &list[0].from_pat {
        StatePat::Struct {
            name,
            fields,
            has_rest,
        } => {
            assert_eq!(name.text, "Idle");
            assert_eq!(fields.len(), 1);
            assert_eq!(fields[0].text, "remaining");
            assert!(!has_rest);
        }
        _ => panic!("expected a struct pattern"),
    }
}

#[test]
fn rejects_missing_machine_keyword() {
    let err = parse_syntax(&vec![id("engine")]).unwrap_err();
    assert_eq!(err.message, "expected `machine`");
}

#[test]
fn rejects_trailing_tokens() {
    let mut toks = bottle_tokens();
    toks.push(id_at("junk", 7));
    let err = parse_syntax(&toks).unwrap_err();
    assert_eq!(err.message, "unexpected token");
    assert_eq!(err.span, 7);
}

#[test]
fn rejects_unknown_block_keyword() {
    let toks = vec![id("machine"), id("m"), brace(vec![id("blocks")])];
    let err = parse_syntax(&toks).unwrap_err();
    assert_eq!(
        err.message,
        "expected 'event', 'handler', 'states', or 'transition' keyword"
    );
}

#[test]
fn rejects_missing_states_block() {
    let toks = vec![
        id("machine"),
        id("m"),
        brace(vec![id("transitions"), brace(vec![])]),
    ];
    let err = parse_syntax(&toks).unwrap_err();
    assert_eq!(err.message, "expected at least one 'states' block!");
}

#[test]
fn rejects_missing_transitions_block() {
    let toks = vec![
        id("machine"),
        id("m"),
        brace(vec![id("states"), brace(vec![id("A")])]),
    ];
    let err = parse_syntax(&toks).unwrap_err();
    assert_eq!(err.message, "expected at least one 'transitions' block!");
}

#[test]
fn rejects_event_without_semicolon() {
    let toks = vec![
        id("machine"),
        id("m"),
        brace(vec![id("event"), id("go"), paren(vec![])]),
    ];
    let err = parse_syntax(&toks).unwrap_err();
    assert_eq!(err.message, "expected `;`");
}

#[test]
fn validates_bottle_machine_without_findings() {
    let machine = parse_syntax(&bottle_tokens()).unwrap();
    let (_machine, warnings) = parse_semantic(machine).expect("sound references");
    // Idle, Filling and Empty all take part in some rule, fill has a row.
    assert!(warnings.is_empty());
}

#[test]
fn unreachable_event_warns_exactly_once() {
    // An extra event with no transition row anywhere.
    let mut toks = bottle_tokens();
    if let Token::Group { tokens: body, .. } = &mut toks[2] {
        body.splice(0..0, event_block("dump", vec![]));
    } else {
        panic!("expected the machine body");
    }
    let machine = parse_syntax(&toks).unwrap();
    let (_machine, warnings) = parse_semantic(machine).expect("advisory only");
    let dump_warnings: Vec<_> = warnings
        .iter()
        .filter(|w| matches!(w, SemanticWarning::UnreachableEvent { name, .. } if name == "dump"))
        .collect();
    assert_eq!(dump_warnings.len(), 1);
}

#[test]
fn unreachable_state_warns() {
    let mut toks = bottle_tokens();
    if let Token::Group { tokens: body, .. } = &mut toks[2] {
        for t in body.iter_mut() {
            if let Token::Group { tokens: states, .. } = t {
                if contains_ident(states, "Idle") && !contains_ident(states, "machine") {
                    states.push(Token::Ident {
                        text: "Spare".to_string(),
                        span: 0,
                    });
                    states.push(punct(','));
                    break;
                }
            }
        }
    }
    let machine = parse_syntax(&toks).unwrap();
    let (_machine, warnings) = parse_semantic(machine).expect("advisory only");
    assert!(warnings
        .iter()
        .any(|w| matches!(w, SemanticWarning::UnreachableState { name, .. } if name == "Spare")));
}

#[test]
fn undefined_state_is_fatal() {
    let mut toks = bottle_tokens();
    if let Token::Group { tokens: body, .. } = &mut toks[2] {
        let n = body.len();
        if let Token::Group { tokens: rules, .. } = &mut body[n - 1] {
            let mut extra = fill_rule("Gone", vec![id("volume"), punct('<'), id("remaining")], None);
            rules.append(&mut extra);
        }
    }
    let machine = parse_syntax(&toks).unwrap();
    let err = parse_semantic(machine).unwrap_err();
    match err {
        SemanticError::UndefinedState { name, .. } => assert_eq!(name, "Gone"),
        other => panic!("expected an undefined state, got {:?}", other),
    }
}

#[test]
fn undefined_event_is_fatal() {
    let toks = vec![
        id("machine"),
        id("m"),
        brace(vec![
            id("states"),
            brace(vec![id("A"), punct(','), id("B")]),
            id("transitions"),
            brace(vec![
                id("A"),
                punct('='),
                punct('>'),
                id("B"),
                punct(':'),
                id("phantom"),
                paren(vec![]),
                punct(';'),
            ]),
        ]),
    ];
    let machine = parse_syntax(&toks).unwrap();
    let err = parse_semantic(machine).unwrap_err();
    match err {
        SemanticError::UndefinedEvent { name, .. } => assert_eq!(name, "phantom"),
        other => panic!("expected an undefined event, got {:?}", other),
    }
}

#[test]
fn conflicting_shapes_are_fatal() {
    let toks = vec![
        id("machine"),
        id("m"),
        brace(vec![
            id("states"),
            brace(vec![id("A"), punct(','), id("A"), paren(vec![id("i64")])]),
            id("transitions"),
            brace(vec![]),
        ]),
    ];
    let machine = parse_syntax(&toks).unwrap();
    let err = parse_semantic(machine).unwrap_err();
    match err {
        SemanticError::ConflictingShapes { name, .. } => assert_eq!(name, "A"),
        other => panic!("expected conflicting shapes, got {:?}", other),
    }
}

#[test]
fn synthesized_defaults_match_canonical_default() {
    let machine = parse_syntax(&bottle_tokens()).unwrap();
    assert_eq!(machine.states.defaults.len(), 3);
    // Unit state: the bare variant.
    assert_eq!(machine.states.defaults[2].name.text, "Empty");
    assert_eq!(
        machine.states.defaults[2].expr,
        vec![id("State"), punct(':'), punct(':'), id("Empty")]
    );
    // Tuple state: each positional field at its type's default.
    let default_call = || vec![
        punct('<'),
        id("i64"),
        id("as"),
        id("core"),
        punct(':'),
        punct(':'),
        id("default"),
        punct(':'),
        punct(':'),
        id("Default"),
        punct('>'),
        punct(':'),
        punct(':'),
        id("default"),
        paren(vec![]),
    ];
    let mut filling = vec![id("State"), punct(':'), punct(':'), id("Filling")];
    let mut filling_inner = default_call();
    filling_inner.push(punct(','));
    filling.push(paren(filling_inner));
    assert_eq!(machine.states.defaults[1].expr, filling);
    // Struct state: each named field at its type's default.
    let mut idle = vec![id("State"), punct(':'), punct(':'), id("Idle")];
    let mut idle_inner = vec![id("remaining"), punct(':')];
    idle_inner.extend(default_call());
    idle_inner.push(punct(','));
    idle.push(brace(idle_inner));
    assert_eq!(machine.states.defaults[0].expr, idle);
}

#[test]
fn identical_input_generates_identical_output() {
    let (out1, ws1) = state_machine(bottle_tokens()).expect("compiles");
    let (out2, ws2) = state_machine(bottle_tokens()).expect("compiles");
    assert_eq!(out1, out2);
    assert_eq!(ws1.len(), ws2.len());
}

#[test]
fn generated_output_has_the_runtime_shape() {
    let machine = parse_syntax(&bottle_tokens()).unwrap();
    let (machine, _warnings) = parse_semantic(machine).unwrap();
    let out = generate(machine);
    assert_eq!(out.len(), 3);
    assert_eq!(out[0], id("mod"));
    assert_eq!(out[1], id("bottle_filler"));
    match &out[2] {
        Token::Group {
            delim: Delim::Brace,
            tokens: inner,
            ..
        } => {
            assert!(contains_ident(inner, "State"));
            assert!(contains_ident(inner, "StateIdentifier"));
            assert!(contains_ident(inner, "Machine"));
            assert!(contains_ident(inner, "new"));
            assert!(contains_ident(inner, "handle_fill_bottle"));
            assert!(contains_ident(inner, "fill"));
            // The slot names are the lowercased state names.
            assert!(contains_ident(inner, "idle"));
            assert!(contains_ident(inner, "filling"));
            assert!(contains_ident(inner, "empty"));
            assert!(!contains_ident(inner, "IDLE"));
        }
        other => panic!("expected the module body, got {:?}", other),
    }
}

#[test]
fn pipeline_reports_semantic_diagnostics() {
    let toks = vec![
        id("machine"),
        id("m"),
        brace(vec![
            id("states"),
            brace(vec![id("A")]),
            id("transitions"),
            brace(vec![
                id("A"),
                punct('='),
                punct('>'),
                id_at("Nowhere", 42),
                punct(':'),
                id("go"),
                paren(vec![]),
                punct(';'),
            ]),
        ]),
    ];
    let err = state_machine(toks).unwrap_err();
    match err {
        StateMachineError::CompilationFailure(diag) => {
            assert_eq!(
                diag.message,
                "undefined state: add `Nowhere` to the `states` block to resolve"
            );
            assert_eq!(diag.span, 42);
        }
        other => panic!("expected a compilation failure, got {:?}", other),
    }
}
