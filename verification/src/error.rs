//! Diagnostics of the compiler.
//!
//! Parse failures and failed semantic checks are fatal: compilation
//! stops at the first one and no code is generated. Reachability
//! findings are advisory: they are collected and handed back beside
//! the generated code. Every diagnostic carries the source position of
//! the token it is about.

use vstd::prelude::*;

verus! {

/// A malformed token sequence at a specific grammar position.
#[derive(Debug)]
pub struct SyntaxError {
    pub message: String,
    pub span: u32,
}

/// The mathematical shape of a syntax error.
pub struct SyntaxErrorV {
    pub message: Seq<char>,
    pub span: u32,
}

impl DeepView for SyntaxError {
    type V = SyntaxErrorV;

    open spec fn deep_view(&self) -> SyntaxErrorV {
        SyntaxErrorV { message: self.message@, span: self.span }
    }
}

impl SyntaxError {
    /// A syntax error with the given message, at the given position.
    pub fn new(message: &str, span: u32) -> (r: SyntaxError)
        ensures
            r.deep_view() == (SyntaxErrorV { message: message@, span }),
    {
        SyntaxError { message: message.to_owned(), span }
    }
}

/// A fatal referential-integrity failure: a transition names a state
/// or an event that no declaration introduces, or one state name is
/// declared with more than one payload shape.
#[derive(Debug)]
pub enum SemanticError {
    UndefinedState { name: String, span: u32 },
    UndefinedEvent { name: String, span: u32 },
    ConflictingShapes { name: String, span: u32 },
}

/// The mathematical shape of a semantic error.
pub enum SemanticErrorV {
    UndefinedState { name: Seq<char>, span: u32 },
    UndefinedEvent { name: Seq<char>, span: u32 },
    ConflictingShapes { name: Seq<char>, span: u32 },
}

impl DeepView for SemanticError {
    type V = SemanticErrorV;

    open spec fn deep_view(&self) -> SemanticErrorV {
        match self {
            SemanticError::UndefinedState { name, span } => SemanticErrorV::UndefinedState {
                name: name@,
                span: *span,
            },
            SemanticError::UndefinedEvent { name, span } => SemanticErrorV::UndefinedEvent {
                name: name@,
                span: *span,
            },
            SemanticError::ConflictingShapes { name, span } => SemanticErrorV::ConflictingShapes {
                name: name@,
                span: *span,
            },
        }
    }
}

/// An advisory finding: the construct can never take part in a
/// dispatch, but compilation goes on.
#[derive(Debug)]
pub enum SemanticWarning {
    UnreachableEvent { name: String, span: u32 },
    UnreachableState { name: String, span: u32 },
}

/// The mathematical shape of a semantic warning.
pub enum SemanticWarningV {
    UnreachableEvent { name: Seq<char>, span: u32 },
    UnreachableState { name: Seq<char>, span: u32 },
}

impl DeepView for SemanticWarning {
    type V = SemanticWarningV;

    open spec fn deep_view(&self) -> SemanticWarningV {
        match self {
            SemanticWarning::UnreachableEvent { name, span } => SemanticWarningV::UnreachableEvent {
                name: name@,
                span: *span,
            },
            SemanticWarning::UnreachableState { name, span } => SemanticWarningV::UnreachableState {
                name: name@,
                span: *span,
            },
        }
    }
}

/// A fatal diagnostic ready for the host's sink: a message and the
/// source position it points at.
#[derive(Debug)]
pub struct Diagnostic {
    pub message: String,
    pub span: u32,
}

/// The mathematical shape of a diagnostic.
pub struct DiagnosticV {
    pub message: Seq<char>,
    pub span: u32,
}

impl DeepView for Diagnostic {
    type V = DiagnosticV;

    open spec fn deep_view(&self) -> DiagnosticV {
        DiagnosticV { message: self.message@, span: self.span }
    }
}

/// Why a compilation produced no code: either the grammar ran out of
/// input in a position its rules cannot reach (a defect of the
/// compiler itself), or a diagnostic for the user.
#[derive(Debug)]
pub enum StateMachineError {
    NoFurtherTokens,
    CompilationFailure(Diagnostic),
}

/// The mathematical shape of a compilation failure.
pub enum StateMachineErrorV {
    NoFurtherTokens,
    CompilationFailure(DiagnosticV),
}

impl DeepView for StateMachineError {
    type V = StateMachineErrorV;

    open spec fn deep_view(&self) -> StateMachineErrorV {
        match self {
            StateMachineError::NoFurtherTokens => StateMachineErrorV::NoFurtherTokens,
            StateMachineError::CompilationFailure(d) => StateMachineErrorV::CompilationFailure(
                d.deep_view(),
            ),
        }
    }
}

impl From<Diagnostic> for StateMachineError {
    fn from(diag: Diagnostic) -> (r: StateMachineError) {
        StateMachineError::CompilationFailure(diag)
    }
}

impl vstd::std_specs::convert::FromSpecImpl<Diagnostic> for StateMachineError {
    open spec fn obeys_from_spec() -> bool {
        true
    }

    open spec fn from_spec(diag: Diagnostic) -> StateMachineError {
        StateMachineError::CompilationFailure(diag)
    }
}

pub type StateMachineResult<T> = Result<T, StateMachineError>;


/// The message of a fatal semantic finding, with its suggested fix.
pub open spec fn sp_semantic_message(e: SemanticErrorV) -> Seq<char> {
    match e {
        SemanticErrorV::UndefinedState { name, .. } => "undefined state: add `"@ + name
            + "` to the `states` block to resolve"@,
        SemanticErrorV::UndefinedEvent { name, .. } => "undefined event: add an event declaration for `"@
            + name + "` to resolve"@,
        SemanticErrorV::ConflictingShapes { name, .. } => "state `"@ + name
            + "` is declared with more than one shape"@,
    }
}

/// The position a fatal semantic finding points at.
pub open spec fn sp_semantic_span(e: SemanticErrorV) -> u32 {
    match e {
        SemanticErrorV::UndefinedState { span, .. } => span,
        SemanticErrorV::UndefinedEvent { span, .. } => span,
        SemanticErrorV::ConflictingShapes { span, .. } => span,
    }
}

impl SyntaxError {
    /// This error as a diagnostic for the host's sink.
    pub fn to_diagnostic(&self) -> (r: Diagnostic)
        ensures
            r.deep_view() == (DiagnosticV {
                message: self.message@,
                span: self.span,
            }),
    {
        Diagnostic { message: self.message.clone(), span: self.span }
    }
}

impl SemanticError {
    /// This error as a diagnostic: its message names the missing or
    /// conflicting identifier and the fix.
    pub fn to_diagnostic(&self) -> (r: Diagnostic)
        ensures
            r.deep_view() == (DiagnosticV {
                message: sp_semantic_message(self.deep_view()),
                span: sp_semantic_span(self.deep_view()),
            }),
    {
        match self {
            SemanticError::UndefinedState { name, span } => {
                let mut m: String = "undefined state: add `".to_owned();
                m.append(name.as_str());
                m.append("` to the `states` block to resolve");
                Diagnostic { message: m, span: *span }
            },
            SemanticError::UndefinedEvent { name, span } => {
                let mut m: String = "undefined event: add an event declaration for `".to_owned();
                m.append(name.as_str());
                m.append("` to resolve");
                Diagnostic { message: m, span: *span }
            },
            SemanticError::ConflictingShapes { name, span } => {
                let mut m: String = "state `".to_owned();
                m.append(name.as_str());
                m.append("` is declared with more than one shape");
                Diagnostic { message: m, span: *span }
            },
        }
    }
}

/// The message of an advisory finding.
pub open spec fn sp_warning_message(w: SemanticWarningV) -> Seq<char> {
    match w {
        SemanticWarningV::UnreachableEvent { name, .. } => "event `"@ + name
            + "` will always fail as no valid transitions are defined for this event"@,
        SemanticWarningV::UnreachableState { name, .. } => "state `"@ + name
            + "` has no transitions and will never be reached or cause deadlock on construction"@,
    }
}

impl SemanticWarning {
    /// The warning's message, naming the unreachable construct.
    pub fn message(&self) -> (r: String)
        ensures
            r@ == sp_warning_message(self.deep_view()),
    {
        match self {
            SemanticWarning::UnreachableEvent { name, .. } => {
                let mut m: String = "event `".to_owned();
                m.append(name.as_str());
                m.append("` will always fail as no valid transitions are defined for this event");
                m
            },
            SemanticWarning::UnreachableState { name, .. } => {
                let mut m: String = "state `".to_owned();
                m.append(name.as_str());
                m.append(
                    "` has no transitions and will never be reached or cause deadlock on construction",
                );
                m
            },
        }
    }

    /// The position the warning points at.
    pub fn span(&self) -> (r: u32)
        ensures
            r == match self.deep_view() {
                SemanticWarningV::UnreachableEvent { span, .. } => span,
                SemanticWarningV::UnreachableState { span, .. } => span,
            },
    {
        match self {
            SemanticWarning::UnreachableEvent { span, .. } => *span,
            SemanticWarning::UnreachableState { span, .. } => *span,
        }
    }
}

} // verus!
