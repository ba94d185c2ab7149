//! The visual-scripting document schema: a pure data model with no
//! evaluator in this codebase. Only the shapes and their size limits are
//! stated here.

use vstd::prelude::*;

verus! {

/// What kind of event or command a document is attached to.
pub enum DocumentKind {
    MellowCommand,
    MemberJoinEvent,
    MessageCreatedEvent,
    MemberUpdatedEvent,
    MemberCompletedOnboardingEvent,
    MemberSynced,
}

/// A dotted path into the event's data, at most 128 characters.
pub struct VariableReference {
    pub path: String,
}

impl VariableReference {
    pub open spec fn wf(self) -> bool {
        self.path@.len() <= 128
    }
}

/// A literal value together with a variable reference it applies to.
pub struct StringValueWithVariableReference {
    pub value: String,
    pub reference: VariableReference,
}

/// One piece of a text template: a literal or an interpolated variable.
pub enum TextElement {
    StringPiece(String),
    Variable(VariableReference),
}

/// A text template of at most 32 pieces.
pub struct Text {
    pub value: Vec<TextElement>,
}

impl Text {
    pub open spec fn wf(self) -> bool {
        self.value@.len() <= 32
    }
}

/// How a condition combines with those before it in a statement block.
pub enum StatementConditionKind {
    Initial,
    And,
    Or,
}

/// The comparison a statement condition applies.
pub enum Condition {
    Is,
    IsNot,
    HasAnyValue,
    DoesNotHaveAnyValue,
    Contains,
    ContainsOnly,
    ContainsOneOf,
    DoesNotContain,
    DoesNotContainOneOf,
    BeginsWith,
    EndsWith,
}

} // verus!
