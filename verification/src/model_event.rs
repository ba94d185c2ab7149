//! Model-change events as dispatched to the downstream service: which model
//! changed and how. Sending them is I/O and happens outside; this module
//! only shapes the event.

use vstd::prelude::*;

use crate::id::{ConnectionMarker, DocumentMarker, Id, UserMarker};

verus! {

/// How a model changed.
pub enum ModelEventKind {
    Created,
    Updated,
    Deleted,
}

/// Which model an event speaks of. A server is named by its 64-bit chat
/// service identifier.
pub enum ModelKind {
    Server(u64),
    UserConnection(Id<UserMarker>, Id<ConnectionMarker>),
    UserSettings(u64, Id<UserMarker>),
    VisualScriptingDocument(Option<u64>, Id<DocumentMarker>),
}

/// A model-change event, ready to be serialized and dispatched.
pub struct ModelEventModel {
    pub actionee_id: Option<Id<UserMarker>>,
    pub kind: ModelEventKind,
    pub model: ModelKind,
}

impl ModelEventKind {
    /// Wraps the kind and a model into an event with no actionee.
    pub fn build(self, model_kind: ModelKind) -> (r: ModelEventModel)
        ensures
            r.actionee_id is None,
            r.kind == self,
            r.model == model_kind,
    {
        ModelEventModel { actionee_id: None, kind: self, model: model_kind }
    }
}

} // verus!
