//! Documents and the editor that holds them.

pub mod document;
pub mod encoding;
pub mod loader;
pub mod rope;
pub mod utf8_facts;

use std::collections::BTreeMap;
use vstd::prelude::*;

use crate::editor::document::{Document, DocumentId};

verus! {

/// The open documents, by identifier.
pub struct Editor {
    pub documents: BTreeMap<DocumentId, Document>,
}

} // verus!
