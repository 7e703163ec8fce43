//! The public query shape the proxy accepts from its own callers.

use vstd::prelude::*;

verus! {

/// An identifier-mapping request as the proxy's caller poses it: a taxonomy
/// id, an ordered list of identifiers, and optional source and destination
/// field names.
#[derive(Default, Debug, Clone, PartialEq)]
pub struct Query {
    pub tax_id: i64,
    pub ids: Vec<String>,
    pub from: Option<String>,
    pub to: Option<String>,
}

} // verus!
