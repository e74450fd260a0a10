//! Choosing the functions that a library exports.
//!
//! A top-level function is exported when it is public without restriction and carries the
//! attribute that keeps its symbol name as written. Everything else is passed over in silence.

use crate::model::{AttributeView, FunctionItem, FunctionItemView, Visibility};
use vstd::prelude::*;
use vstd::string::StringExecFns;

verus! {

/// The name of the attribute that marks an exported function.
pub open spec fn export_marker() -> Seq<char> {
    "no_mangle"@
}

/// Whether one of the attributes is the export marker. An attribute counts by its bare name
/// alone; one under a longer path does not count.
pub open spec fn has_export_marker(attrs: Seq<AttributeView>) -> bool {
    exists|i: int| 0 <= i < attrs.len() && (#[trigger] attrs[i]).ident == Some(export_marker())
}

/// Whether a function is exported: public, and marked.
pub open spec fn is_exported(function: FunctionItemView) -> bool {
    function.vis == Visibility::Public && has_export_marker(function.attrs)
}

/// Decides whether a function is exported.
pub fn is_export_candidate(function: &FunctionItem) -> (exported: bool)
    ensures
        exported == is_exported(function@),
{
    match function.vis {
        Visibility::Public => {},
        Visibility::Restricted => {
            return false;
        },
        Visibility::Private => {
            return false;
        },
    }
    let marker = String::from_str("no_mangle");
    let mut i: usize = 0;
    while i < function.attrs.len()
        invariant
            function.vis == Visibility::Public,
            i <= function.attrs@.len(),
            marker@ == export_marker(),
            forall|k: int| 0 <= k < i ==> (#[trigger] function@.attrs[k]).ident != Some(export_marker()),
        decreases function.attrs@.len() - i,
    {
        match &function.attrs[i].ident {
            Some(name) => {
                if *name == marker {
                    assert(function@.attrs[i as int].ident == Some(export_marker()));
                    return true;
                }
            },
            None => {},
        }
        i += 1;
    }
    false
}

} // verus!
