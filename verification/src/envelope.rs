//! The error records with which the bridge turns a request down.
//!
//! To a request that changes something the bridge answers with a JSON array
//! that holds either records of success or records of failure. Nothing in
//! the answer says which; a reader tells them apart by their shape.

use vstd::prelude::*;
use vstd::string::*;
use serde_json::Value;
use crate::json::{json_member, member, read_text, read_unsigned, text_field, unsigned_field};

verus! {

/// One reason the bridge gives for turning a request down.
#[derive(Clone, Debug, PartialEq, Eq)]
pub struct BridgeError {
    /// The bridge's number for the kind of failure.
    pub kind: u64,
    /// The resource that the failure is about.
    pub address: String,
    /// The failure in words.
    pub description: String,
}

/// A `BridgeError` as plain values.
pub struct BridgeErrorView {
    pub kind: u64,
    pub address: Seq<char>,
    pub description: Seq<char>,
}

impl View for BridgeError {
    type V = BridgeErrorView;

    open spec fn view(&self) -> BridgeErrorView {
        BridgeErrorView {
            kind: self.kind,
            address: self.address@,
            description: self.description@,
        }
    }
}

/// The errors of a list as plain values.
pub open spec fn error_views(errors: Seq<BridgeError>) -> Seq<BridgeErrorView> {
    errors.map_values(|error: BridgeError| error@)
}

/// The failure that a JSON value records: an object whose member `error` has
/// a whole number `type` and strings `address` and `description`.
pub open spec fn spec_bridge_error(value: Value) -> Option<BridgeErrorView> {
    match json_member(value, "error"@) {
        Some(inner) => match (
            unsigned_field(inner, "type"@),
            text_field(inner, "address"@),
            text_field(inner, "description"@),
        ) {
            (Some(kind), Some(address), Some(description)) => Some(
                BridgeErrorView { kind, address, description },
            ),
            _ => None,
        },
        None => None,
    }
}

/// The failures that the elements of an array record, in the same order;
/// `None` where one of the elements records none.
pub open spec fn spec_bridge_errors(items: Seq<Value>) -> Option<Seq<BridgeErrorView>> {
    if forall|i: int| 0 <= i < items.len() ==> spec_bridge_error(#[trigger] items[i]) is Some {
        Some(items.map_values(|item: Value| spec_bridge_error(item)->Some_0))
    } else {
        None
    }
}

/// Reads the failure that a JSON value records.
pub fn parse_bridge_error(value: &Value) -> (error: Option<BridgeError>)
    ensures
        match error {
            Some(found) => spec_bridge_error(*value) == Some(found@),
            None => spec_bridge_error(*value) is None,
        },
{
    let inner = match member(value, "error") {
        Some(inner) => inner,
        None => {
            return None;
        },
    };
    let kind = read_unsigned(inner, "type");
    let address = read_text(inner, "address");
    let description = read_text(inner, "description");
    match (kind, address, description) {
        (Some(kind), Some(address), Some(description)) => Some(
            BridgeError { kind, address, description },
        ),
        _ => None,
    }
}

/// Reads the failures that the elements of an array record.
pub fn parse_bridge_errors(items: &Vec<Value>) -> (errors: Option<Vec<BridgeError>>)
    ensures
        match errors {
            Some(found) => spec_bridge_errors(items@) == Some(error_views(found@)),
            None => spec_bridge_errors(items@) is None,
        },
{
    let mut errors: Vec<BridgeError> = Vec::new();
    let mut i: usize = 0;
    while i < items.len()
        invariant
            i <= items.len(),
            errors@.len() == i,
            forall|k: int|
                0 <= k < i ==> spec_bridge_error(#[trigger] items@[k]) == Some(errors@[k]@),
        decreases items.len() - i,
    {
        match parse_bridge_error(&items[i]) {
            Some(error) => {
                errors.push(error);
            },
            None => {
                assert(spec_bridge_error(items@[i as int]) is None);
                return None;
            },
        }
        i += 1;
    }
    assert(error_views(errors@) =~= items@.map_values(
        |item: Value| spec_bridge_error(item)->Some_0,
    ));
    Some(errors)
}

} // verus!
