//! Plain values for the query layer: the scalar values a query can carry,
//! timestamps as plain integers, and field selections. Queries built from
//! these are descriptions only; running them against a store is the
//! caller's business.
use vstd::prelude::*;

verus! {

/// A point in time, as seconds since the Unix epoch.
#[derive(Clone, Copy, Debug, PartialEq, Eq, Structural)]
pub struct Timestamp {
    pub unix_seconds: i64,
}

/// A value a query carries for one column or operator.
pub enum QueryValue {
    Null,
    Boolean(bool),
    IntValue(i64),
    Text(String),
    DateTime(Timestamp),
    ListValue(Vec<QueryValue>),
    ObjectValue(Vec<(String, QueryValue)>),
}

/// One selected field of a model.
#[derive(Clone, Debug)]
pub struct Selection {
    pub field: String,
}

/// The selection of a named field.
pub fn sel(name: &str) -> (r: Selection)
    ensures
        r.field@ == name@,
{
    Selection { field: name.to_owned() }
}

/// A comparison operator of a scalar filter.
#[derive(Clone, Copy, Debug, PartialEq, Eq, Structural)]
pub enum FilterOp {
    Equals,
    InList,
    NotInList,
    Lt,
    Lte,
    Gt,
    Gte,
    Contains,
    StartsWith,
    EndsWith,
    Not,
}

/// The operator's name on the wire.
pub open spec fn filter_op_name(op: FilterOp) -> Seq<char> {
    match op {
        FilterOp::Equals => "equals"@,
        FilterOp::InList => "in"@,
        FilterOp::NotInList => "notIn"@,
        FilterOp::Lt => "lt"@,
        FilterOp::Lte => "lte"@,
        FilterOp::Gt => "gt"@,
        FilterOp::Gte => "gte"@,
        FilterOp::Contains => "contains"@,
        FilterOp::StartsWith => "startsWith"@,
        FilterOp::EndsWith => "endsWith"@,
        FilterOp::Not => "not"@,
    }
}

impl FilterOp {
    /// The operator's name on the wire.
    pub fn wire_name(&self) -> (s: &'static str)
        ensures
            s@ == filter_op_name(*self),
    {
        match self {
            FilterOp::Equals => "equals",
            FilterOp::InList => "in",
            FilterOp::NotInList => "notIn",
            FilterOp::Lt => "lt",
            FilterOp::Lte => "lte",
            FilterOp::Gt => "gt",
            FilterOp::Gte => "gte",
            FilterOp::Contains => "contains",
            FilterOp::StartsWith => "startsWith",
            FilterOp::EndsWith => "endsWith",
            FilterOp::Not => "not",
        }
    }
}

/// Asking a record for a relation that the query did not fetch.
#[derive(Clone, Copy, Debug, PartialEq, Eq, Structural)]
pub struct RelationNotFetched;

} // verus!
