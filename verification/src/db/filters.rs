//! Scalar read filters: the comparisons a where-clause can apply to one
//! column, and their serialization into an operator and a plain value.
use vstd::prelude::*;

use crate::db::value::{FilterOp, QueryValue, Timestamp};

verus! {

/// A comparison on an integer column.
#[derive(Clone, Debug)]
pub enum IntFilter {
    Equals(i32),
    InVec(Vec<i32>),
    NotInVec(Vec<i32>),
    Lt(i32),
    Lte(i32),
    Gt(i32),
    Gte(i32),
    Not(i32),
}

/// A comparison on a string column.
#[derive(Clone, Debug)]
pub enum StringFilter {
    Equals(String),
    InVec(Vec<String>),
    NotInVec(Vec<String>),
    Lt(String),
    Lte(String),
    Gt(String),
    Gte(String),
    Contains(String),
    StartsWith(String),
    EndsWith(String),
    Not(String),
}

/// A comparison on a nullable string column.
#[derive(Clone, Debug)]
pub enum StringNullableFilter {
    Equals(Option<String>),
    InVec(Vec<String>),
    NotInVec(Vec<String>),
    Lt(String),
    Lte(String),
    Gt(String),
    Gte(String),
    Contains(String),
    StartsWith(String),
    EndsWith(String),
    Not(Option<String>),
}

/// A comparison on a timestamp column.
#[derive(Clone, Debug)]
pub enum DateTimeFilter {
    Equals(Timestamp),
    InVec(Vec<Timestamp>),
    NotInVec(Vec<Timestamp>),
    Lt(Timestamp),
    Lte(Timestamp),
    Gt(Timestamp),
    Gte(Timestamp),
    Not(Timestamp),
}

/// Integers as query values, in order.
fn int_list(values: Vec<i32>) -> (r: Vec<QueryValue>)
    ensures
        r@.len() == values@.len(),
        forall|i: int|
            0 <= i < values@.len() ==> r@[i] == QueryValue::IntValue(values@[i] as i64),
{
    let mut out: Vec<QueryValue> = Vec::new();
    let n = values.len();
    let mut i: usize = 0;
    while i < n
        invariant
            n == values@.len(),
            i <= n,
            out@.len() == i,
            forall|j: int|
                0 <= j < i ==> out@[j] == QueryValue::IntValue(values@[j] as i64),
        decreases n - i,
    {
        out.push(QueryValue::IntValue(values[i] as i64));
        i = i + 1;
    }
    out
}

/// Strings as query values, in order.
fn text_list(values: Vec<String>) -> (r: Vec<QueryValue>)
    ensures
        r@.len() == values@.len(),
        forall|i: int| 0 <= i < values@.len() ==> r@[i] == QueryValue::Text(values@[i]),
{
    let mut rest = values;
    let mut out: Vec<QueryValue> = Vec::new();
    let ghost whole = rest@;
    while rest.len() > 0
        invariant
            out@.len() + rest@.len() == whole.len(),
            rest@ =~= whole.skip(out@.len() as int),
            forall|j: int| 0 <= j < out@.len() ==> out@[j] == QueryValue::Text(whole[j]),
        decreases rest@.len(),
    {
        let s = rest.remove(0);
        proof {
            assert(s == whole[out@.len() as int]);
            assert(rest@ =~= whole.skip(out@.len() as int + 1));
        }
        out.push(QueryValue::Text(s));
    }
    out
}

/// Timestamps as query values, in order.
fn datetime_list(values: Vec<Timestamp>) -> (r: Vec<QueryValue>)
    ensures
        r@.len() == values@.len(),
        forall|i: int| 0 <= i < values@.len() ==> r@[i] == QueryValue::DateTime(values@[i]),
{
    let mut out: Vec<QueryValue> = Vec::new();
    let n = values.len();
    let mut i: usize = 0;
    while i < n
        invariant
            n == values@.len(),
            i <= n,
            out@.len() == i,
            forall|j: int| 0 <= j < i ==> out@[j] == QueryValue::DateTime(values@[j]),
        decreases n - i,
    {
        out.push(QueryValue::DateTime(values[i]));
        i = i + 1;
    }
    out
}

impl IntFilter {
    /// The operator and the value the filter compares with.
    pub fn serialize(self) -> (r: (FilterOp, QueryValue))
        ensures
            match self {
                IntFilter::Equals(v) => r == (FilterOp::Equals, QueryValue::IntValue(v as i64)),
                IntFilter::InVec(vs) => r.0 == FilterOp::InList && (r.1 matches
                    QueryValue::ListValue(l) && l@.len() == vs@.len() && forall|i: int|
                    0 <= i < vs@.len() ==> l@[i] == QueryValue::IntValue(vs@[i] as i64)),
                IntFilter::NotInVec(vs) => r.0 == FilterOp::NotInList && (r.1 matches
                    QueryValue::ListValue(l) && l@.len() == vs@.len() && forall|i: int|
                    0 <= i < vs@.len() ==> l@[i] == QueryValue::IntValue(vs@[i] as i64)),
                IntFilter::Lt(v) => r == (FilterOp::Lt, QueryValue::IntValue(v as i64)),
                IntFilter::Lte(v) => r == (FilterOp::Lte, QueryValue::IntValue(v as i64)),
                IntFilter::Gt(v) => r == (FilterOp::Gt, QueryValue::IntValue(v as i64)),
                IntFilter::Gte(v) => r == (FilterOp::Gte, QueryValue::IntValue(v as i64)),
                IntFilter::Not(v) => r == (FilterOp::Not, QueryValue::IntValue(v as i64)),
            },
    {
        match self {
            IntFilter::Equals(v) => (FilterOp::Equals, QueryValue::IntValue(v as i64)),
            IntFilter::InVec(vs) => (FilterOp::InList, QueryValue::ListValue(int_list(vs))),
            IntFilter::NotInVec(vs) => (
                FilterOp::NotInList,
                QueryValue::ListValue(int_list(vs)),
            ),
            IntFilter::Lt(v) => (FilterOp::Lt, QueryValue::IntValue(v as i64)),
            IntFilter::Lte(v) => (FilterOp::Lte, QueryValue::IntValue(v as i64)),
            IntFilter::Gt(v) => (FilterOp::Gt, QueryValue::IntValue(v as i64)),
            IntFilter::Gte(v) => (FilterOp::Gte, QueryValue::IntValue(v as i64)),
            IntFilter::Not(v) => (FilterOp::Not, QueryValue::IntValue(v as i64)),
        }
    }
}

impl StringFilter {
    /// The operator and the value the filter compares with.
    pub fn serialize(self) -> (r: (FilterOp, QueryValue))
        ensures
            match self {
                StringFilter::Equals(v) => r == (FilterOp::Equals, QueryValue::Text(v)),
                StringFilter::InVec(vs) => r.0 == FilterOp::InList && (r.1 matches
                    QueryValue::ListValue(l) && l@.len() == vs@.len() && forall|i: int|
                    0 <= i < vs@.len() ==> l@[i] == QueryValue::Text(vs@[i])),
                StringFilter::NotInVec(vs) => r.0 == FilterOp::NotInList && (r.1 matches
                    QueryValue::ListValue(l) && l@.len() == vs@.len() && forall|i: int|
                    0 <= i < vs@.len() ==> l@[i] == QueryValue::Text(vs@[i])),
                StringFilter::Lt(v) => r == (FilterOp::Lt, QueryValue::Text(v)),
                StringFilter::Lte(v) => r == (FilterOp::Lte, QueryValue::Text(v)),
                StringFilter::Gt(v) => r == (FilterOp::Gt, QueryValue::Text(v)),
                StringFilter::Gte(v) => r == (FilterOp::Gte, QueryValue::Text(v)),
                StringFilter::Contains(v) => r == (FilterOp::Contains, QueryValue::Text(v)),
                StringFilter::StartsWith(v) => r == (
                    FilterOp::StartsWith,
                    QueryValue::Text(v),
                ),
                StringFilter::EndsWith(v) => r == (FilterOp::EndsWith, QueryValue::Text(v)),
                StringFilter::Not(v) => r == (FilterOp::Not, QueryValue::Text(v)),
            },
    {
        match self {
            StringFilter::Equals(v) => (FilterOp::Equals, QueryValue::Text(v)),
            StringFilter::InVec(vs) => (FilterOp::InList, QueryValue::ListValue(text_list(vs))),
            StringFilter::NotInVec(vs) => (
                FilterOp::NotInList,
                QueryValue::ListValue(text_list(vs)),
            ),
            StringFilter::Lt(v) => (FilterOp::Lt, QueryValue::Text(v)),
            StringFilter::Lte(v) => (FilterOp::Lte, QueryValue::Text(v)),
            StringFilter::Gt(v) => (FilterOp::Gt, QueryValue::Text(v)),
            StringFilter::Gte(v) => (FilterOp::Gte, QueryValue::Text(v)),
            StringFilter::Contains(v) => (FilterOp::Contains, QueryValue::Text(v)),
            StringFilter::StartsWith(v) => (FilterOp::StartsWith, QueryValue::Text(v)),
            StringFilter::EndsWith(v) => (FilterOp::EndsWith, QueryValue::Text(v)),
            StringFilter::Not(v) => (FilterOp::Not, QueryValue::Text(v)),
        }
    }
}

impl StringNullableFilter {
    /// The operator and the value the filter compares with; a missing
    /// string compares with null.
    pub fn serialize(self) -> (r: (FilterOp, QueryValue))
        ensures
            match self {
                StringNullableFilter::Equals(v) => r.0 == FilterOp::Equals && r.1 == match v {
                    Some(s) => QueryValue::Text(s),
                    None => QueryValue::Null,
                },
                StringNullableFilter::InVec(vs) => r.0 == FilterOp::InList && (r.1 matches
                    QueryValue::ListValue(l) && l@.len() == vs@.len() && forall|i: int|
                    0 <= i < vs@.len() ==> l@[i] == QueryValue::Text(vs@[i])),
                StringNullableFilter::NotInVec(vs) => r.0 == FilterOp::NotInList && (r.1 matches
                    QueryValue::ListValue(l) && l@.len() == vs@.len() && forall|i: int|
                    0 <= i < vs@.len() ==> l@[i] == QueryValue::Text(vs@[i])),
                StringNullableFilter::Lt(v) => r == (FilterOp::Lt, QueryValue::Text(v)),
                StringNullableFilter::Lte(v) => r == (FilterOp::Lte, QueryValue::Text(v)),
                StringNullableFilter::Gt(v) => r == (FilterOp::Gt, QueryValue::Text(v)),
                StringNullableFilter::Gte(v) => r == (FilterOp::Gte, QueryValue::Text(v)),
                StringNullableFilter::Contains(v) => r == (
                    FilterOp::Contains,
                    QueryValue::Text(v),
                ),
                StringNullableFilter::StartsWith(v) => r == (
                    FilterOp::StartsWith,
                    QueryValue::Text(v),
                ),
                StringNullableFilter::EndsWith(v) => r == (
                    FilterOp::EndsWith,
                    QueryValue::Text(v),
                ),
                StringNullableFilter::Not(v) => r.0 == FilterOp::Not && r.1 == match v {
                    Some(s) => QueryValue::Text(s),
                    None => QueryValue::Null,
                },
            },
    {
        match self {
            StringNullableFilter::Equals(v) => (
                FilterOp::Equals,
                match v {
                    Some(s) => QueryValue::Text(s),
                    None => QueryValue::Null,
                },
            ),
            StringNullableFilter::InVec(vs) => (
                FilterOp::InList,
                QueryValue::ListValue(text_list(vs)),
            ),
            StringNullableFilter::NotInVec(vs) => (
                FilterOp::NotInList,
                QueryValue::ListValue(text_list(vs)),
            ),
            StringNullableFilter::Lt(v) => (FilterOp::Lt, QueryValue::Text(v)),
            StringNullableFilter::Lte(v) => (FilterOp::Lte, QueryValue::Text(v)),
            StringNullableFilter::Gt(v) => (FilterOp::Gt, QueryValue::Text(v)),
            StringNullableFilter::Gte(v) => (FilterOp::Gte, QueryValue::Text(v)),
            StringNullableFilter::Contains(v) => (FilterOp::Contains, QueryValue::Text(v)),
            StringNullableFilter::StartsWith(v) => (FilterOp::StartsWith, QueryValue::Text(v)),
            StringNullableFilter::EndsWith(v) => (FilterOp::EndsWith, QueryValue::Text(v)),
            StringNullableFilter::Not(v) => (
                FilterOp::Not,
                match v {
                    Some(s) => QueryValue::Text(s),
                    None => QueryValue::Null,
                },
            ),
        }
    }
}

impl DateTimeFilter {
    /// The operator and the value the filter compares with.
    pub fn serialize(self) -> (r: (FilterOp, QueryValue))
        ensures
            match self {
                DateTimeFilter::Equals(v) => r == (FilterOp::Equals, QueryValue::DateTime(v)),
                DateTimeFilter::InVec(vs) => r.0 == FilterOp::InList && (r.1 matches
                    QueryValue::ListValue(l) && l@.len() == vs@.len() && forall|i: int|
                    0 <= i < vs@.len() ==> l@[i] == QueryValue::DateTime(vs@[i])),
                DateTimeFilter::NotInVec(vs) => r.0 == FilterOp::NotInList && (r.1 matches
                    QueryValue::ListValue(l) && l@.len() == vs@.len() && forall|i: int|
                    0 <= i < vs@.len() ==> l@[i] == QueryValue::DateTime(vs@[i])),
                DateTimeFilter::Lt(v) => r == (FilterOp::Lt, QueryValue::DateTime(v)),
                DateTimeFilter::Lte(v) => r == (FilterOp::Lte, QueryValue::DateTime(v)),
                DateTimeFilter::Gt(v) => r == (FilterOp::Gt, QueryValue::DateTime(v)),
                DateTimeFilter::Gte(v) => r == (FilterOp::Gte, QueryValue::DateTime(v)),
                DateTimeFilter::Not(v) => r == (FilterOp::Not, QueryValue::DateTime(v)),
            },
    {
        match self {
            DateTimeFilter::Equals(v) => (FilterOp::Equals, QueryValue::DateTime(v)),
            DateTimeFilter::InVec(vs) => (
                FilterOp::InList,
                QueryValue::ListValue(datetime_list(vs)),
            ),
            DateTimeFilter::NotInVec(vs) => (
                FilterOp::NotInList,
                QueryValue::ListValue(datetime_list(vs)),
            ),
            DateTimeFilter::Lt(v) => (FilterOp::Lt, QueryValue::DateTime(v)),
            DateTimeFilter::Lte(v) => (FilterOp::Lte, QueryValue::DateTime(v)),
            DateTimeFilter::Gt(v) => (FilterOp::Gt, QueryValue::DateTime(v)),
            DateTimeFilter::Gte(v) => (FilterOp::Gte, QueryValue::DateTime(v)),
            DateTimeFilter::Not(v) => (FilterOp::Not, QueryValue::DateTime(v)),
        }
    }
}

} // verus!
