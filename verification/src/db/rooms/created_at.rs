//! The `createdAt` column of the rooms model.
use vstd::prelude::*;

use crate::db::filters::DateTimeFilter;
use crate::db::rooms::{OrderByParam, SetParam, WhereParam};
use crate::db::value::{sel, Selection};
use crate::db::value::Timestamp;
use crate::db::SortOrder;

verus! {

/// Sets the column's value.
pub fn set(value: Timestamp) -> (r: SetParam)
    ensures
        r == SetParam::SetCreatedAt(value),
{
    SetParam::SetCreatedAt(value)
}

/// Orders results by the column.
pub fn order(direction: SortOrder) -> (r: OrderByParam)
    ensures
        r == OrderByParam::CreatedAt(direction),
{
    OrderByParam::CreatedAt(direction)
}

/// Filters rows whose column equals the value.
pub fn equals(value: Timestamp) -> (r: WhereParam)
    ensures
        r == WhereParam::CreatedAt(DateTimeFilter::Equals(value)),
{
    WhereParam::CreatedAt(DateTimeFilter::Equals(value))
}

/// Selecting this column when including relations.
pub struct Include;

impl Include {
    /// The column as a selection.
    pub fn to_selection(self) -> (r: Selection)
        ensures
            r.field@ == "createdAt"@,
    {
        sel("createdAt")
    }
}

/// Selecting this column in a narrowed selection.
pub struct Select;

impl Select {
    /// The column as a selection.
    pub fn to_selection(self) -> (r: Selection)
        ensures
            r.field@ == "createdAt"@,
    {
        sel("createdAt")
    }
}

} // verus!
