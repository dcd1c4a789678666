//! The `updatedAt` column of the user model.
use vstd::prelude::*;

use crate::db::filters::DateTimeFilter;
use crate::db::user::{OrderByParam, SetParam, WhereParam};
use crate::db::value::{sel, Selection};
use crate::db::value::Timestamp;
use crate::db::SortOrder;

verus! {

/// Sets the column's value.
pub fn set(value: Timestamp) -> (r: SetParam)
    ensures
        r == SetParam::SetUpdatedAt(value),
{
    SetParam::SetUpdatedAt(value)
}

/// Orders results by the column.
pub fn order(direction: SortOrder) -> (r: OrderByParam)
    ensures
        r == OrderByParam::UpdatedAt(direction),
{
    OrderByParam::UpdatedAt(direction)
}

/// Filters rows whose column equals the value.
pub fn equals(value: Timestamp) -> (r: WhereParam)
    ensures
        r == WhereParam::UpdatedAt(DateTimeFilter::Equals(value)),
{
    WhereParam::UpdatedAt(DateTimeFilter::Equals(value))
}

/// Selecting this column when including relations.
pub struct Include;

impl Include {
    /// The column as a selection.
    pub fn to_selection(self) -> (r: Selection)
        ensures
            r.field@ == "updatedAt"@,
    {
        sel("updatedAt")
    }
}

/// Selecting this column in a narrowed selection.
pub struct Select;

impl Select {
    /// The column as a selection.
    pub fn to_selection(self) -> (r: Selection)
        ensures
            r.field@ == "updatedAt"@,
    {
        sel("updatedAt")
    }
}

} // verus!
