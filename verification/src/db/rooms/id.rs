//! The `id` column of the rooms model.
use vstd::prelude::*;

use crate::db::rooms::{OrderByParam, SetParam, UniqueWhereParam};
use crate::db::value::{sel, Selection};
use crate::db::SortOrder;

verus! {

/// Sets the column's value.
pub fn set(value: i32) -> (r: SetParam)
    ensures
        r == SetParam::SetId(value),
{
    SetParam::SetId(value)
}

/// Orders results by the column.
pub fn order(direction: SortOrder) -> (r: OrderByParam)
    ensures
        r == OrderByParam::Id(direction),
{
    OrderByParam::Id(direction)
}

/// Filters for the row whose column equals the value.
pub fn equals(value: i32) -> (r: UniqueWhereParam)
    ensures
        r == UniqueWhereParam::IdEquals(value),
{
    UniqueWhereParam::IdEquals(value)
}

/// Raises the column by the value.
pub fn increment(value: i32) -> (r: SetParam)
    ensures
        r == SetParam::IncrementId(value),
{
    SetParam::IncrementId(value)
}

/// Lowers the column by the value.
pub fn decrement(value: i32) -> (r: SetParam)
    ensures
        r == SetParam::DecrementId(value),
{
    SetParam::DecrementId(value)
}

/// Multiplies the column by the value.
pub fn multiply(value: i32) -> (r: SetParam)
    ensures
        r == SetParam::MultiplyId(value),
{
    SetParam::MultiplyId(value)
}

/// Divides the column by the value.
pub fn divide(value: i32) -> (r: SetParam)
    ensures
        r == SetParam::DivideId(value),
{
    SetParam::DivideId(value)
}

/// Selecting this column when including relations.
pub struct Include;

impl Include {
    /// The column as a selection.
    pub fn to_selection(self) -> (r: Selection)
        ensures
            r.field@ == "id"@,
    {
        sel("id")
    }
}

/// Selecting this column in a narrowed selection.
pub struct Select;

impl Select {
    /// The column as a selection.
    pub fn to_selection(self) -> (r: Selection)
        ensures
            r.field@ == "id"@,
    {
        sel("id")
    }
}

} // verus!
