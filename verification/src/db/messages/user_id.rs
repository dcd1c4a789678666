//! The `userId` column of the messages model.
use vstd::prelude::*;

use crate::db::filters::IntFilter;
use crate::db::messages::{OrderByParam, SetParam, WhereParam};
use crate::db::value::{sel, Selection};
use crate::db::SortOrder;

verus! {

/// Sets the column's value.
pub fn set(value: i32) -> (r: SetParam)
    ensures
        r == SetParam::SetUserId(value),
{
    SetParam::SetUserId(value)
}

/// Orders results by the column.
pub fn order(direction: SortOrder) -> (r: OrderByParam)
    ensures
        r == OrderByParam::UserId(direction),
{
    OrderByParam::UserId(direction)
}

/// Filters rows whose column equals the value.
pub fn equals(value: i32) -> (r: WhereParam)
    ensures
        r == WhereParam::UserId(IntFilter::Equals(value)),
{
    WhereParam::UserId(IntFilter::Equals(value))
}

/// Raises the column by the value.
pub fn increment(value: i32) -> (r: SetParam)
    ensures
        r == SetParam::IncrementUserId(value),
{
    SetParam::IncrementUserId(value)
}

/// Lowers the column by the value.
pub fn decrement(value: i32) -> (r: SetParam)
    ensures
        r == SetParam::DecrementUserId(value),
{
    SetParam::DecrementUserId(value)
}

/// Multiplies the column by the value.
pub fn multiply(value: i32) -> (r: SetParam)
    ensures
        r == SetParam::MultiplyUserId(value),
{
    SetParam::MultiplyUserId(value)
}

/// Divides the column by the value.
pub fn divide(value: i32) -> (r: SetParam)
    ensures
        r == SetParam::DivideUserId(value),
{
    SetParam::DivideUserId(value)
}

/// Selecting this column when including relations.
pub struct Include;

impl Include {
    /// The column as a selection.
    pub fn to_selection(self) -> (r: Selection)
        ensures
            r.field@ == "userId"@,
    {
        sel("userId")
    }
}

/// Selecting this column in a narrowed selection.
pub struct Select;

impl Select {
    /// The column as a selection.
    pub fn to_selection(self) -> (r: Selection)
        ensures
            r.field@ == "userId"@,
    {
        sel("userId")
    }
}

} // verus!
