//! The `roomId` column of the messages model.
use vstd::prelude::*;

use crate::db::filters::IntFilter;
use crate::db::messages::{OrderByParam, SetParam, WhereParam};
use crate::db::value::{sel, Selection};
use crate::db::SortOrder;

verus! {

/// Sets the column's value.
pub fn set(value: i32) -> (r: SetParam)
    ensures
        r == SetParam::SetRoomId(value),
{
    SetParam::SetRoomId(value)
}

/// Orders results by the column.
pub fn order(direction: SortOrder) -> (r: OrderByParam)
    ensures
        r == OrderByParam::RoomId(direction),
{
    OrderByParam::RoomId(direction)
}

/// Filters rows whose column equals the value.
pub fn equals(value: i32) -> (r: WhereParam)
    ensures
        r == WhereParam::RoomId(IntFilter::Equals(value)),
{
    WhereParam::RoomId(IntFilter::Equals(value))
}

/// Raises the column by the value.
pub fn increment(value: i32) -> (r: SetParam)
    ensures
        r == SetParam::IncrementRoomId(value),
{
    SetParam::IncrementRoomId(value)
}

/// Lowers the column by the value.
pub fn decrement(value: i32) -> (r: SetParam)
    ensures
        r == SetParam::DecrementRoomId(value),
{
    SetParam::DecrementRoomId(value)
}

/// Multiplies the column by the value.
pub fn multiply(value: i32) -> (r: SetParam)
    ensures
        r == SetParam::MultiplyRoomId(value),
{
    SetParam::MultiplyRoomId(value)
}

/// Divides the column by the value.
pub fn divide(value: i32) -> (r: SetParam)
    ensures
        r == SetParam::DivideRoomId(value),
{
    SetParam::DivideRoomId(value)
}

/// Selecting this column when including relations.
pub struct Include;

impl Include {
    /// The column as a selection.
    pub fn to_selection(self) -> (r: Selection)
        ensures
            r.field@ == "roomId"@,
    {
        sel("roomId")
    }
}

/// Selecting this column in a narrowed selection.
pub struct Select;

impl Select {
    /// The column as a selection.
    pub fn to_selection(self) -> (r: Selection)
        ensures
            r.field@ == "roomId"@,
    {
        sel("roomId")
    }
}

} // verus!
