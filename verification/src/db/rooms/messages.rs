//! The `Messages` relation of the rooms model: its many messages.
use vstd::prelude::*;

use crate::db::rooms::{SetParam, WhereParam};
use crate::db::value::{sel, Selection};

verus! {

/// A fetch of the related messages, with its arguments.
pub struct Fetch(pub crate::db::messages::ManyArgs);

impl Fetch {
    /// Also fetches a relation of the fetched messages.
    pub fn with(self, params: crate::db::messages::WithParam) -> (r: Self)
        ensures
            r.0.filters@ == self.0.filters@,
            r.0.with_params@ == self.0.with_params@.push(params),
            r.0.order_params@ == self.0.order_params@,
            r.0.cursor_param == self.0.cursor_param,
            r.0.skip_count == self.0.skip_count,
            r.0.take_count == self.0.take_count,
    {
        let mut args = self.0;
        args.with_params.push(params);
        Fetch(args)
    }

    /// Orders the fetched messages.
    pub fn order_by(self, param: crate::db::messages::OrderByParam) -> (r: Self)
        ensures
            r.0.filters@ == self.0.filters@,
            r.0.with_params@ == self.0.with_params@,
            r.0.order_params@ == self.0.order_params@.push(param),
            r.0.cursor_param == self.0.cursor_param,
            r.0.skip_count == self.0.skip_count,
            r.0.take_count == self.0.take_count,
    {
        let mut args = self.0;
        args.order_params.push(param);
        Fetch(args)
    }

    /// Skips the first messages of the fetch.
    pub fn skip(self, value: i64) -> (r: Self)
        ensures
            r.0 == (crate::db::messages::ManyArgs { skip_count: Some(value), ..self.0 }),
    {
        let mut args = self.0;
        args.skip_count = Some(value);
        Fetch(args)
    }

    /// Bounds how many messages the fetch returns.
    pub fn take(self, value: i64) -> (r: Self)
        ensures
            r.0 == (crate::db::messages::ManyArgs { take_count: Some(value), ..self.0 }),
    {
        let mut args = self.0;
        args.take_count = Some(value);
        Fetch(args)
    }

    /// Starts the fetch at this message.
    pub fn cursor(self, value: crate::db::messages::UniqueWhereParam) -> (r: Self)
        ensures
            r.0 == (crate::db::messages::ManyArgs { cursor_param: Some(value), ..self.0 }),
    {
        let mut args = self.0;
        args.cursor_param = Some(value);
        Fetch(args)
    }
}

/// Fetches the related messages that pass the filters.
pub fn fetch(params: Vec<crate::db::messages::WhereParam>) -> (r: Fetch)
    ensures
        r.0.filters@ == params@,
        r.0.with_params@.len() == 0,
        r.0.order_params@.len() == 0,
        r.0.cursor_param == None::<crate::db::messages::UniqueWhereParam>,
        r.0.skip_count == None::<i64>,
        r.0.take_count == None::<i64>,
{
    Fetch(crate::db::messages::ManyArgs::new(params))
}

/// The messages to connect in a write.
pub struct Connect(pub Vec<crate::db::messages::UniqueWhereParam>);

/// Connects these messages to the row.
pub fn connect(params: Vec<crate::db::messages::UniqueWhereParam>) -> (r: SetParam)
    ensures
        r == SetParam::ConnectMessages(params),
{
    SetParam::ConnectMessages(params)
}

/// Disconnects these messages from the row.
pub fn disconnect(params: Vec<crate::db::messages::UniqueWhereParam>) -> (r: SetParam)
    ensures
        r == SetParam::DisconnectMessages(params),
{
    SetParam::DisconnectMessages(params)
}

/// Replaces the row's related messages with these.
pub fn set(params: Vec<crate::db::messages::UniqueWhereParam>) -> (r: SetParam)
    ensures
        r == SetParam::SetMessages(params),
{
    SetParam::SetMessages(params)
}

/// Filters rows with some related message passing the filters.
pub fn some(value: Vec<crate::db::messages::WhereParam>) -> (r: WhereParam)
    ensures
        r == WhereParam::MessagesSome(value),
{
    WhereParam::MessagesSome(value)
}

/// Filters rows all of whose related messages pass the filters.
pub fn every(value: Vec<crate::db::messages::WhereParam>) -> (r: WhereParam)
    ensures
        r == WhereParam::MessagesEvery(value),
{
    WhereParam::MessagesEvery(value)
}

/// Filters rows with no related message passing the filters.
pub fn none(value: Vec<crate::db::messages::WhereParam>) -> (r: WhereParam)
    ensures
        r == WhereParam::MessagesNone(value),
{
    WhereParam::MessagesNone(value)
}

/// Including the relation, with a narrowed or widened selection.
pub enum Include {
    Select(crate::db::messages::ManyArgs, Vec<crate::db::messages::SelectParam>),
    Include(crate::db::messages::ManyArgs, Vec<crate::db::messages::IncludeParam>),
    Fetch(crate::db::messages::ManyArgs),
}

impl Include {
    /// Includes the relation narrowed to these selections.
    pub fn select(
        args: crate::db::messages::ManyArgs,
        nested_selections: Vec<crate::db::messages::SelectParam>,
    ) -> (r: Self)
        ensures
            r == Include::Select(args, nested_selections),
    {
        Include::Select(args, nested_selections)
    }

    /// Includes the relation widened by these selections.
    pub fn widen(
        args: crate::db::messages::ManyArgs,
        nested_selections: Vec<crate::db::messages::IncludeParam>,
    ) -> (r: Self)
        ensures
            r == Include::Include(args, nested_selections),
    {
        Include::Include(args, nested_selections)
    }

    /// The relation as a selection.
    pub fn to_selection(self) -> (r: Selection)
        ensures
            r.field@ == "Messages"@,
    {
        sel("Messages")
    }
}

/// Selecting the relation, with a narrowed or widened selection.
pub enum Select {
    Select(crate::db::messages::ManyArgs, Vec<crate::db::messages::SelectParam>),
    Include(crate::db::messages::ManyArgs, Vec<crate::db::messages::IncludeParam>),
    Fetch(crate::db::messages::ManyArgs),
}

impl Select {
    /// Selects the relation narrowed to these selections.
    pub fn select(
        args: crate::db::messages::ManyArgs,
        nested_selections: Vec<crate::db::messages::SelectParam>,
    ) -> (r: Self)
        ensures
            r == Select::Select(args, nested_selections),
    {
        Select::Select(args, nested_selections)
    }

    /// Selects the relation widened by these selections.
    pub fn widen(
        args: crate::db::messages::ManyArgs,
        nested_selections: Vec<crate::db::messages::IncludeParam>,
    ) -> (r: Self)
        ensures
            r == Select::Include(args, nested_selections),
    {
        Select::Include(args, nested_selections)
    }

    /// The relation as a selection.
    pub fn to_selection(self) -> (r: Selection)
        ensures
            r.field@ == "Messages"@,
    {
        sel("Messages")
    }
}

} // verus!
