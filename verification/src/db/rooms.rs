//! The rooms model: its column builders, parameters, filters and query
//! descriptions.
use vstd::prelude::*;

pub mod created_at;
pub mod id;
pub mod messages;
pub mod name;
pub mod updated_at;

use crate::db::filters::{DateTimeFilter, IntFilter, StringFilter};
use crate::db::value::{RelationNotFetched, Selection, Timestamp};
use crate::db::SortOrder;

verus! {


/// One selected part of the model, narrowing a query's result.
pub enum SelectParam {
    Id(id::Select),
    Name(name::Select),
    CreatedAt(created_at::Select),
    UpdatedAt(updated_at::Select),
    Messages(messages::Select),
}

impl SelectParam {
    /// The selected field.
    pub fn to_selection(self) -> (r: Selection)
        ensures
            match self {
                SelectParam::Id(_) => r.field@ == "id"@,
                SelectParam::Name(_) => r.field@ == "name"@,
                SelectParam::CreatedAt(_) => r.field@ == "createdAt"@,
                SelectParam::UpdatedAt(_) => r.field@ == "updatedAt"@,
                SelectParam::Messages(_) => r.field@ == "Messages"@,
            },
    {
        match self {
            SelectParam::Id(s) => s.to_selection(),
            SelectParam::Name(s) => s.to_selection(),
            SelectParam::CreatedAt(s) => s.to_selection(),
            SelectParam::UpdatedAt(s) => s.to_selection(),
            SelectParam::Messages(s) => s.to_selection(),
        }
    }
}

/// One selected part of the model, extending a query's result.
pub enum IncludeParam {
    Id(id::Include),
    Name(name::Include),
    CreatedAt(created_at::Include),
    UpdatedAt(updated_at::Include),
    Messages(messages::Include),
}

impl IncludeParam {
    /// The selected field.
    pub fn to_selection(self) -> (r: Selection)
        ensures
            match self {
                IncludeParam::Id(_) => r.field@ == "id"@,
                IncludeParam::Name(_) => r.field@ == "name"@,
                IncludeParam::CreatedAt(_) => r.field@ == "createdAt"@,
                IncludeParam::UpdatedAt(_) => r.field@ == "updatedAt"@,
                IncludeParam::Messages(_) => r.field@ == "Messages"@,
            },
    {
        match self {
            IncludeParam::Id(s) => s.to_selection(),
            IncludeParam::Name(s) => s.to_selection(),
            IncludeParam::CreatedAt(s) => s.to_selection(),
            IncludeParam::UpdatedAt(s) => s.to_selection(),
            IncludeParam::Messages(s) => s.to_selection(),
        }
    }
}

/// A relation fetched along with the model's rows.
pub enum WithParam {
    Messages(crate::db::messages::ManyArgs),
}

/// One change a write applies.
#[derive(Clone, Debug)]
pub enum SetParam {
    SetId(i32),
    IncrementId(i32),
    DecrementId(i32),
    MultiplyId(i32),
    DivideId(i32),
    SetName(String),
    SetCreatedAt(Timestamp),
    SetUpdatedAt(Timestamp),
    ConnectMessages(Vec<crate::db::messages::UniqueWhereParam>),
    DisconnectMessages(Vec<crate::db::messages::UniqueWhereParam>),
    SetMessages(Vec<crate::db::messages::UniqueWhereParam>),
}

/// One change of an unchecked write, by column value alone.
#[derive(Clone, Debug)]
pub enum UncheckedSetParam {
    Id(i32),
    Name(String),
    CreatedAt(Timestamp),
    UpdatedAt(Timestamp),
}

/// The change an unchecked change stands for.
pub open spec fn unchecked_set(p: UncheckedSetParam) -> SetParam {
    match p {
        UncheckedSetParam::Id(value) => SetParam::SetId(value),
        UncheckedSetParam::Name(value) => SetParam::SetName(value),
        UncheckedSetParam::CreatedAt(value) => SetParam::SetCreatedAt(value),
        UncheckedSetParam::UpdatedAt(value) => SetParam::SetUpdatedAt(value),
    }
}

impl UncheckedSetParam {
    /// The change this stands for.
    pub fn to_set(self) -> (r: SetParam)
        ensures
            r == unchecked_set(self),
    {
        match self {
            UncheckedSetParam::Id(value) => SetParam::SetId(value),
            UncheckedSetParam::Name(value) => SetParam::SetName(value),
            UncheckedSetParam::CreatedAt(value) => SetParam::SetCreatedAt(value),
            UncheckedSetParam::UpdatedAt(value) => SetParam::SetUpdatedAt(value),
        }
    }
}

/// An ordering of the model's rows by one column.
#[derive(Clone, Copy, Debug, PartialEq, Eq, Structural)]
pub enum OrderByParam {
    Id(SortOrder),
    Name(SortOrder),
    CreatedAt(SortOrder),
    UpdatedAt(SortOrder),
}

/// A condition rows must pass.
pub enum WhereParam {
    Not(Vec<WhereParam>),
    Or(Vec<WhereParam>),
    And(Vec<WhereParam>),
    Id(IntFilter),
    Name(StringFilter),
    CreatedAt(DateTimeFilter),
    UpdatedAt(DateTimeFilter),
    MessagesSome(Vec<crate::db::messages::WhereParam>),
    MessagesEvery(Vec<crate::db::messages::WhereParam>),
    MessagesNone(Vec<crate::db::messages::WhereParam>),
}

/// A condition naming at most one row.
#[derive(Clone, Debug)]
pub enum UniqueWhereParam {
    NameEquals(String),
    IdEquals(i32),
}

impl UniqueWhereParam {
    /// The condition as a general filter.
    pub fn to_where(self) -> (r: WhereParam)
        ensures
            match self {
                UniqueWhereParam::NameEquals(value) => r == WhereParam::Name(StringFilter::Equals(value)),
                UniqueWhereParam::IdEquals(value) => r == WhereParam::Id(IntFilter::Equals(value)),
            },
    {
        match self {
            UniqueWhereParam::NameEquals(value) => WhereParam::Name(StringFilter::Equals(value)),
            UniqueWhereParam::IdEquals(value) => WhereParam::Id(IntFilter::Equals(value)),
        }
    }
}

/// The arguments of a fetch of many rows.
pub struct ManyArgs {
    pub filters: Vec<WhereParam>,
    pub with_params: Vec<WithParam>,
    pub order_params: Vec<OrderByParam>,
    pub cursor_param: Option<UniqueWhereParam>,
    pub skip_count: Option<i64>,
    pub take_count: Option<i64>,
}

impl ManyArgs {
    /// Fresh arguments: these filters and nothing else.
    pub fn new(filters: Vec<WhereParam>) -> (r: Self)
        ensures
            r.filters@ == filters@,
            r.with_params@.len() == 0,
            r.order_params@.len() == 0,
            r.cursor_param == None::<UniqueWhereParam>,
            r.skip_count == None::<i64>,
            r.take_count == None::<i64>,
    {
        ManyArgs {
            filters,
            with_params: Vec::new(),
            order_params: Vec::new(),
            cursor_param: None,
            skip_count: None,
            take_count: None,
        }
    }
}

/// The arguments of a fetch of one row.
pub struct UniqueArgs {
    pub with_params: Vec<WithParam>,
}

impl UniqueArgs {
    /// Fresh arguments: nothing fetched along.
    pub fn new() -> (r: Self)
        ensures
            r.with_params@.len() == 0,
    {
        UniqueArgs { with_params: Vec::new() }
    }
}

/// One row of the model, as a query returns it.
pub struct Data {
    pub id: i32,
    pub name: String,
    pub created_at: Timestamp,
    pub updated_at: Timestamp,
    pub messages: Option<Vec<crate::db::messages::Data>>,
}

impl Data {
    /// The fetched `messages` relation, if the query fetched it.
    pub fn messages(&self) -> (r: Result<&Vec<crate::db::messages::Data>, RelationNotFetched>)
        ensures
            r is Ok <==> self.messages is Some,
            r matches Ok(v) ==> self.messages == Some(*v),
    {
        match &self.messages {
            Some(v) => Ok(v),
            None => Err(RelationNotFetched),
        }
    }

}

/// The model's type bundle.
#[derive(Clone, Copy, Debug, PartialEq, Eq, Structural)]
pub struct Types;

impl Types {
    /// Every scalar column of the model, as selections, in order.
    pub fn scalar_selections() -> (r: Vec<Selection>)
        ensures
            r@.len() == 4,
            r@[0].field@ == "id"@,
            r@[1].field@ == "name"@,
            r@[2].field@ == "createdAt"@,
            r@[3].field@ == "updatedAt"@,
    {
        let mut v: Vec<Selection> = Vec::new();
        v.push(crate::db::value::sel("id"));
        v.push(crate::db::value::sel("name"));
        v.push(crate::db::value::sel("createdAt"));
        v.push(crate::db::value::sel("updatedAt"));
        v
    }
}
/// A query for at most one row, by a unique condition.
pub struct FindUnique {
    pub filter: UniqueWhereParam,
    pub with_params: Vec<WithParam>,
}

impl FindUnique {
    /// Also fetches a relation of the found row.
    pub fn with(self, param: WithParam) -> (r: Self)
        ensures
            r.filter == self.filter,
            r.with_params@ == self.with_params@.push(param),
    {
        let mut with_params = self.with_params;
        with_params.push(param);
        FindUnique { filter: self.filter, with_params }
    }
}

/// A query for the first row passing the filters.
pub struct FindFirst {
    pub filters: Vec<WhereParam>,
    pub with_params: Vec<WithParam>,
}

impl FindFirst {
    /// Also fetches a relation of the found row.
    pub fn with(self, param: WithParam) -> (r: Self)
        ensures
            r.filters@ == self.filters@,
            r.with_params@ == self.with_params@.push(param),
    {
        let mut with_params = self.with_params;
        with_params.push(param);
        FindFirst { filters: self.filters, with_params }
    }
}

/// A query for every row passing the filters.
pub struct FindMany {
    pub filters: Vec<WhereParam>,
    pub with_params: Vec<WithParam>,
}

impl FindMany {
    /// Also fetches a relation of the found rows.
    pub fn with(self, param: WithParam) -> (r: Self)
        ensures
            r.filters@ == self.filters@,
            r.with_params@ == self.with_params@.push(param),
    {
        let mut with_params = self.with_params;
        with_params.push(param);
        FindMany { filters: self.filters, with_params }
    }
}

/// A write creating one row.
pub struct Create {
    pub params: Vec<SetParam>,
}

/// A write creating many rows.
pub struct CreateMany {
    pub rows: Vec<Vec<SetParam>>,
}

/// A write changing the row a unique condition names.
pub struct Update {
    pub filter: UniqueWhereParam,
    pub params: Vec<SetParam>,
}

/// A write changing every row passing the filters.
pub struct UpdateMany {
    pub filters: Vec<WhereParam>,
    pub params: Vec<SetParam>,
}

/// A write creating the named row or changing it where it exists.
pub struct Upsert {
    pub filter: UniqueWhereParam,
    pub create_params: Vec<SetParam>,
    pub update_params: Vec<SetParam>,
}

/// A write deleting the row a unique condition names.
pub struct Delete {
    pub filter: UniqueWhereParam,
}

/// A write deleting every row passing the filters.
pub struct DeleteMany {
    pub filters: Vec<WhereParam>,
}

/// A query counting the rows passing the filters.
pub struct Count {
    pub filters: Vec<WhereParam>,
}

/// A raw read against the model.
pub struct FindRaw;

/// A raw aggregation against the model.
pub struct AggregateRaw;

/// Unchecked changes as checked ones, in order.
fn to_set_list(params: Vec<UncheckedSetParam>) -> (r: Vec<SetParam>)
    ensures
        r@.len() == params@.len(),
        forall|i: int| 0 <= i < params@.len() ==> r@[i] == unchecked_set(params@[i]),
{
    let mut rest = params;
    let mut out: Vec<SetParam> = Vec::new();
    let ghost whole = rest@;
    while rest.len() > 0
        invariant
            out@.len() + rest@.len() == whole.len(),
            rest@ =~= whole.skip(out@.len() as int),
            forall|j: int| 0 <= j < out@.len() ==> out@[j] == unchecked_set(whole[j]),
        decreases rest@.len(),
    {
        let p = rest.remove(0);
        proof {
            assert(p == whole[out@.len() as int]);
            assert(rest@ =~= whole.skip(out@.len() as int + 1));
        }
        out.push(p.to_set());
    }
    out
}

/// The queries and writes the model offers. Each returns a description;
/// running it against the store is the caller's business.
#[derive(Clone, Copy, Debug, PartialEq, Eq, Structural)]
pub struct Actions;

impl Actions {
    /// Describes a fetch of the row a unique condition names.
    pub fn find_unique(self, param: UniqueWhereParam) -> (r: FindUnique)
        ensures
            r.filter == param,
            r.with_params@.len() == 0,
    {
        FindUnique { filter: param, with_params: Vec::new() }
    }

    /// Describes a fetch of the first row passing the filters.
    pub fn find_first(self, filters: Vec<WhereParam>) -> (r: FindFirst)
        ensures
            r.filters@ == filters@,
            r.with_params@.len() == 0,
    {
        FindFirst { filters, with_params: Vec::new() }
    }

    /// Describes a fetch of every row passing the filters.
    pub fn find_many(self, filters: Vec<WhereParam>) -> (r: FindMany)
        ensures
            r.filters@ == filters@,
            r.with_params@.len() == 0,
    {
        FindMany { filters, with_params: Vec::new() }
    }

    /// Describes the creation of one row: the required column and any
    /// further changes.
    pub fn create(self, name: String, params: Vec<SetParam>) -> (r: Create)
        ensures
            r.params@ == params@ + seq![SetParam::SetName(name)],
    {
        let mut params = params;
        let ghost before = params@;
        params.push(SetParam::SetName(name));
        proof {
            assert(params@ =~= before + seq![params@[before.len() as int]]);
        }
        Create { params }
    }

    /// Describes the creation of one row from unchecked changes.
    pub fn create_unchecked(self, name: String, params: Vec<UncheckedSetParam>) -> (r: Create)
        ensures
            r.params@.len() == params@.len() + 1,
            forall|i: int|
                0 <= i < params@.len() ==> r.params@[i] == unchecked_set(params@[i]),
            r.params@[params@.len() as int] == SetParam::SetName(name),
    {
        let mut out = to_set_list(params);
        out.push(SetParam::SetName(name));
        Create { params: out }
    }

    /// Describes the creation of many rows, one per entry.
    pub fn create_many(self, data: Vec<(String, Vec<SetParam>)>) -> (r: CreateMany)
        ensures
            r.rows@.len() == data@.len(),
            forall|i: int|
                0 <= i < data@.len() ==> r.rows@[i]@ == data@[i].1@ + seq![
                    SetParam::SetName(data@[i].0),
                ],
    {
        let mut rest = data;
        let mut rows: Vec<Vec<SetParam>> = Vec::new();
        let ghost whole = rest@;
        while rest.len() > 0
            invariant
                rows@.len() + rest@.len() == whole.len(),
                rest@ =~= whole.skip(rows@.len() as int),
                forall|j: int|
                    0 <= j < rows@.len() ==> rows@[j]@ == whole[j].1@ + seq![
                        SetParam::SetName(whole[j].0),
                    ],
            decreases rest@.len(),
        {
            let entry = rest.remove(0);
            proof {
                assert(entry == whole[rows@.len() as int]);
                assert(rest@ =~= whole.skip(rows@.len() as int + 1));
            }
            let mut row = entry.1;
            let ghost before = row@;
            row.push(SetParam::SetName(entry.0));
            proof {
                assert(row@ =~= before + seq![row@[before.len() as int]]);
            }
            rows.push(row);
        }
        CreateMany { rows }
    }


    /// Describes a change of the row a unique condition names.
    pub fn update(self, filter: UniqueWhereParam, params: Vec<SetParam>) -> (r: Update)
        ensures
            r.filter == filter,
            r.params@ == params@,
    {
        Update { filter, params }
    }

    /// Describes an unchecked change of the row a unique condition names.
    pub fn update_unchecked(
        self,
        filter: UniqueWhereParam,
        params: Vec<UncheckedSetParam>,
    ) -> (r: Update)
        ensures
            r.filter == filter,
            r.params@.len() == params@.len(),
            forall|i: int|
                0 <= i < params@.len() ==> r.params@[i] == unchecked_set(params@[i]),
    {
        Update { filter, params: to_set_list(params) }
    }

    /// Describes a change of every row passing the filters.
    pub fn update_many(self, filters: Vec<WhereParam>, params: Vec<SetParam>) -> (r: UpdateMany)
        ensures
            r.filters@ == filters@,
            r.params@ == params@,
    {
        UpdateMany { filters, params }
    }

    /// Describes an upsert: the creation tuple where the row is missing,
    /// the changes where it exists.
    pub fn upsert(
        self,
        filter: UniqueWhereParam,
        create: (String, Vec<SetParam>),
        update: Vec<SetParam>,
    ) -> (r: Upsert)
        ensures
            r.filter == filter,
            r.create_params@ == create.1@ + seq![SetParam::SetName(create.0)],
            r.update_params@ == update@,
    {
        let mut create_params = create.1;
        let ghost before = create_params@;
        create_params.push(SetParam::SetName(create.0));
        proof {
            assert(create_params@ =~= before + seq![create_params@[before.len() as int]]);
        }
        Upsert { filter, create_params, update_params: update }
    }


    /// Describes a deletion of the row a unique condition names.
    pub fn delete(self, filter: UniqueWhereParam) -> (r: Delete)
        ensures
            r.filter == filter,
    {
        Delete { filter }
    }

    /// Describes a deletion of every row passing the filters.
    pub fn delete_many(self, filters: Vec<WhereParam>) -> (r: DeleteMany)
        ensures
            r.filters@ == filters@,
    {
        DeleteMany { filters }
    }

    /// Describes a count of the rows passing the filters.
    pub fn count(self, filters: Vec<WhereParam>) -> (r: Count)
        ensures
            r.filters@ == filters@,
    {
        Count { filters }
    }

    /// Describes a raw read against the model.
    pub fn find_raw(self) -> (r: FindRaw)
        ensures
            r == FindRaw,
    {
        FindRaw
    }

    /// Describes a raw aggregation against the model.
    pub fn aggregate_raw(self) -> (r: AggregateRaw)
        ensures
            r == AggregateRaw,
    {
        AggregateRaw
    }
}

/// The creation tuple of one row: the required column and any further
/// changes, handed to `Actions::create` or `Actions::upsert`.
pub fn create(name: String, params: Vec<SetParam>) -> (r: (String, Vec<SetParam>))
    ensures
        r == (name, params),
{
    (name, params)
}

/// The creation tuple of one row for an unchecked write.
pub fn create_unchecked(name: String, params: Vec<SetParam>) -> (r: (String, Vec<SetParam>))
    ensures
        r == (name, params),
{
    (name, params)
}

} // verus!
