use chat_relay::api::{BanUserParams, CreateChatBody, CreateUserRequest, SendMessageBody};
use chat_relay::db::filters::{IntFilter, StringFilter, StringNullableFilter};
use chat_relay::db::value::{FilterOp, QueryValue, Timestamp};
use chat_relay::db::{
    messages, rooms, user, MessagesScalarFieldEnum, PrismaClient, RoomsScalarFieldEnum,
    SortOrder, TransactionIsolationLevel, UserScalarFieldEnum,
};

#[test]
fn column_builders_name_their_column() {
    assert!(matches!(user::id::set(5), user::SetParam::SetId(5)));
    assert!(matches!(user::id::increment(2), user::SetParam::IncrementId(2)));
    assert!(matches!(user::id::divide(3), user::SetParam::DivideId(3)));
    assert!(matches!(user::id::equals(9), user::UniqueWhereParam::IdEquals(9)));
    assert!(matches!(
        user::email::set(String::from("a@b.c")),
        user::SetParam::SetEmail(e) if e == "a@b.c"
    ));
    assert!(matches!(
        user::ip::equals(String::from("10.0.0.1")),
        user::WhereParam::Ip(StringFilter::Equals(ip)) if ip == "10.0.0.1"
    ));
    assert!(matches!(
        rooms::name::equals(String::from("lobby")),
        rooms::UniqueWhereParam::NameEquals(n) if n == "lobby"
    ));
    assert!(matches!(
        messages::user_id::equals(3),
        messages::WhereParam::UserId(IntFilter::Equals(3))
    ));
    assert!(matches!(
        user::id::order(SortOrder::Desc),
        user::OrderByParam::Id(SortOrder::Desc)
    ));
}

#[test]
fn relation_builders_build_their_params() {
    let joined = messages::room::connect(rooms::id::equals(4));
    assert!(matches!(
        joined,
        messages::SetParam::ConnectRoom(rooms::UniqueWhereParam::IdEquals(4))
    ));
    let some = user::messages::some(vec![messages::id::equals(1).to_where()]);
    assert!(matches!(some, user::WhereParam::MessagesSome(v) if v.len() == 1));
    let fetch = user::messages::fetch(vec![]).take(10).skip(2);
    assert_eq!(fetch.0.take_count, Some(10));
    assert_eq!(fetch.0.skip_count, Some(2));
    assert!(fetch.0.filters.is_empty());
}

#[test]
fn find_unique_keeps_its_condition() {
    let client = PrismaClient { url: None };
    let q = client
        .rooms()
        .find_unique(rooms::id::equals(42))
        .with(rooms::WithParam::Messages(messages::ManyArgs::new(vec![])));
    assert!(matches!(q.filter, rooms::UniqueWhereParam::IdEquals(42)));
    assert_eq!(q.with_params.len(), 1);
}

#[test]
fn create_appends_the_required_columns_last() {
    let q = user::Actions.create(
        String::from("a@b.c"),
        String::from("10.0.0.1"),
        vec![user::SetParam::SetName(Some(String::from("ada")))],
    );
    assert_eq!(q.params.len(), 3);
    assert!(matches!(&q.params[0], user::SetParam::SetName(Some(n)) if n == "ada"));
    assert!(matches!(&q.params[1], user::SetParam::SetEmail(e) if e == "a@b.c"));
    assert!(matches!(&q.params[2], user::SetParam::SetIp(ip) if ip == "10.0.0.1"));
}

#[test]
fn create_many_extends_every_row() {
    let q = rooms::Actions.create_many(vec![
        (String::from("alpha"), vec![]),
        (String::from("beta"), vec![rooms::SetParam::SetId(2)]),
    ]);
    assert_eq!(q.rows.len(), 2);
    assert!(matches!(&q.rows[0][0], rooms::SetParam::SetName(n) if n == "alpha"));
    assert!(matches!(&q.rows[1][0], rooms::SetParam::SetId(2)));
    assert!(matches!(&q.rows[1][1], rooms::SetParam::SetName(n) if n == "beta"));
}

#[test]
fn unchecked_changes_become_checked_ones() {
    let q = messages::Actions.update_unchecked(
        messages::id::equals(1),
        vec![messages::UncheckedSetParam::UserId(9)],
    );
    assert!(matches!(&q.params[0], messages::SetParam::SetUserId(9)));
}

#[test]
fn filters_serialize_to_operator_and_value() {
    let (op, v) = IntFilter::Equals(3).serialize();
    assert_eq!(op, FilterOp::Equals);
    assert!(matches!(v, QueryValue::IntValue(3)));
    let (op, v) = IntFilter::InVec(vec![1, 2]).serialize();
    assert_eq!(op, FilterOp::InList);
    assert!(matches!(v, QueryValue::ListValue(l) if l.len() == 2));
    let (op, v) = StringNullableFilter::Equals(None).serialize();
    assert_eq!(op, FilterOp::Equals);
    assert!(matches!(v, QueryValue::Null));
    assert_eq!(FilterOp::NotInList.wire_name(), "notIn");
    assert_eq!(FilterOp::StartsWith.wire_name(), "startsWith");
}

#[test]
fn wire_names_match_the_store() {
    assert_eq!(SortOrder::Asc.wire_name(), "asc");
    assert_eq!(SortOrder::Desc.wire_name(), "desc");
    assert_eq!(UserScalarFieldEnum::CreatedAt.wire_name(), "createdAt");
    assert_eq!(RoomsScalarFieldEnum::Name.wire_name(), "name");
    assert_eq!(MessagesScalarFieldEnum::RoomId.wire_name(), "roomId");
    assert_eq!(TransactionIsolationLevel::RepeatableRead.wire_name(), "RepeatableRead");
    let sels = user::Types::scalar_selections();
    assert_eq!(sels.len(), 6);
    assert_eq!(sels[0].field, "id");
    assert_eq!(sels[4].field, "createdAt");
}

#[test]
fn fetched_relations_are_handed_out() {
    let row = rooms::Data {
        id: 1,
        name: String::from("lobby"),
        created_at: Timestamp { unix_seconds: 0 },
        updated_at: Timestamp { unix_seconds: 0 },
        messages: Some(vec![]),
    };
    assert!(row.messages().is_ok());
    let bare = rooms::Data { messages: None, ..row };
    assert!(bare.messages().is_err());
}

#[test]
fn request_validation_enforces_the_documented_ranges() {
    let good = CreateChatBody { name: Some(String::from("general")), capacity: Some(10) };
    assert!(good.validate());
    let long = CreateChatBody {
        name: Some("x".repeat(51)),
        capacity: Some(5),
    };
    assert!(!long.validate());
    let over = CreateChatBody { name: Some(String::from("general")), capacity: Some(11) };
    assert!(!over.validate());
    let missing = CreateChatBody { name: None, capacity: Some(5) };
    assert!(!missing.validate());

    assert!(SendMessageBody { message: Some("x".repeat(1000)) }.validate());
    assert!(!SendMessageBody { message: Some("x".repeat(1001)) }.validate());
    assert!(!SendMessageBody { message: Some(String::new()) }.validate());
    assert!(!SendMessageBody { message: None }.validate());

    assert!(CreateUserRequest {
        username: Some(String::from("ada")),
        email: Some(String::from("a@b.c")),
    }
    .validate());
    assert!(!CreateUserRequest {
        username: Some(String::from("ab")),
        email: Some(String::from("a@b.c")),
    }
    .validate());

    assert!(BanUserParams { user_id: 1 }.validate());
    assert!(!BanUserParams { user_id: 0 }.validate());
}
