use yabook::db::table::{find_table, tables, Table};
use yabook::db::user::{find_user, User};
use yabook::handlers::{booking, tables as tables_handler, user as user_handler, HandlerError};
use yabook::server::number::IntegerErrorKind;
use yabook::server::query::{get_param, get_query_map, QueryMap};
use yabook::server::routes::{dispatch, resolve, route, Action, Method, Route};
use yabook::server::Status;

fn pair(a: &str, b: &str) -> (String, String) {
    (a.to_string(), b.to_string())
}

#[test]
fn status_new_keeps_text() {
    assert_eq!(Status::new("No query").status, "No query");
    assert_eq!(Status::new(String::from("boom")).status, "boom");
}

#[test]
fn table_new_keeps_fields() {
    let t = Table::new("kicker", "3rd floor");
    assert_eq!(t.name, "kicker");
    assert_eq!(t.location, "3rd floor");
    let u = yabook::db::Table::new(String::from("pool"), String::from("hall"));
    assert_eq!(u.name, "pool");
    assert_eq!(u.location, "hall");
}

#[test]
fn find_table_takes_first_row() {
    let rows = vec![pair("a", "x"), pair("b", "y")];
    assert_eq!(find_table(&rows), Some(Table::new("a", "x")));
    assert_eq!(find_table(&vec![]), None);
}

#[test]
fn tables_keeps_rows_in_order() {
    let rows = vec![pair("a", "x"), pair("b", "y"), pair("a", "z")];
    let ts = tables(&rows);
    assert_eq!(ts, vec![Table::new("a", "x"), Table::new("b", "y"), Table::new("a", "z")]);
    assert!(tables(&vec![]).is_empty());
}

#[test]
fn find_user_takes_first_name() {
    assert_eq!(find_user(&vec!["bob".to_string(), "amy".to_string()]), Some(User { name: "bob".to_string() }));
    assert_eq!(find_user(&vec![]), None);
}

#[test]
fn user_handler_found_and_missing() {
    let r = user_handler::handle_get(Some(User { name: "bob".to_string() })).unwrap();
    assert_eq!(r.name.name, "bob");
    assert_eq!(user_handler::handle_get(None), Err(HandlerError::UserNotFound));
    assert_eq!(HandlerError::UserNotFound.message(), "Not found");
    assert!(user_handler::handle_create(user_handler::CreateRequest { name: "x".to_string() }).is_ok());
}

#[test]
fn tables_handler_lists_given_tables() {
    let ts = vec![Table::new("a", "x")];
    let r = tables_handler::handle_get(ts.clone()).unwrap();
    assert_eq!(r.tables, ts);
}

#[test]
fn booking_handlers_answer_empty() {
    assert_eq!(booking::handle_get("t", 1, 2), Ok(booking::Response {}));
    let c = booking::handle_create(booking::CreateRequest {
        table: "t".to_string(),
        owner: "o".to_string(),
        invite: vec!["a".to_string()],
    })
    .unwrap();
    assert_eq!(c.id, 0);
    assert_eq!(c.status, "");
    assert_eq!(booking::handle_delete(5), Ok(booking::DeleteResponse {}));
    let j = booking::handle_join(booking::JoinRequest { booking_id: 1, login: "l".to_string() }).unwrap();
    assert_eq!(j.status, "");
    let d = booking::handle_decline(booking::DeclineRequest { booking_id: 1, login: "l".to_string() }).unwrap();
    assert_eq!(d.status, "");
    assert_eq!(booking::handle_item(3), Ok(booking::ItemResponse {}));
}

#[test]
fn query_map_decodes_and_last_value_wins() {
    let m = get_query_map(Some("a=1&b=two+words&a=3&c=%23x")).unwrap();
    assert_eq!(m.get("a"), Some("3".to_string()));
    assert_eq!(m.get("b"), Some("two words".to_string()));
    assert_eq!(m.get("c"), Some("#x".to_string()));
    assert_eq!(m.get("d"), None);
    assert!(get_query_map(None).is_none());
    assert!(get_query_map(Some("")).unwrap().pairs.is_empty());
}

#[test]
fn get_param_missing_names_the_param() {
    let m = QueryMap { pairs: vec![pair("table", "kicker")] };
    assert_eq!(get_param(&m, "table"), Ok("kicker".to_string()));
    let e = get_param(&m, "from").unwrap_err();
    assert_eq!(e, HandlerError::MissingParam("from".to_string()));
    assert_eq!(e.message(), "Need param 'from'");
}

#[test]
fn routes_by_method_and_path() {
    assert_eq!(route(Method::Get, "/tables/list"), Route::ListTables);
    assert_eq!(route(Method::Get, "/booking/list"), Route::ListBookings);
    assert_eq!(route(Method::Post, "/booking/create"), Route::CreateBooking);
    assert_eq!(route(Method::Delete, "/booking"), Route::DeleteBooking);
    assert_eq!(route(Method::Post, "/booking/join"), Route::JoinBooking);
    assert_eq!(route(Method::Post, "/booking/decline"), Route::DeclineBooking);
    assert_eq!(route(Method::Post, "/booking/item"), Route::BookingItem);
    assert_eq!(route(Method::Post, "/tables/list"), Route::NotFound);
    assert_eq!(route(Method::Other, "/booking"), Route::NotFound);
    assert_eq!(route(Method::Get, "/nowhere"), Route::NotFound);
}

#[test]
fn dispatch_reads_booking_list_params() {
    let a = dispatch(Method::Get, "/booking/list", Some("table=kicker&from=-5&to=%2B17")).unwrap();
    assert_eq!(a, Action::ListBookings { table: "kicker".to_string(), from: -5, to: 17 });
}

#[test]
fn dispatch_errors_in_order() {
    assert_eq!(dispatch(Method::Get, "/booking/list", None), Err(HandlerError::NoQuery));
    assert_eq!(
        dispatch(Method::Get, "/booking/list", Some("from=1&to=2")),
        Err(HandlerError::MissingParam("table".to_string()))
    );
    assert_eq!(
        dispatch(Method::Get, "/booking/list", Some("table=t&to=2")),
        Err(HandlerError::MissingParam("from".to_string()))
    );
    assert_eq!(
        dispatch(Method::Get, "/booking/list", Some("table=t&from=x1&to=2")),
        Err(HandlerError::InvalidInteger(IntegerErrorKind::InvalidDigit))
    );
    assert_eq!(
        dispatch(Method::Get, "/booking/list", Some("table=t&from=1")),
        Err(HandlerError::MissingParam("to".to_string()))
    );
    assert_eq!(
        dispatch(Method::Get, "/booking/list", Some("table=t&from=1&to=")),
        Err(HandlerError::InvalidInteger(IntegerErrorKind::Empty))
    );
    assert_eq!(
        dispatch(Method::Get, "/booking/list", Some("table=t&from=9223372036854775808&to=1")),
        Err(HandlerError::InvalidInteger(IntegerErrorKind::PosOverflow))
    );
}

#[test]
fn dispatch_id_routes() {
    assert_eq!(dispatch(Method::Delete, "/booking", Some("id=42")), Ok(Action::DeleteBooking { id: 42 }));
    assert_eq!(dispatch(Method::Post, "/booking/item", Some("id=-7")), Ok(Action::BookingItem { id: -7 }));
    assert_eq!(dispatch(Method::Delete, "/booking", None), Err(HandlerError::NoQuery));
    assert_eq!(dispatch(Method::Post, "/booking/item", Some("x=1")), Err(HandlerError::MissingParam("id".to_string())));
    assert_eq!(
        dispatch(Method::Delete, "/booking", Some("id=2147483648")),
        Err(HandlerError::InvalidInteger(IntegerErrorKind::PosOverflow))
    );
    assert_eq!(
        dispatch(Method::Delete, "/booking", Some("id=-2147483649")),
        Err(HandlerError::InvalidInteger(IntegerErrorKind::NegOverflow))
    );
    assert_eq!(
        dispatch(Method::Delete, "/booking", Some("id=+")),
        Err(HandlerError::InvalidInteger(IntegerErrorKind::InvalidDigit))
    );
}

#[test]
fn dispatch_routes_without_query() {
    assert_eq!(dispatch(Method::Get, "/tables/list", None), Ok(Action::ListTables));
    assert_eq!(dispatch(Method::Post, "/booking/create", None), Ok(Action::CreateBooking));
    assert_eq!(dispatch(Method::Post, "/booking/join", Some("junk")), Ok(Action::JoinBooking));
    assert_eq!(dispatch(Method::Post, "/booking/decline", None), Ok(Action::DeclineBooking));
}

#[test]
fn unknown_route_is_not_found_whatever_the_query() {
    assert_eq!(dispatch(Method::Get, "/missing", None), Ok(Action::NotFound));
    assert_eq!(dispatch(Method::Get, "/missing", Some("id=1")), Ok(Action::NotFound));
    assert_eq!(resolve(Route::NotFound, Some(&QueryMap { pairs: vec![pair("id", "x")] })), Ok(Action::NotFound));
}

#[test]
fn no_query_message_is_status_document() {
    let inner = serde_json::to_string("No query").unwrap();
    assert_eq!(HandlerError::NoQuery.message(), format!("{{\"status\":{}}}", inner));
}

#[test]
fn integer_messages_match_std() {
    let cases = ["", "x", "+", "99999999999999999999", "-99999999999999999999"];
    for text in cases {
        let std_err = text.parse::<i64>().unwrap_err().to_string();
        let ours = match dispatch(Method::Get, "/booking/list", Some(&format!("table=t&from={}&to=1", text))) {
            Err(e) => e.message(),
            Ok(_) => panic!("parsed"),
        };
        assert_eq!(ours, std_err);
    }
}

#[test]
fn plus_in_query_decodes_to_space() {
    assert_eq!(
        dispatch(Method::Get, "/booking/list", Some("table=a+b&from=1&to=+2")),
        Err(HandlerError::InvalidInteger(IntegerErrorKind::InvalidDigit))
    );
    let m = get_query_map(Some("table=a+b")).unwrap();
    assert_eq!(get_param(&m, "table"), Ok("a b".to_string()));
}

#[test]
fn empty_query_gives_empty_map() {
    let m = get_query_map(Some("")).unwrap();
    assert!(m.pairs.is_empty());
    assert_eq!(get_param(&m, "id"), Err(HandlerError::MissingParam("id".to_string())));
}

#[test]
fn short_malformed_integer_is_invalid_digit() {
    assert_eq!(
        dispatch(Method::Delete, "/booking", Some("id=abc")),
        Err(HandlerError::InvalidInteger(IntegerErrorKind::InvalidDigit))
    );
    assert_eq!(
        HandlerError::InvalidInteger(IntegerErrorKind::InvalidDigit).message(),
        "abc".parse::<i64>().unwrap_err().to_string()
    );
}
