use vstd::prelude::*;

use crate::handlers::{ErrorView, HandlerError};
use crate::server::number::{decimal_value, parse_i32, parse_i32_spec, parse_i64, parse_i64_spec};
use crate::server::query::{
    form_urlencoded_pairs, get_param, get_query_map, pairs_to_map, QueryMap,
};

verus! {

/// The HTTP methods that the server tells apart.
#[derive(Clone, Copy, Debug, PartialEq, Eq, Structural)]
pub enum Method {
    Get,
    Post,
    Delete,
    Other,
}

/// The endpoints of the booking server.
#[derive(Clone, Copy, Debug, PartialEq, Eq, Structural)]
pub enum Route {
    ListTables,
    ListBookings,
    CreateBooking,
    DeleteBooking,
    JoinBooking,
    DeclineBooking,
    BookingItem,
    NotFound,
}

/// Which endpoint a request with this method and path reaches.
pub open spec fn route_of(method: Method, path: Seq<char>) -> Route {
    if method == Method::Get && path == "/tables/list"@ {
        Route::ListTables
    } else if method == Method::Get && path == "/booking/list"@ {
        Route::ListBookings
    } else if method == Method::Post && path == "/booking/create"@ {
        Route::CreateBooking
    } else if method == Method::Delete && path == "/booking"@ {
        Route::DeleteBooking
    } else if method == Method::Post && path == "/booking/join"@ {
        Route::JoinBooking
    } else if method == Method::Post && path == "/booking/decline"@ {
        Route::DeclineBooking
    } else if method == Method::Post && path == "/booking/item"@ {
        Route::BookingItem
    } else {
        Route::NotFound
    }
}

fn same_text(a: &str, b: &str) -> (res: bool)
    ensures
        res == (a@ == b@),
{
    a.to_owned() == b.to_owned()
}

/// The endpoint that a request with this method and path reaches.
pub fn route(method: Method, path: &str) -> (res: Route)
    ensures
        res == route_of(method, path@),
{
    if method == Method::Get && same_text(path, "/tables/list") {
        Route::ListTables
    } else if method == Method::Get && same_text(path, "/booking/list") {
        Route::ListBookings
    } else if method == Method::Post && same_text(path, "/booking/create") {
        Route::CreateBooking
    } else if method == Method::Delete && same_text(path, "/booking") {
        Route::DeleteBooking
    } else if method == Method::Post && same_text(path, "/booking/join") {
        Route::JoinBooking
    } else if method == Method::Post && same_text(path, "/booking/decline") {
        Route::DeclineBooking
    } else if method == Method::Post && same_text(path, "/booking/item") {
        Route::BookingItem
    } else {
        Route::NotFound
    }
}

/// What the server does for a request, with the parameters read from its
/// query. The routes that take a JSON body leave reading it to the caller.
#[derive(Clone, Debug, PartialEq, Eq)]
pub enum Action {
    ListTables,
    ListBookings { table: String, from: i64, to: i64 },
    CreateBooking,
    DeleteBooking { id: i32 },
    JoinBooking,
    DeclineBooking,
    BookingItem { id: i32 },
    NotFound,
}

/// An `Action` with its texts as character sequences.
pub enum ActionView {
    ListTables,
    ListBookings { table: Seq<char>, from: i64, to: i64 },
    CreateBooking,
    DeleteBooking { id: i32 },
    JoinBooking,
    DeclineBooking,
    BookingItem { id: i32 },
    NotFound,
}

impl View for Action {
    type V = ActionView;

    open spec fn view(&self) -> ActionView {
        match self {
            Action::ListTables => ActionView::ListTables,
            Action::ListBookings { table, from, to } => ActionView::ListBookings {
                table: table@,
                from: *from,
                to: *to,
            },
            Action::CreateBooking => ActionView::CreateBooking,
            Action::DeleteBooking { id } => ActionView::DeleteBooking { id: *id },
            Action::JoinBooking => ActionView::JoinBooking,
            Action::DeclineBooking => ActionView::DeclineBooking,
            Action::BookingItem { id } => ActionView::BookingItem { id: *id },
            Action::NotFound => ActionView::NotFound,
        }
    }
}

pub open spec fn result_view(r: Result<Action, HandlerError>) -> Result<ActionView, ErrorView> {
    match r {
        Ok(a) => Ok(a@),
        Err(e) => Err(e@),
    }
}

/// The value of the query parameter `name`.
pub open spec fn param_spec(query: Map<Seq<char>, Seq<char>>, name: Seq<char>) -> Result<
    Seq<char>,
    ErrorView,
> {
    if query.dom().contains(name) {
        Ok(query[name])
    } else {
        Err(ErrorView::MissingParam(name))
    }
}

/// The query parameter `name` read as an `i64`.
pub open spec fn i64_param_spec(query: Map<Seq<char>, Seq<char>>, name: Seq<char>) -> Result<
    i64,
    ErrorView,
> {
    match param_spec(query, name) {
        Err(e) => Err(e),
        Ok(text) => match parse_i64_spec(text) {
            Ok(v) => Ok(v),
            Err(kind) => Err(ErrorView::InvalidInteger(kind)),
        },
    }
}

/// The query parameter `name` read as an `i32`.
pub open spec fn i32_param_spec(query: Map<Seq<char>, Seq<char>>, name: Seq<char>) -> Result<
    i32,
    ErrorView,
> {
    match param_spec(query, name) {
        Err(e) => Err(e),
        Ok(text) => match parse_i32_spec(text) {
            Ok(v) => Ok(v),
            Err(kind) => Err(ErrorView::InvalidInteger(kind)),
        },
    }
}

/// What a request to `route` amounts to, given its query parameters (`None`
/// when it has no query string). The parameters are read in order, and the
/// first that is missing or malformed decides the error.
pub open spec fn resolve_spec(route: Route, query: Option<Map<Seq<char>, Seq<char>>>) -> Result<
    ActionView,
    ErrorView,
> {
    match route {
        Route::ListTables => Ok(ActionView::ListTables),
        Route::ListBookings => match query {
            None => Err(ErrorView::NoQuery),
            Some(q) => match param_spec(q, "table"@) {
                Err(e) => Err(e),
                Ok(table) => match i64_param_spec(q, "from"@) {
                    Err(e) => Err(e),
                    Ok(from) => match i64_param_spec(q, "to"@) {
                        Err(e) => Err(e),
                        Ok(to) => Ok(ActionView::ListBookings { table, from, to }),
                    },
                },
            },
        },
        Route::CreateBooking => Ok(ActionView::CreateBooking),
        Route::DeleteBooking => match query {
            None => Err(ErrorView::NoQuery),
            Some(q) => match i32_param_spec(q, "id"@) {
                Err(e) => Err(e),
                Ok(id) => Ok(ActionView::DeleteBooking { id }),
            },
        },
        Route::JoinBooking => Ok(ActionView::JoinBooking),
        Route::DeclineBooking => Ok(ActionView::DeclineBooking),
        Route::BookingItem => match query {
            None => Err(ErrorView::NoQuery),
            Some(q) => match i32_param_spec(q, "id"@) {
                Err(e) => Err(e),
                Ok(id) => Ok(ActionView::BookingItem { id }),
            },
        },
        Route::NotFound => Ok(ActionView::NotFound),
    }
}

fn i64_param(query: &QueryMap, name: &str) -> (res: Result<i64, HandlerError>)
    ensures
        match (res, i64_param_spec(query@, name@)) {
            (Ok(v), Ok(w)) => v == w,
            (Err(e), Err(f)) => e@ == f,
            _ => false,
        },
{
    let text = get_param(query, name)?;
    match parse_i64(text.as_str()) {
        Ok(v) => Ok(v),
        Err(kind) => Err(HandlerError::InvalidInteger(kind)),
    }
}

fn i32_param(query: &QueryMap, name: &str) -> (res: Result<i32, HandlerError>)
    ensures
        match (res, i32_param_spec(query@, name@)) {
            (Ok(v), Ok(w)) => v == w,
            (Err(e), Err(f)) => e@ == f,
            _ => false,
        },
{
    let text = get_param(query, name)?;
    match parse_i32(text.as_str()) {
        Ok(v) => Ok(v),
        Err(kind) => Err(HandlerError::InvalidInteger(kind)),
    }
}

/// What a request to `route` amounts to, given its query parameters.
pub fn resolve(route: Route, query: Option<&QueryMap>) -> (res: Result<Action, HandlerError>)
    ensures
        result_view(res) == resolve_spec(
            route,
            match query {
                Some(q) => Some(q@),
                None => None,
            },
        ),
{
    match route {
        Route::ListTables => Ok(Action::ListTables),
        Route::ListBookings => match query {
            None => Err(HandlerError::NoQuery),
            Some(q) => {
                let table = get_param(q, "table")?;
                let from = i64_param(q, "from")?;
                let to = i64_param(q, "to")?;
                Ok(Action::ListBookings { table, from, to })
            },
        },
        Route::CreateBooking => Ok(Action::CreateBooking),
        Route::DeleteBooking => match query {
            None => Err(HandlerError::NoQuery),
            Some(q) => {
                let id = i32_param(q, "id")?;
                Ok(Action::DeleteBooking { id })
            },
        },
        Route::JoinBooking => Ok(Action::JoinBooking),
        Route::DeclineBooking => Ok(Action::DeclineBooking),
        Route::BookingItem => match query {
            None => Err(HandlerError::NoQuery),
            Some(q) => {
                let id = i32_param(q, "id")?;
                Ok(Action::BookingItem { id })
            },
        },
        Route::NotFound => Ok(Action::NotFound),
    }
}

/// Decides what a request with this method, path and query string asks
/// for; the query string is decoded only for the routes that read it.
pub fn dispatch(method: Method, path: &str, query: Option<&str>) -> (res: Result<Action, HandlerError>)
    ensures
        result_view(res) == resolve_spec(
            route_of(method, path@),
            match query {
                Some(q) => Some(pairs_to_map(form_urlencoded_pairs(q@))),
                None => None,
            },
        ),
{
    let route = route(method, path);
    if route == Route::ListBookings || route == Route::DeleteBooking || route == Route::BookingItem {
        let map = get_query_map(query);
        match map {
            Some(m) => resolve(route, Some(&m)),
            None => resolve(route, None),
        }
    } else {
        resolve(route, None)
    }
}

} // verus!

verus! {

/// A request that matches no endpoint is answered "not found", whatever its
/// query string holds.
pub proof fn law_unknown_route_not_found(
    method: Method,
    path: Seq<char>,
    query: Option<Map<Seq<char>, Seq<char>>>,
)
    requires
        route_of(method, path) == Route::NotFound,
    ensures
        resolve_spec(route_of(method, path), query) == Ok::<ActionView, ErrorView>(ActionView::NotFound),
{
}

/// The endpoints that read query parameters refuse a request without a
/// query string; the others never need one.
pub proof fn law_query_routes_need_query(route: Route)
    ensures
        (route == Route::ListBookings || route == Route::DeleteBooking || route == Route::BookingItem)
            ==> resolve_spec(route, None) == Err::<ActionView, ErrorView>(ErrorView::NoQuery),
        !(route == Route::ListBookings || route == Route::DeleteBooking || route == Route::BookingItem)
            ==> resolve_spec(route, None) is Ok,
{
}

/// Each endpoint is reached by exactly one method and path.
pub proof fn law_routes_are_distinct(method: Method, path: Seq<char>)
    ensures
        route_of(method, path) == Route::ListTables <==> (method == Method::Get && path
            == "/tables/list"@),
        route_of(method, path) == Route::ListBookings <==> (method == Method::Get && path
            == "/booking/list"@),
        route_of(method, path) == Route::CreateBooking <==> (method == Method::Post && path
            == "/booking/create"@),
        route_of(method, path) == Route::DeleteBooking <==> (method == Method::Delete && path
            == "/booking"@),
        route_of(method, path) == Route::JoinBooking <==> (method == Method::Post && path
            == "/booking/join"@),
        route_of(method, path) == Route::DeclineBooking <==> (method == Method::Post && path
            == "/booking/decline"@),
        route_of(method, path) == Route::BookingItem <==> (method == Method::Post && path
            == "/booking/item"@),
{
    reveal_strlit("/tables/list");
    reveal_strlit("/booking/list");
    reveal_strlit("/booking/create");
    reveal_strlit("/booking");
    reveal_strlit("/booking/join");
    reveal_strlit("/booking/decline");
    reveal_strlit("/booking/item");
    assert("/tables/list"@[1] != "/booking/list"@[1]);
    assert("/booking/join"@[9] != "/booking/item"@[9]);
    assert("/booking/create"@.len() != "/booking/join"@.len());
    assert("/booking/create"@.len() != "/booking/decline"@.len());
    assert("/booking/create"@.len() != "/booking/item"@.len());
    assert("/booking/join"@.len() != "/booking/decline"@.len());
    assert("/booking/decline"@.len() != "/booking/item"@.len());
}

} // verus!

verus! {

/// A booking listing whose query holds `table`, and `from` and `to` written
/// as decimal integers within the range of `i64`, lists the bookings of that
/// table over exactly those two integers.
pub proof fn law_booking_list_reads_i64_range(q: Map<Seq<char>, Seq<char>>, from: int, to: int)
    requires
        q.dom().contains("table"@),
        q.dom().contains("from"@),
        q.dom().contains("to"@),
        decimal_value(q["from"@]) == Some(from),
        decimal_value(q["to"@]) == Some(to),
        i64::MIN <= from <= i64::MAX,
        i64::MIN <= to <= i64::MAX,
    ensures
        resolve_spec(Route::ListBookings, Some(q)) == Ok::<ActionView, ErrorView>(
            (ActionView::ListBookings { table: q["table"@], from: from as i64, to: to as i64 }),
        ),
{
}

/// A removal or a lookup of a booking whose query holds `id` written as a
/// decimal integer within the range of `i32` acts on exactly that booking.
pub proof fn law_booking_id_reads_i32_range(q: Map<Seq<char>, Seq<char>>, id: int)
    requires
        q.dom().contains("id"@),
        decimal_value(q["id"@]) == Some(id),
        i32::MIN <= id <= i32::MAX,
    ensures
        resolve_spec(Route::DeleteBooking, Some(q)) == Ok::<ActionView, ErrorView>(
            (ActionView::DeleteBooking { id: id as i32 }),
        ),
        resolve_spec(Route::BookingItem, Some(q)) == Ok::<ActionView, ErrorView>(
            (ActionView::BookingItem { id: id as i32 }),
        ),
{
}

/// The endpoints that read no parameters answer the same whatever query
/// string a request carries, or none; the table listing is always served.
pub proof fn law_query_ignored_where_unread(route: Route, q: Map<Seq<char>, Seq<char>>)
    requires
        route != Route::ListBookings,
        route != Route::DeleteBooking,
        route != Route::BookingItem,
    ensures
        resolve_spec(route, Some(q)) == resolve_spec(route, None),
        resolve_spec(Route::ListTables, Some(q)) == Ok::<ActionView, ErrorView>(ActionView::ListTables),
        resolve_spec(Route::ListTables, None) == Ok::<ActionView, ErrorView>(ActionView::ListTables),
{
}

} // verus!
