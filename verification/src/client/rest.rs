use crate::presentation::rest::object::{
    CreateTodoPayload, DeleteTodoPayload, UpdateTodoPayload,
};
use vstd::prelude::*;
use vstd::string::StringExecFns;

verus! {

/// Where the REST interface keeps its todos.
pub const ENDPOINT: &'static str = "http://localhost:8080/todos";

/// The verb of a request.
#[derive(Debug, Clone, Copy, PartialEq, Eq, Structural)]
pub enum Method {
    Get,
    Post,
    Put,
    Delete,
}

/// The JSON body of a request.
#[derive(Debug, PartialEq, Eq)]
pub enum Payload {
    /// `{"title": ..}`
    Create(CreateTodoPayload),
    /// `{"id": .., "title": ..}`
    Update(UpdateTodoPayload),
    /// `{"id": ..}`
    Delete(DeleteTodoPayload),
}

/// A request to the REST interface: what a client sends.
#[derive(Debug, PartialEq, Eq)]
pub struct Request {
    pub method: Method,
    pub url: String,
    pub payload: Option<Payload>,
}

/// The text of one decimal digit.
pub open spec fn digit(d: nat) -> Seq<char> {
    if d == 0 {
        "0"@
    } else if d == 1 {
        "1"@
    } else if d == 2 {
        "2"@
    } else if d == 3 {
        "3"@
    } else if d == 4 {
        "4"@
    } else if d == 5 {
        "5"@
    } else if d == 6 {
        "6"@
    } else if d == 7 {
        "7"@
    } else if d == 8 {
        "8"@
    } else {
        "9"@
    }
}

/// A natural number in decimal digits, without leading zeros.
pub open spec fn digits(n: nat) -> Seq<char>
    decreases n,
{
    if n < 10 {
        digit(n)
    } else {
        digits(n / 10) + digit(n % 10)
    }
}

/// An integer in decimal digits, with `-` before a negative one.
pub open spec fn decimal(n: int) -> Seq<char> {
    if n < 0 {
        "-"@ + digits((-n) as nat)
    } else {
        digits(n as nat)
    }
}

/// The address of the todo with this id: the address of the todos, `/` and
/// the id in decimal digits.
pub open spec fn todo_url(id: i64) -> Seq<char> {
    ENDPOINT@ + "/"@ + decimal(id as int)
}

fn digit_text(d: u64) -> (text: &'static str)
    requires
        d < 10,
    ensures
        text@ == digit(d as nat),
{
    if d == 0 {
        "0"
    } else if d == 1 {
        "1"
    } else if d == 2 {
        "2"
    } else if d == 3 {
        "3"
    } else if d == 4 {
        "4"
    } else if d == 5 {
        "5"
    } else if d == 6 {
        "6"
    } else if d == 7 {
        "7"
    } else if d == 8 {
        "8"
    } else {
        "9"
    }
}

fn append_digits(text: &mut String, n: u64)
    ensures
        final(text)@ == old(text)@ + digits(n as nat),
    decreases n,
{
    if n >= 10 {
        append_digits(text, n / 10);
    }
    text.append(digit_text(n % 10));
    proof {
        if n >= 10 {
            assert(old(text)@ + digits((n / 10) as nat) + digit((n % 10) as nat) =~= old(text)@ + (
            digits((n / 10) as nat) + digit((n % 10) as nat)));
        }
    }
}

fn append_decimal(text: &mut String, n: i64)
    ensures
        final(text)@ == old(text)@ + decimal(n as int),
{
    if n < 0 {
        text.append("-");
        let magnitude: u64 = (-(n + 1)) as u64 + 1;
        append_digits(text, magnitude);
        proof {
            assert(old(text)@ + "-"@ + digits(magnitude as nat) =~= old(text)@ + ("-"@ + digits(
                magnitude as nat,
            )));
        }
    } else {
        append_digits(text, n as u64);
    }
}

/// `GET /todos`.
pub fn get_todos() -> (request: Request)
    ensures
        request.method == Method::Get,
        request.url@ == ENDPOINT@,
        request.payload is None,
{
    Request { method: Method::Get, url: String::from_str(ENDPOINT), payload: None }
}

/// `GET /todos/:id`.
pub fn find_todo(id: i64) -> (request: Request)
    ensures
        request.method == Method::Get,
        request.url@ == todo_url(id),
        request.payload is None,
{
    let mut url = String::from_str(ENDPOINT);
    url.append("/");
    append_decimal(&mut url, id);
    Request { method: Method::Get, url, payload: None }
}

/// `POST /todos` with the title.
pub fn create_todo(title: String) -> (request: Request)
    ensures
        request.method == Method::Post,
        request.url@ == ENDPOINT@,
        request.payload == Some(Payload::Create(CreateTodoPayload { title })),
{
    Request {
        method: Method::Post,
        url: String::from_str(ENDPOINT),
        payload: Some(Payload::Create(CreateTodoPayload { title })),
    }
}

/// `PUT /todos` with the id and the title.
pub fn update_todo(id: i64, title: String) -> (request: Request)
    ensures
        request.method == Method::Put,
        request.url@ == ENDPOINT@,
        request.payload == Some(Payload::Update(UpdateTodoPayload { id, title })),
{
    Request {
        method: Method::Put,
        url: String::from_str(ENDPOINT),
        payload: Some(Payload::Update(UpdateTodoPayload { id, title })),
    }
}

/// `DELETE /todos` with the id.
pub fn delete_todo(id: i64) -> (request: Request)
    ensures
        request.method == Method::Delete,
        request.url@ == ENDPOINT@,
        request.payload == Some(Payload::Delete(DeleteTodoPayload { id })),
{
    Request {
        method: Method::Delete,
        url: String::from_str(ENDPOINT),
        payload: Some(Payload::Delete(DeleteTodoPayload { id })),
    }
}

} // verus!
