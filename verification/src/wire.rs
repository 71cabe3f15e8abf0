//! Descriptions of HTTP requests and responses as plain values. Nothing here
//! sends or receives: a caller hands a request to a transport of its choice
//! and hands the response back.

use vstd::prelude::*;

verus! {

/// The request methods that the platform's endpoints are called with.
#[derive(Clone, Copy, Debug, PartialEq, Eq, Structural)]
pub enum Method {
    Get,
    Post,
    Patch,
}

impl Method {
    /// The method's name as it stands on the request line.
    pub open spec fn name(self) -> Seq<char> {
        match self {
            Method::Get => "GET"@,
            Method::Post => "POST"@,
            Method::Patch => "PATCH"@,
        }
    }

    /// The method's name as it stands on the request line.
    pub fn as_str(&self) -> (r: &'static str)
        ensures
            r@ == self.name(),
    {
        match self {
            Method::Get => "GET",
            Method::Post => "POST",
            Method::Patch => "PATCH",
        }
    }
}

/// A name with a value: a header, a query parameter or a form field.
#[derive(Clone, Debug, PartialEq, Eq)]
pub struct Pair {
    pub name: String,
    pub value: String,
}

impl View for Pair {
    type V = (Seq<char>, Seq<char>);

    open spec fn view(&self) -> (Seq<char>, Seq<char>) {
        (self.name@, self.value@)
    }
}

impl Pair {
    /// The pair of `name` and `value`.
    pub fn new(name: &str, value: &str) -> (r: Pair)
        ensures
            r@ == (name@, value@),
    {
        Pair { name: String::from_str(name), value: String::from_str(value) }
    }
}

/// The pairs of a sequence, each by its view, in order.
pub open spec fn pairs_view(pairs: Seq<Pair>) -> Seq<(Seq<char>, Seq<char>)> {
    pairs.map_values(|p: Pair| p@)
}

/// The objects of a sequence, each as the sequence of its members, in order.
pub open spec fn records_view(records: Seq<Vec<Pair>>) -> Seq<Seq<(Seq<char>, Seq<char>)>> {
    records.map_values(|r: Vec<Pair>| pairs_view(r@))
}

/// The value of one member of a JSON request body.
#[derive(Clone, Debug, PartialEq, Eq)]
pub enum JsonValue {
    /// A JSON string.
    Text(String),
    /// A JSON number.
    Number(u32),
    /// A JSON array of objects whose members are strings.
    Records(Vec<Vec<Pair>>),
}

/// The mathematical content of a [`JsonValue`].
pub enum JsonValueView {
    Text(Seq<char>),
    Number(u32),
    Records(Seq<Seq<(Seq<char>, Seq<char>)>>),
}

impl View for JsonValue {
    type V = JsonValueView;

    open spec fn view(&self) -> JsonValueView {
        match self {
            JsonValue::Text(t) => JsonValueView::Text(t@),
            JsonValue::Number(n) => JsonValueView::Number(*n),
            JsonValue::Records(r) => JsonValueView::Records(records_view(r@)),
        }
    }
}

/// One member of a JSON request body: its name and its value.
#[derive(Clone, Debug, PartialEq, Eq)]
pub struct Member {
    pub name: String,
    pub value: JsonValue,
}

/// The mathematical content of a [`Member`].
pub struct MemberView {
    pub name: Seq<char>,
    pub value: JsonValueView,
}

impl View for Member {
    type V = MemberView;

    open spec fn view(&self) -> MemberView {
        MemberView { name: self.name@, value: self.value@ }
    }
}

impl Member {
    /// The member `name` with the JSON string `value`.
    pub fn text(name: &str, value: &str) -> (r: Member)
        ensures
            r@ == text_member(name@, value@),
    {
        Member { name: String::from_str(name), value: JsonValue::Text(String::from_str(value)) }
    }

    /// The member `name` with the JSON number `value`.
    pub fn number(name: &str, value: u32) -> (r: Member)
        ensures
            r@ == number_member(name@, value),
    {
        Member { name: String::from_str(name), value: JsonValue::Number(value) }
    }
}

/// The member `name` with the JSON string `value`.
pub open spec fn text_member(name: Seq<char>, value: Seq<char>) -> MemberView {
    MemberView { name, value: JsonValueView::Text(value) }
}

/// The member `name` with the JSON number `value`.
pub open spec fn number_member(name: Seq<char>, value: u32) -> MemberView {
    MemberView { name, value: JsonValueView::Number(value) }
}

/// The member `name` with an array of objects as its value.
pub open spec fn records_member(
    name: Seq<char>,
    records: Seq<Seq<(Seq<char>, Seq<char>)>>,
) -> MemberView {
    MemberView { name, value: JsonValueView::Records(records) }
}

/// The members of a sequence, each by its view, in order.
pub open spec fn members_view(members: Seq<Member>) -> Seq<MemberView> {
    members.map_values(|m: Member| m@)
}

/// What a request carries besides its headers.
#[derive(Clone, Debug, PartialEq, Eq)]
pub enum Body {
    /// Nothing.
    Empty,
    /// Form fields, to be sent form-encoded.
    Form(Vec<Pair>),
    /// The members of one JSON object, in the order in which they are given.
    Json(Vec<Member>),
}

/// The mathematical content of a [`Body`].
pub enum BodyView {
    Empty,
    Form(Seq<(Seq<char>, Seq<char>)>),
    Json(Seq<MemberView>),
}

impl View for Body {
    type V = BodyView;

    open spec fn view(&self) -> BodyView {
        match self {
            Body::Empty => BodyView::Empty,
            Body::Form(fields) => BodyView::Form(pairs_view(fields@)),
            Body::Json(members) => BodyView::Json(members_view(members@)),
        }
    }
}

/// One outbound request: method, address, headers, query parameters and body.
#[derive(Clone, Debug, PartialEq, Eq)]
pub struct HttpRequest {
    pub method: Method,
    pub url: String,
    pub headers: Vec<Pair>,
    pub query: Vec<Pair>,
    pub body: Body,
}

/// The mathematical content of an [`HttpRequest`].
pub struct RequestView {
    pub method: Method,
    pub url: Seq<char>,
    pub headers: Seq<(Seq<char>, Seq<char>)>,
    pub query: Seq<(Seq<char>, Seq<char>)>,
    pub body: BodyView,
}

impl View for HttpRequest {
    type V = RequestView;

    open spec fn view(&self) -> RequestView {
        RequestView {
            method: self.method,
            url: self.url@,
            headers: pairs_view(self.headers@),
            query: pairs_view(self.query@),
            body: self.body@,
        }
    }
}

/// One inbound response: its status code and its body, read to the end.
#[derive(Clone, Debug, PartialEq, Eq)]
pub struct HttpResponse {
    pub status: u16,
    pub body: String,
}

/// The mathematical content of an [`HttpResponse`].
pub struct ResponseView {
    pub status: u16,
    pub body: Seq<char>,
}

impl View for HttpResponse {
    type V = ResponseView;

    open spec fn view(&self) -> ResponseView {
        ResponseView { status: self.status, body: self.body@ }
    }
}

/// The status with which the platform refuses an access token.
pub const UNAUTHORIZED: u16 = 401;

/// Whether a status lies in the success class, 200 to 299.
pub open spec fn status_is_success(status: u16) -> bool {
    200 <= status <= 299
}

/// Whether a status is the one with which an access token is refused.
pub open spec fn status_is_unauthorized(status: u16) -> bool {
    status == UNAUTHORIZED
}

impl HttpResponse {
    /// The response with this status and body.
    pub fn new(status: u16, body: String) -> (r: HttpResponse)
        ensures
            r@ == (ResponseView { status, body: body@ }),
    {
        HttpResponse { status, body }
    }

    /// Tells whether the status lies in the success class.
    pub fn is_success(&self) -> (r: bool)
        ensures
            r == status_is_success(self.status),
    {
        200 <= self.status && self.status <= 299
    }

    /// Tells whether the status says that the access token was refused.
    pub fn is_unauthorized(&self) -> (r: bool)
        ensures
            r == status_is_unauthorized(self.status),
    {
        self.status == UNAUTHORIZED
    }
}

} // verus!
