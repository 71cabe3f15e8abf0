//! What an operation returns, as a function of what came back for its
//! request: a response, or the transport's report that none was had.

use crate::error::{transport_error, ApiError, ErrorKind, ErrorView};
use crate::json::{
    contents, json_array, json_content, json_list_text, json_member, json_parsed, json_string,
    member_named, parse_json, referents, render_json_list, JsonView,
};
use crate::model::{TokenResponse, TokenView};
use crate::status::{
    decimal_text, law_a_status_is_named_by_its_number, status_heading, status_heading_text,
};
use crate::wire::{status_is_success, status_is_unauthorized, HttpResponse, ResponseView};
use vstd::prelude::*;

verus! {

/// The failure message of a reply that holds no prediction. It is a JSON
/// text, so that a caller who parses what it gets can parse this too.
pub const NO_PREDICTIONS: &'static str =
    "{\"error\": \"No predictions found, returned vector is empty.\"}";

/// The failure message of a token reply that names no access token.
pub const NO_ACCESS_TOKEN: &'static str = "missing field `access_token`";

/// The failure message of a token reply that names no refresh token.
pub const NO_REFRESH_TOKEN: &'static str = "missing field `refresh_token`";

/// What came back for a request, by its mathematical content.
pub open spec fn delivery_view(delivery: Result<HttpResponse, String>) -> Result<
    ResponseView,
    Seq<char>,
> {
    match delivery {
        Ok(response) => Ok(response@),
        Err(detail) => Err(detail@),
    }
}

/// What an operation that yields a text returns, by its mathematical content.
pub open spec fn text_reply_view(reply: Result<String, ApiError>) -> Result<Seq<char>, ErrorView> {
    match reply {
        Ok(text) => Ok(text@),
        Err(error) => Err(error@),
    }
}

/// What an operation that yields tokens returns, by its mathematical content.
pub open spec fn token_reply_view(reply: Result<TokenResponse, ApiError>) -> Result<
    TokenView,
    ErrorView,
> {
    match reply {
        Ok(tokens) => Ok(tokens@),
        Err(error) => Err(error@),
    }
}

/// The message of a failure by status: the status by its name, which begins
/// with its number, then a colon and a blank, then the body as it came.
pub open spec fn status_message(response: ResponseView) -> Seq<char> {
    status_heading(response.status) + ": "@ + response.body
}

/// The failure that a response outside the success class stands for:
/// `AuthExpired` for status 401, `HttpStatus` for any other.
pub open spec fn status_error(response: ResponseView) -> ErrorView {
    ErrorView {
        kind: if status_is_unauthorized(response.status) {
            ErrorKind::AuthExpired
        } else {
            ErrorKind::HttpStatus
        },
        status: Some(response.status),
        body: response.body,
        message: status_message(response),
    }
}

/// The failure that a response stands for whose body could not be read as
/// the JSON that was expected, with the reader's message.
pub open spec fn decode_error(response: ResponseView, message: Seq<char>) -> ErrorView {
    ErrorView {
        kind: ErrorKind::Decode,
        status: Some(response.status),
        body: response.body,
        message,
    }
}

/// The failure that a response stands for that holds no prediction.
pub open spec fn empty_error(response: ResponseView) -> ErrorView {
    ErrorView {
        kind: ErrorKind::EmptyResult,
        status: Some(response.status),
        body: response.body,
        message: NO_PREDICTIONS@,
    }
}

/// The rule that the operations share: no response is a transport failure,
/// a response in the success class yields its body, any other response is a
/// failure by status.
pub open spec fn body_outcome(delivery: Result<ResponseView, Seq<char>>) -> Result<
    Seq<char>,
    ErrorView,
> {
    match delivery {
        Err(detail) => Err(transport_error(detail)),
        Ok(response) => if status_is_success(response.status) {
            Ok(response.body)
        } else {
            Err(status_error(response))
        },
    }
}

/// An optional text, by its mathematical content.
pub open spec fn optional_text(text: Option<&str>) -> Option<Seq<char>> {
    match text {
        Some(t) => Some(t@),
        None => None,
    }
}

/// The tokens that two optional texts stand for: both must be there.
pub open spec fn tokens_from(access: Option<Seq<char>>, refresh: Option<Seq<char>>) -> Result<
    TokenView,
    Seq<char>,
> {
    match (access, refresh) {
        (Some(access_token), Some(refresh_token)) => Ok(TokenView { access_token, refresh_token }),
        (None, _) => Err(NO_ACCESS_TOKEN@),
        (Some(_), None) => Err(NO_REFRESH_TOKEN@),
    }
}

/// The JSON string that a document holds under a name, if it holds one.
pub open spec fn string_member(doc: JsonView, name: Seq<char>) -> Option<Seq<char>> {
    match doc.member(name) {
        Some(member) => member.text(),
        None => None,
    }
}

/// The tokens that a JSON text names: it must be a JSON object that holds a
/// string under `access_token` and a string under `refresh_token`.
pub open spec fn tokens_in(body: Seq<char>) -> Result<TokenView, Seq<char>> {
    match json_parsed(body) {
        Ok(doc) => tokens_from(
            string_member(doc, "access_token"@),
            string_member(doc, "refresh_token"@),
        ),
        Err(message) => Err(message),
    }
}

/// What a refresh exchange returns: the shared rule, and then the tokens
/// that the body names, or a decode failure.
pub open spec fn refresh_outcome(delivery: Result<ResponseView, Seq<char>>) -> Result<
    TokenView,
    ErrorView,
> {
    match delivery {
        Err(detail) => Err(transport_error(detail)),
        Ok(response) => if status_is_success(response.status) {
            match tokens_in(response.body) {
                Ok(tokens) => Ok(tokens),
                Err(message) => Err(decode_error(response, message)),
            }
        } else {
            Err(status_error(response))
        },
    }
}

/// The first `amount` items of a sequence, or all of them where there are
/// fewer, in their order.
pub open spec fn first_of<T>(items: Seq<T>, amount: u32) -> Seq<T> {
    if amount < items.len() {
        items.take(amount as int)
    } else {
        items
    }
}

/// The predictions that a reply lists: the items of the array under `data`,
/// or none where the document holds no array there.
pub open spec fn listed_predictions(doc: JsonView) -> Seq<JsonView> {
    match doc.member("data"@) {
        Some(data) => match data.items() {
            Some(items) => items,
            None => Seq::empty(),
        },
        None => Seq::empty(),
    }
}

/// What fetching the recent predictions returns.
///
/// A response with status 401 yields its body as a success, so that the
/// caller can see it and refresh the token itself; every other operation
/// reports that status as a failure. Any other response outside the success
/// class is a failure by status. A response in the success class yields
/// the first `amount` listed predictions as the text of a JSON array, in the
/// order in which the platform listed them; where that leaves none, the
/// operation fails with `EmptyResult`.
pub open spec fn recent_predictions_outcome(
    amount: u32,
    delivery: Result<ResponseView, Seq<char>>,
) -> Result<Seq<char>, ErrorView> {
    match delivery {
        Err(detail) => Err(transport_error(detail)),
        Ok(response) => if status_is_unauthorized(response.status) {
            Ok(response.body)
        } else if !status_is_success(response.status) {
            Err(status_error(response))
        } else {
            match json_parsed(response.body) {
                Err(message) => Err(decode_error(response, message)),
                Ok(doc) => {
                    let chosen = first_of(listed_predictions(doc), amount);
                    if chosen.len() == 0 {
                        Err(empty_error(response))
                    } else {
                        match json_list_text(chosen) {
                            Ok(text) => Ok(text),
                            Err(message) => Err(decode_error(response, message)),
                        }
                    }
                },
            }
        },
    }
}

fn status_failure(response: HttpResponse) -> (r: ApiError)
    ensures
        r@ == status_error(response@),
{
    let kind = if response.is_unauthorized() {
        ErrorKind::AuthExpired
    } else {
        ErrorKind::HttpStatus
    };
    let message = status_heading_text(response.status).concat(": ").concat(
        response.body.as_str(),
    );
    ApiError { kind, status: Some(response.status), body: response.body, message }
}

fn decode_failure(response: HttpResponse, message: String) -> (r: ApiError)
    ensures
        r@ == decode_error(response@, message@),
{
    ApiError {
        kind: ErrorKind::Decode,
        status: Some(response.status),
        body: response.body,
        message,
    }
}

fn empty_failure(response: HttpResponse) -> (r: ApiError)
    ensures
        r@ == empty_error(response@),
{
    ApiError {
        kind: ErrorKind::EmptyResult,
        status: Some(response.status),
        body: response.body,
        message: String::from_str(NO_PREDICTIONS),
    }
}

pub(crate) fn body_or_failure(delivery: Result<HttpResponse, String>) -> (r: Result<
    String,
    ApiError,
>)
    ensures
        text_reply_view(r) == body_outcome(delivery_view(delivery)),
{
    match delivery {
        Err(detail) => Err(ApiError::transport(detail)),
        Ok(response) => if response.is_success() {
            Ok(response.body)
        } else {
            Err(status_failure(response))
        },
    }
}

/// Interprets what came back for an exchange of an authorization code: the
/// body of a response in the success class, as it came; otherwise a failure
/// whose message names the status and ends with the body as it came.
pub fn exchange_code_for_tokens_outcome(delivery: Result<HttpResponse, String>) -> (r: Result<
    String,
    ApiError,
>)
    ensures
        text_reply_view(r) == body_outcome(delivery_view(delivery)),
{
    body_or_failure(delivery)
}

/// Interprets what came back for a fetch of a client-credentials token: the
/// body of a response in the success class, as it came; otherwise a failure
/// whose message names the status and ends with the body as it came.
pub fn fetch_client_credentials_token_outcome(delivery: Result<HttpResponse, String>) -> (r: Result<
    String,
    ApiError,
>)
    ensures
        text_reply_view(r) == body_outcome(delivery_view(delivery)),
{
    body_or_failure(delivery)
}

/// Interprets what came back for the creation of a prediction: the body of
/// a response in the success class, as it came; otherwise a failure whose
/// message names the status and ends with the body as it came.
pub fn create_twitch_prediction_outcome(delivery: Result<HttpResponse, String>) -> (r: Result<
    String,
    ApiError,
>)
    ensures
        text_reply_view(r) == body_outcome(delivery_view(delivery)),
{
    body_or_failure(delivery)
}

/// Interprets what came back for a fetch of a user's data: the body of a
/// response in the success class, as it came; otherwise a failure whose
/// message names the status and ends with the body as it came.
pub fn get_user_data_outcome(delivery: Result<HttpResponse, String>) -> (r: Result<
    String,
    ApiError,
>)
    ensures
        text_reply_view(r) == body_outcome(delivery_view(delivery)),
{
    body_or_failure(delivery)
}

/// Interprets what came back for the cancelling of a prediction: the body of
/// a response in the success class, as it came; otherwise a failure whose
/// message names the status and ends with the body as it came.
pub fn cancel_prediction_outcome(delivery: Result<HttpResponse, String>) -> (r: Result<
    String,
    ApiError,
>)
    ensures
        text_reply_view(r) == body_outcome(delivery_view(delivery)),
{
    body_or_failure(delivery)
}

/// Interprets what came back for the resolving of a prediction: the body of
/// a response in the success class, as it came; otherwise a failure whose
/// message names the status and ends with the body as it came.
pub fn end_prediction_outcome(delivery: Result<HttpResponse, String>) -> (r: Result<
    String,
    ApiError,
>)
    ensures
        text_reply_view(r) == body_outcome(delivery_view(delivery)),
{
    body_or_failure(delivery)
}

impl TokenResponse {
    /// The tokens that two optional texts stand for. Both must be there:
    /// where one is missing, the message says which.
    pub fn from_fields(access_token: Option<&str>, refresh_token: Option<&str>) -> (r: Result<
        TokenResponse,
        String,
    >)
        ensures
            match r {
                Ok(tokens) => tokens_from(
                    optional_text(access_token),
                    optional_text(refresh_token),
                ) == Ok::<TokenView, Seq<char>>(tokens@),
                Err(message) => tokens_from(
                    optional_text(access_token),
                    optional_text(refresh_token),
                ) == Err::<TokenView, Seq<char>>(message@),
            },
    {
        match access_token {
            None => Err(String::from_str(NO_ACCESS_TOKEN)),
            Some(access) => match refresh_token {
                None => Err(String::from_str(NO_REFRESH_TOKEN)),
                Some(refresh) => Ok(
                    TokenResponse {
                        access_token: String::from_str(access),
                        refresh_token: String::from_str(refresh),
                    },
                ),
            },
        }
    }

    /// Reads the tokens that a JSON text names. The text must be a JSON
    /// document that holds a string under `access_token` and a string under
    /// `refresh_token`; otherwise the message says what is wrong with it.
    pub fn decode(body: &str) -> (r: Result<TokenResponse, String>)
        ensures
            match r {
                Ok(tokens) => tokens_in(body@) == Ok::<TokenView, Seq<char>>(tokens@),
                Err(message) => tokens_in(body@) == Err::<TokenView, Seq<char>>(message@),
            },
    {
        match parse_json(body) {
            Err(message) => Err(message),
            Ok(doc) => {
                let access = match json_member(&doc, "access_token") {
                    Some(member) => json_string(member),
                    None => None,
                };
                let refresh = match json_member(&doc, "refresh_token") {
                    Some(member) => json_string(member),
                    None => None,
                };
                TokenResponse::from_fields(access, refresh)
            },
        }
    }
}

/// Interprets what came back for a refresh exchange: the tokens that the
/// body of a response in the success class names; a decode failure where it
/// names none; otherwise a failure whose message names the status and ends
/// with the body as it came. Asked for by itself, the exchange fails under
/// the classification of what went wrong; it is behind a [`crate::gate::Gate`]
/// that a failure of it counts as a failed refresh.
pub fn refresh_tokens_outcome(delivery: Result<HttpResponse, String>) -> (r: Result<
    TokenResponse,
    ApiError,
>)
    ensures
        token_reply_view(r) == refresh_outcome(delivery_view(delivery)),
{
    match delivery {
        Err(detail) => Err(ApiError::transport(detail)),
        Ok(response) => if response.is_success() {
            match TokenResponse::decode(response.body.as_str()) {
                Ok(tokens) => Ok(tokens),
                Err(message) => Err(decode_failure(response, message)),
            }
        } else {
            Err(status_failure(response))
        },
    }
}

/// The first `amount` items of a list, or all of them where there are fewer,
/// in their order.
pub fn first_items<T>(items: &Vec<T>, amount: u32) -> (r: Vec<&T>)
    ensures
        referents(r@) == first_of(items@, amount),
{
    let wanted: usize = if (amount as usize) < items.len() {
        amount as usize
    } else {
        items.len()
    };
    let mut chosen: Vec<&T> = Vec::new();
    let mut i: usize = 0;
    while i < wanted
        invariant
            i <= wanted <= items.len(),
            chosen.len() == i,
            forall|k: int| 0 <= k < i ==> *(#[trigger] chosen[k]) == items[k],
        decreases wanted - i,
    {
        chosen.push(&items[i]);
        i += 1;
    }
    assert(referents(chosen@) =~= first_of(items@, amount));
    chosen
}

/// Interprets what came back for a fetch of the recent predictions, of which
/// the first `amount` are wanted.
///
/// A response with status 401 yields its body as a success: this operation
/// leaves it to its caller to refresh the token and to call again, where the
/// other operations report that status as a failure. Whether the two should
/// differ is an open question; a caller who wants the refresh done for it
/// runs the operation as an [`crate::call::ApiCall`]. Any other response
/// outside the success class is a failure whose message names the status
/// and ends with the body as it came. A response in the success class
/// yields the first `amount` predictions of the array under `data`, in the
/// platform's order, as the text of a JSON array; where that leaves none,
/// the operation fails with `EmptyResult` and a message that is itself a
/// JSON text.
pub fn get_last_predictions_outcome(amount: u32, delivery: Result<HttpResponse, String>) -> (r:
    Result<String, ApiError>)
    ensures
        text_reply_view(r) == recent_predictions_outcome(amount, delivery_view(delivery)),
{
    match delivery {
        Err(detail) => Err(ApiError::transport(detail)),
        Ok(response) => if response.is_unauthorized() {
            Ok(response.body)
        } else if !response.is_success() {
            Err(status_failure(response))
        } else {
            match parse_json(response.body.as_str()) {
                Err(message) => Err(decode_failure(response, message)),
                Ok(doc) => {
                    let listed = match json_member(&doc, "data") {
                        Some(data) => json_array(data),
                        None => None,
                    };
                    let chosen: Vec<&serde_json::Value> = match listed {
                        Some(items) => first_items(items, amount),
                        None => Vec::new(),
                    };
                    assert(contents(referents(chosen@)) =~= first_of(
                        listed_predictions(json_content(doc)),
                        amount,
                    ));
                    if chosen.len() == 0 {
                        Err(empty_failure(response))
                    } else {
                        match render_json_list(&chosen) {
                            Ok(text) => Ok(text),
                            Err(message) => Err(decode_failure(response, message)),
                        }
                    }
                },
            }
        },
    }
}

/// A response with status 401 is a success for the fetch of the recent
/// predictions, which hands its body on as it came, and a failure for every
/// other operation.
pub proof fn law_unauthorized_is_handed_on_by_recent_predictions_alone(amount: u32, body: Seq<char>)
    ensures
        recent_predictions_outcome(amount, Ok(ResponseView { status: 401, body })) == Ok::<
            Seq<char>,
            ErrorView,
        >(body),
        body_outcome(Ok(ResponseView { status: 401, body })) matches Err(error) && error.kind
            == ErrorKind::AuthExpired && error.status == Some(401u16) && error.body == body,
        refresh_outcome(Ok(ResponseView { status: 401, body })) matches Err(error) && error.kind
            == ErrorKind::AuthExpired,
{
}

/// Every operation yields the body of a response in the success class as it
/// came, fails by status for any other response, with the status and the
/// body of that response, and fails in transport where there is no response.
pub proof fn law_failures_are_told_apart(response: ResponseView, detail: Seq<char>)
    ensures
        status_is_success(response.status) ==> body_outcome(Ok(response)) == Ok::<
            Seq<char>,
            ErrorView,
        >(response.body),
        !status_is_success(response.status) ==> body_outcome(Ok(response)) == Err::<
            Seq<char>,
            ErrorView,
        >(status_error(response)),
        status_error(response).status == Some(response.status),
        status_error(response).body == response.body,
        status_error(response).kind != ErrorKind::Transport,
        body_outcome(Err(detail)) == Err::<Seq<char>, ErrorView>(transport_error(detail)),
        transport_error(detail).kind == ErrorKind::Transport,
        transport_error(detail).message == detail,
{
}

/// Whatever the operation, a response outside the success class is a failure
/// whose message begins with the status in decimal digits and ends with the
/// body as it came. The one response that is no failure is a 401 to the
/// fetch of the recent predictions.
pub proof fn law_a_failure_by_status_names_the_status_and_the_body(
    response: ResponseView,
    amount: u32,
)
    requires
        !status_is_success(response.status),
    ensures
        body_outcome(Ok(response)) == Err::<Seq<char>, ErrorView>(status_error(response)),
        refresh_outcome(Ok(response)) == Err::<TokenView, ErrorView>(status_error(response)),
        !status_is_unauthorized(response.status) ==> recent_predictions_outcome(
            amount,
            Ok(response),
        ) == Err::<Seq<char>, ErrorView>(status_error(response)),
        status_error(response).message == status_heading(response.status) + ": "@ + response.body,
        decimal_text(response.status as nat).is_prefix_of(status_error(response).message),
        response.body.is_suffix_of(status_error(response).message),
{
    law_a_status_is_named_by_its_number(response.status);
    let digits = decimal_text(response.status as nat);
    let heading = status_heading(response.status);
    let message = status_error(response).message;
    assert(heading.subrange(0, digits.len() as int) =~= digits);
    assert(message.subrange(0, digits.len() as int) =~= heading.subrange(0, digits.len() as int));
    assert(message.subrange(message.len() - response.body.len(), message.len() as int)
        =~= response.body);
}

/// What is chosen of a list is its beginning, in its order: as many items as
/// are asked for, or all where there are fewer.
pub proof fn law_first_of_is_the_beginning<T>(items: Seq<T>, amount: u32)
    ensures
        first_of(items, amount).len() == if amount < items.len() {
            amount as nat
        } else {
            items.len()
        },
        forall|i: int|
            0 <= i < first_of(items, amount).len() ==> first_of(items, amount)[i] == items[i],
{
}

/// Where no prediction is asked for, a response in the success class that
/// holds JSON is an empty result, whatever it lists.
pub proof fn law_an_amount_of_zero_is_an_empty_result(response: ResponseView)
    requires
        status_is_success(response.status),
        json_parsed(response.body) is Ok,
    ensures
        recent_predictions_outcome(0, Ok(response)) == Err::<Seq<char>, ErrorView>(
            empty_error(response),
        ),
{
}

/// Two texts that are there make the tokens with those texts, and a body in
/// which the tokens cannot be read makes a response in the success class a
/// decode failure.
pub proof fn law_tokens_are_decoded_or_fail_to_decode(
    access_token: Seq<char>,
    refresh_token: Seq<char>,
    response: ResponseView,
)
    requires
        status_is_success(response.status),
    ensures
        tokens_from(Some(access_token), Some(refresh_token)) == Ok::<TokenView, Seq<char>>(
            TokenView { access_token, refresh_token },
        ),
        tokens_in(response.body) matches Ok(tokens) ==> refresh_outcome(Ok(response)) == Ok::<
            TokenView,
            ErrorView,
        >(tokens),
        tokens_in(response.body) matches Err(message) ==> refresh_outcome(Ok(response)) == Err::<
            TokenView,
            ErrorView,
        >(decode_error(response, message)),
        decode_error(response, access_token).kind == ErrorKind::Decode,
        json_parsed(response.body) is Err ==> tokens_in(response.body) is Err,
{
}

/// A response in the success class whose body is a JSON object with the two
/// tokens as strings is decoded to the tokens with those texts.
pub proof fn law_a_well_formed_token_body_is_decoded(
    status: u16,
    body: Seq<char>,
    access_token: Seq<char>,
    refresh_token: Seq<char>,
)
    requires
        status_is_success(status),
        json_parsed(body) == Ok::<JsonView, Seq<char>>(
            JsonView::Object(
                seq![
                    ("access_token"@, JsonView::Text(access_token)),
                    ("refresh_token"@, JsonView::Text(refresh_token)),
                ],
            ),
        ),
    ensures
        refresh_outcome(Ok(ResponseView { status, body })) == Ok::<TokenView, ErrorView>(
            TokenView { access_token, refresh_token },
        ),
{
    reveal_strlit("access_token");
    reveal_strlit("refresh_token");
    let members = seq![
        ("access_token"@, JsonView::Text(access_token)),
        ("refresh_token"@, JsonView::Text(refresh_token)),
    ];
    assert("access_token"@.len() != "refresh_token"@.len());
    assert(members.drop_first()[0] == members[1]);
    assert(member_named(members, "access_token"@) == Some(JsonView::Text(access_token)));
    assert(member_named(members.drop_first(), "refresh_token"@) == Some(
        JsonView::Text(refresh_token),
    ));
    assert(member_named(members, "refresh_token"@) == Some(JsonView::Text(refresh_token)));
}

/// A response in the success class whose body is a JSON object with an array
/// under `data` yields the text of the first `amount` items of that array,
/// in their order, and is an empty result where that leaves none.
pub proof fn law_recent_predictions_are_the_first_listed(
    amount: u32,
    status: u16,
    body: Seq<char>,
    items: Seq<JsonView>,
)
    requires
        status_is_success(status),
        json_parsed(body) == Ok::<JsonView, Seq<char>>(
            JsonView::Object(seq![("data"@, JsonView::Array(items))]),
        ),
    ensures
        amount == 0 || items.len() == 0 ==> recent_predictions_outcome(
            amount,
            Ok(ResponseView { status, body }),
        ) == Err::<Seq<char>, ErrorView>(empty_error(ResponseView { status, body })),
        amount > 0 && items.len() > 0 ==> recent_predictions_outcome(
            amount,
            Ok(ResponseView { status, body }),
        ) == (match json_list_text(first_of(items, amount)) {
            Ok(text) => Ok::<Seq<char>, ErrorView>(text),
            Err(message) => Err(decode_error(ResponseView { status, body }, message)),
        }),
        amount == 3 && items.len() == 5 ==> first_of(items, amount) == seq![
            items[0],
            items[1],
            items[2],
        ],
{
    let members = seq![("data"@, JsonView::Array(items))];
    assert(member_named(members, "data"@) == Some(JsonView::Array(items)));
    if amount == 3 && items.len() == 5 {
        assert(first_of(items, amount) =~= seq![items[0], items[1], items[2]]);
    }
}

} // verus!
