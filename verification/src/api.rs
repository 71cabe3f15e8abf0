//! The requests behind the platform's operations: for each operation the one
//! request that it sends, as a function of its inputs.

use crate::model::{outcome_titles, Outcome, PredictionView, TwitchPrediction};
use crate::percent::{percent_encode, percent_encoded};
use crate::wire::{
    members_view, pairs_view, records_member, records_view, text_member, number_member, Body,
    BodyView, HttpRequest, JsonValue, Member, Method, Pair, RequestView,
};
use vstd::prelude::*;

verus! {

/// The address of the platform's token endpoint.
pub const TOKEN_URL: &'static str = "https://id.twitch.tv/oauth2/token";

/// The address of the platform's predictions endpoint.
pub const PREDICTIONS_URL: &'static str = "https://api.twitch.tv/helix/predictions";

/// The address of the platform's users endpoint.
pub const USERS_URL: &'static str = "https://api.twitch.tv/helix/users";

/// The headers of a request that names the client and bears an access token.
pub open spec fn bearer_headers(client_id: Seq<char>, access_token: Seq<char>) -> Seq<
    (Seq<char>, Seq<char>),
> {
    seq![("Client-Id"@, client_id), ("Authorization"@, "Bearer "@ + access_token)]
}

/// A form-encoded POST to the token endpoint with these fields.
pub open spec fn token_request(fields: Seq<(Seq<char>, Seq<char>)>) -> RequestView {
    RequestView {
        method: Method::Post,
        url: TOKEN_URL@,
        headers: Seq::empty(),
        query: Seq::empty(),
        body: BodyView::Form(fields),
    }
}

/// The request that exchanges an authorization code for tokens.
pub open spec fn exchange_code_request(
    code: Seq<char>,
    client_id: Seq<char>,
    client_secret: Seq<char>,
    redirect_uri: Seq<char>,
) -> RequestView {
    token_request(
        seq![
            ("client_id"@, client_id),
            ("client_secret"@, client_secret),
            ("code"@, code),
            ("grant_type"@, "authorization_code"@),
            ("redirect_uri"@, redirect_uri),
        ],
    )
}

/// The request that fetches a token for the client itself.
pub open spec fn client_credentials_request(
    client_id: Seq<char>,
    client_secret: Seq<char>,
) -> RequestView {
    token_request(
        seq![
            ("client_id"@, client_id),
            ("client_secret"@, client_secret),
            ("grant_type"@, "client_credentials"@),
        ],
    )
}

/// The request that exchanges a refresh token for new tokens. The refresh
/// token stands in its field percent-encoded.
pub open spec fn refresh_request(
    client_id: Seq<char>,
    client_secret: Seq<char>,
    refresh_token: Seq<char>,
) -> RequestView {
    token_request(
        seq![
            ("client_id"@, client_id),
            ("client_secret"@, client_secret),
            ("grant_type"@, "refresh_token"@),
            ("refresh_token"@, percent_encoded(refresh_token)),
        ],
    )
}

/// The request that fetches the data of the user with a login name.
pub open spec fn user_request(
    client_id: Seq<char>,
    access_token: Seq<char>,
    username: Seq<char>,
) -> RequestView {
    RequestView {
        method: Method::Get,
        url: USERS_URL@,
        headers: bearer_headers(client_id, access_token),
        query: seq![("login"@, username)],
        body: BodyView::Empty,
    }
}

/// The request that fetches a broadcaster's predictions.
pub open spec fn recent_predictions_request(
    client_id: Seq<char>,
    access_token: Seq<char>,
    broadcaster_id: Seq<char>,
) -> RequestView {
    RequestView {
        method: Method::Get,
        url: PREDICTIONS_URL@,
        headers: bearer_headers(client_id, access_token),
        query: seq![("broadcaster_id"@, broadcaster_id)],
        body: BodyView::Empty,
    }
}

/// The outcomes of a prediction as they stand in a request body: one object
/// for each, with the title as its one member.
pub open spec fn outcome_records(titles: Seq<Seq<char>>) -> Seq<Seq<(Seq<char>, Seq<char>)>> {
    titles.map_values(|title: Seq<char>| seq![("title"@, title)])
}

/// The members of the body that creates a prediction.
pub open spec fn prediction_members(prediction: PredictionView) -> Seq<crate::wire::MemberView> {
    seq![
        text_member("title"@, prediction.title),
        records_member("outcomes"@, outcome_records(prediction.outcomes)),
        number_member("prediction_window"@, prediction.prediction_window),
        text_member("broadcaster_id"@, prediction.broadcaster_id),
    ]
}

/// A request to the predictions endpoint with a JSON body.
pub open spec fn predictions_write(
    method: Method,
    client_id: Seq<char>,
    access_token: Seq<char>,
    members: Seq<crate::wire::MemberView>,
) -> RequestView {
    RequestView {
        method,
        url: PREDICTIONS_URL@,
        headers: bearer_headers(client_id, access_token),
        query: Seq::empty(),
        body: BodyView::Json(members),
    }
}

/// The request that creates a prediction.
pub open spec fn create_prediction_request(
    client_id: Seq<char>,
    access_token: Seq<char>,
    prediction: PredictionView,
) -> RequestView {
    predictions_write(Method::Post, client_id, access_token, prediction_members(prediction))
}

/// The request that cancels a prediction.
pub open spec fn cancel_prediction_request(
    client_id: Seq<char>,
    access_token: Seq<char>,
    broadcaster_id: Seq<char>,
    id: Seq<char>,
) -> RequestView {
    predictions_write(
        Method::Patch,
        client_id,
        access_token,
        seq![
            text_member("broadcaster_id"@, broadcaster_id),
            text_member("id"@, id),
            text_member("status"@, "CANCELED"@),
        ],
    )
}

/// The request that resolves a prediction with a winning outcome.
pub open spec fn end_prediction_request(
    client_id: Seq<char>,
    access_token: Seq<char>,
    broadcaster_id: Seq<char>,
    id: Seq<char>,
    winning_outcome_id: Seq<char>,
) -> RequestView {
    predictions_write(
        Method::Patch,
        client_id,
        access_token,
        seq![
            text_member("broadcaster_id"@, broadcaster_id),
            text_member("id"@, id),
            text_member("status"@, "RESOLVED"@),
            text_member("winning_outcome_id"@, winning_outcome_id),
        ],
    )
}

fn bearer_header_list(client_id: &str, access_token: &str) -> (r: Vec<Pair>)
    ensures
        pairs_view(r@) == bearer_headers(client_id@, access_token@),
{
    let mut headers: Vec<Pair> = Vec::new();
    headers.push(Pair::new("Client-Id", client_id));
    let bearer = String::from_str("Bearer ").concat(access_token);
    headers.push(Pair::new("Authorization", bearer.as_str()));
    assert(pairs_view(headers@) =~= bearer_headers(client_id@, access_token@));
    headers
}

fn token_post(fields: Vec<Pair>) -> (r: HttpRequest)
    ensures
        r@ == token_request(pairs_view(fields@)),
{
    let r = HttpRequest {
        method: Method::Post,
        url: String::from_str(TOKEN_URL),
        headers: Vec::new(),
        query: Vec::new(),
        body: Body::Form(fields),
    };
    assert(pairs_view(r.headers@) =~= Seq::empty());
    assert(pairs_view(r.query@) =~= Seq::empty());
    r
}

fn predictions_json(
    method: Method,
    client_id: &str,
    access_token: &str,
    members: Vec<Member>,
) -> (r: HttpRequest)
    ensures
        r@ == predictions_write(method, client_id@, access_token@, members_view(members@)),
{
    let r = HttpRequest {
        method,
        url: String::from_str(PREDICTIONS_URL),
        headers: bearer_header_list(client_id, access_token),
        query: Vec::new(),
        body: Body::Json(members),
    };
    assert(pairs_view(r.query@) =~= Seq::empty());
    r
}

/// Builds the request that exchanges an authorization code for tokens: a
/// form-encoded POST to the token endpoint with the grant type
/// `authorization_code`. It bears no access token.
pub fn exchange_code_for_tokens(
    code: String,
    client_id: String,
    client_secret: String,
    redirect_uri: String,
) -> (r: HttpRequest)
    ensures
        r@ == exchange_code_request(code@, client_id@, client_secret@, redirect_uri@),
{
    let mut fields: Vec<Pair> = Vec::new();
    fields.push(Pair::new("client_id", client_id.as_str()));
    fields.push(Pair::new("client_secret", client_secret.as_str()));
    fields.push(Pair::new("code", code.as_str()));
    fields.push(Pair::new("grant_type", "authorization_code"));
    fields.push(Pair::new("redirect_uri", redirect_uri.as_str()));
    assert(pairs_view(fields@) =~= seq![
        ("client_id"@, client_id@),
        ("client_secret"@, client_secret@),
        ("code"@, code@),
        ("grant_type"@, "authorization_code"@),
        ("redirect_uri"@, redirect_uri@),
    ]);
    token_post(fields)
}

/// Builds the request that fetches a token for the client itself: a
/// form-encoded POST to the token endpoint with the grant type
/// `client_credentials`.
pub fn fetch_client_credentials_token(client_id: String, client_secret: String) -> (r: HttpRequest)
    ensures
        r@ == client_credentials_request(client_id@, client_secret@),
{
    let mut fields: Vec<Pair> = Vec::new();
    fields.push(Pair::new("client_id", client_id.as_str()));
    fields.push(Pair::new("client_secret", client_secret.as_str()));
    fields.push(Pair::new("grant_type", "client_credentials"));
    assert(pairs_view(fields@) =~= seq![
        ("client_id"@, client_id@),
        ("client_secret"@, client_secret@),
        ("grant_type"@, "client_credentials"@),
    ]);
    token_post(fields)
}

/// Builds the request that exchanges a refresh token for new tokens: a
/// form-encoded POST to the token endpoint with the grant type
/// `refresh_token` and the refresh token percent-encoded.
pub fn refresh_tokens(client_id: String, client_secret: String, refresh_token: String) -> (r:
    HttpRequest)
    ensures
        r@ == refresh_request(client_id@, client_secret@, refresh_token@),
{
    let encoded = percent_encode(refresh_token.as_str());
    let mut fields: Vec<Pair> = Vec::new();
    fields.push(Pair::new("client_id", client_id.as_str()));
    fields.push(Pair::new("client_secret", client_secret.as_str()));
    fields.push(Pair::new("grant_type", "refresh_token"));
    fields.push(Pair::new("refresh_token", encoded.as_str()));
    assert(pairs_view(fields@) =~= seq![
        ("client_id"@, client_id@),
        ("client_secret"@, client_secret@),
        ("grant_type"@, "refresh_token"@),
        ("refresh_token"@, percent_encoded(refresh_token@)),
    ]);
    token_post(fields)
}

pub(crate) fn user_lookup(client_id: &str, access_token: &str, username: &str) -> (r: HttpRequest)
    ensures
        r@ == user_request(client_id@, access_token@, username@),
{
    let mut query: Vec<Pair> = Vec::new();
    query.push(Pair::new("login", username));
    assert(pairs_view(query@) =~= seq![("login"@, username@)]);
    HttpRequest {
        method: Method::Get,
        url: String::from_str(USERS_URL),
        headers: bearer_header_list(client_id, access_token),
        query,
        body: Body::Empty,
    }
}

pub(crate) fn predictions_lookup(
    client_id: &str,
    access_token: &str,
    broadcaster_id: &str,
) -> (r: HttpRequest)
    ensures
        r@ == recent_predictions_request(client_id@, access_token@, broadcaster_id@),
{
    let mut query: Vec<Pair> = Vec::new();
    query.push(Pair::new("broadcaster_id", broadcaster_id));
    assert(pairs_view(query@) =~= seq![("broadcaster_id"@, broadcaster_id@)]);
    HttpRequest {
        method: Method::Get,
        url: String::from_str(PREDICTIONS_URL),
        headers: bearer_header_list(client_id, access_token),
        query,
        body: Body::Empty,
    }
}

fn outcome_record_list(outcomes: &Vec<Outcome>) -> (r: Vec<Vec<Pair>>)
    ensures
        records_view(r@) == outcome_records(outcome_titles(outcomes@)),
{
    let mut records: Vec<Vec<Pair>> = Vec::new();
    let mut i: usize = 0;
    while i < outcomes.len()
        invariant
            i <= outcomes.len(),
            records.len() == i,
            forall|k: int|
                0 <= k < i ==> pairs_view(#[trigger] records[k]@) == seq![
                    ("title"@, outcomes[k].title@),
                ],
        decreases outcomes.len() - i,
    {
        let mut record: Vec<Pair> = Vec::new();
        record.push(Pair::new("title", outcomes[i].title.as_str()));
        assert(pairs_view(record@) =~= seq![("title"@, outcomes[i as int].title@)]);
        records.push(record);
        i += 1;
    }
    assert(records_view(records@) =~= outcome_records(outcome_titles(outcomes@)));
    records
}

pub(crate) fn prediction_creation(
    client_id: &str,
    access_token: &str,
    prediction: &TwitchPrediction,
) -> (r: HttpRequest)
    ensures
        r@ == create_prediction_request(client_id@, access_token@, prediction@),
{
    let mut members: Vec<Member> = Vec::new();
    members.push(Member::text("title", prediction.title.as_str()));
    members.push(
        Member {
            name: String::from_str("outcomes"),
            value: JsonValue::Records(outcome_record_list(&prediction.outcomes)),
        },
    );
    members.push(Member::number("prediction_window", prediction.prediction_window));
    members.push(Member::text("broadcaster_id", prediction.broadcaster_id.as_str()));
    assert(members_view(members@) =~= prediction_members(prediction@));
    predictions_json(Method::Post, client_id, access_token, members)
}

pub(crate) fn prediction_cancellation(
    client_id: &str,
    access_token: &str,
    broadcaster_id: &str,
    id: &str,
) -> (r: HttpRequest)
    ensures
        r@ == cancel_prediction_request(client_id@, access_token@, broadcaster_id@, id@),
{
    let mut members: Vec<Member> = Vec::new();
    members.push(Member::text("broadcaster_id", broadcaster_id));
    members.push(Member::text("id", id));
    members.push(Member::text("status", "CANCELED"));
    assert(members_view(members@) =~= seq![
        text_member("broadcaster_id"@, broadcaster_id@),
        text_member("id"@, id@),
        text_member("status"@, "CANCELED"@),
    ]);
    predictions_json(Method::Patch, client_id, access_token, members)
}

pub(crate) fn prediction_resolution(
    client_id: &str,
    access_token: &str,
    broadcaster_id: &str,
    id: &str,
    winning_outcome_id: &str,
) -> (r: HttpRequest)
    ensures
        r@ == end_prediction_request(
            client_id@,
            access_token@,
            broadcaster_id@,
            id@,
            winning_outcome_id@,
        ),
{
    let mut members: Vec<Member> = Vec::new();
    members.push(Member::text("broadcaster_id", broadcaster_id));
    members.push(Member::text("id", id));
    members.push(Member::text("status", "RESOLVED"));
    members.push(Member::text("winning_outcome_id", winning_outcome_id));
    assert(members_view(members@) =~= seq![
        text_member("broadcaster_id"@, broadcaster_id@),
        text_member("id"@, id@),
        text_member("status"@, "RESOLVED"@),
        text_member("winning_outcome_id"@, winning_outcome_id@),
    ]);
    predictions_json(Method::Patch, client_id, access_token, members)
}

/// Builds the request that creates a prediction: a POST to the predictions
/// endpoint whose JSON body holds the title, the outcomes, the window and
/// the broadcaster.
pub fn create_twitch_prediction(
    client_id: String,
    access_token: String,
    prediction: TwitchPrediction,
) -> (r: HttpRequest)
    ensures
        r@ == create_prediction_request(client_id@, access_token@, prediction@),
{
    prediction_creation(client_id.as_str(), access_token.as_str(), &prediction)
}

/// Builds the request that fetches the data of the user with a login name:
/// a GET to the users endpoint with the name as the query parameter `login`.
pub fn get_user_data(client_id: String, access_token: String, username: String) -> (r: HttpRequest)
    ensures
        r@ == user_request(client_id@, access_token@, username@),
{
    user_lookup(client_id.as_str(), access_token.as_str(), username.as_str())
}

/// Builds the request that fetches a broadcaster's predictions: a GET to the
/// predictions endpoint with the broadcaster as a query parameter. How many
/// of them are wanted is no part of the request: the reply is cut to
/// `amount` when it is interpreted.
#[allow(unused_variables)]
pub fn get_last_predictions(
    amount: u32,
    client_id: String,
    token: String,
    broadcaster_id: String,
) -> (r: HttpRequest)
    ensures
        r@ == recent_predictions_request(client_id@, token@, broadcaster_id@),
{
    predictions_lookup(client_id.as_str(), token.as_str(), broadcaster_id.as_str())
}

/// Builds the request that cancels a prediction: a PATCH to the predictions
/// endpoint whose JSON body sets the status `CANCELED`.
pub fn cancel_prediction(
    client_id: String,
    access_token: String,
    broadcaster_id: String,
    id: String,
) -> (r: HttpRequest)
    ensures
        r@ == cancel_prediction_request(client_id@, access_token@, broadcaster_id@, id@),
{
    prediction_cancellation(
        client_id.as_str(),
        access_token.as_str(),
        broadcaster_id.as_str(),
        id.as_str(),
    )
}

/// Builds the request that resolves a prediction: a PATCH to the predictions
/// endpoint whose JSON body sets the status `RESOLVED` and names the winning
/// outcome.
pub fn end_prediction(
    client_id: String,
    access_token: String,
    broadcaster_id: String,
    id: String,
    winning_outcome_id: String,
) -> (r: HttpRequest)
    ensures
        r@ == end_prediction_request(
            client_id@,
            access_token@,
            broadcaster_id@,
            id@,
            winning_outcome_id@,
        ),
{
    prediction_resolution(
        client_id.as_str(),
        access_token.as_str(),
        broadcaster_id.as_str(),
        id.as_str(),
        winning_outcome_id.as_str(),
    )
}

/// Cancelling and resolving are PATCH requests whose bodies set the status
/// `CANCELED` and `RESOLVED`; the body that resolves names the winning
/// outcome as well.
pub proof fn law_status_changes_name_their_status(
    client_id: Seq<char>,
    access_token: Seq<char>,
    broadcaster_id: Seq<char>,
    id: Seq<char>,
    winning_outcome_id: Seq<char>,
)
    ensures
        cancel_prediction_request(client_id, access_token, broadcaster_id, id).method
            == Method::Patch,
        cancel_prediction_request(client_id, access_token, broadcaster_id, id).body
            matches BodyView::Json(members) && members.len() == 3 && members[2] == text_member(
            "status"@,
            "CANCELED"@,
        ),
        end_prediction_request(
            client_id,
            access_token,
            broadcaster_id,
            id,
            winning_outcome_id,
        ).method == Method::Patch,
        end_prediction_request(client_id, access_token, broadcaster_id, id, winning_outcome_id).body
            matches BodyView::Json(members) && members.len() == 4 && members[2] == text_member(
            "status"@,
            "RESOLVED"@,
        ) && members[3] == text_member("winning_outcome_id"@, winning_outcome_id),
{
}

/// Every request to the token endpoint bears no access token, and every
/// other request names the client and bears the access token.
pub proof fn law_requests_carry_their_credentials(
    client_id: Seq<char>,
    access_token: Seq<char>,
    text: Seq<char>,
    prediction: PredictionView,
)
    ensures
        exchange_code_request(text, client_id, text, text).headers.len() == 0,
        client_credentials_request(client_id, text).headers.len() == 0,
        refresh_request(client_id, text, text).headers.len() == 0,
        user_request(client_id, access_token, text).headers == bearer_headers(
            client_id,
            access_token,
        ),
        recent_predictions_request(client_id, access_token, text).headers == bearer_headers(
            client_id,
            access_token,
        ),
        create_prediction_request(client_id, access_token, prediction).headers == bearer_headers(
            client_id,
            access_token,
        ),
        cancel_prediction_request(client_id, access_token, text, text).headers == bearer_headers(
            client_id,
            access_token,
        ),
        end_prediction_request(client_id, access_token, text, text, text).headers
            == bearer_headers(client_id, access_token),
{
}

} // verus!
