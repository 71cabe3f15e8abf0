//! The operations that bear an access token, as values: what is to be asked
//! of the platform, apart from the token with which it is asked. One such
//! value yields the request for any token, so a request can be built a
//! second time once the token has been replaced.

use crate::api::{
    cancel_prediction_request, create_prediction_request, end_prediction_request,
    prediction_cancellation, prediction_creation, prediction_resolution, predictions_lookup,
    recent_predictions_request, user_lookup, user_request, bearer_headers,
};
use crate::error::{ApiError, ErrorView};
use crate::model::{PredictionView, TwitchPrediction};
use crate::outcome::{
    body_or_failure, body_outcome, get_last_predictions_outcome, recent_predictions_outcome,
    text_reply_view,
};
use crate::wire::{HttpRequest, HttpResponse, RequestView, ResponseView};
use vstd::prelude::*;

verus! {

/// An operation that bears an access token, without the token.
#[derive(Clone, Debug, PartialEq, Eq)]
pub enum ApiCall {
    /// Create a prediction.
    CreatePrediction { client_id: String, prediction: TwitchPrediction },
    /// Fetch the data of the user with a login name.
    FetchUser { client_id: String, username: String },
    /// Fetch the first `amount` of a broadcaster's predictions. Interpreted
    /// by itself, a response with status 401 is handed on as a success;
    /// behind a [`crate::gate::Gate`] the same response is answered with a
    /// refresh first, as for every other operation.
    RecentPredictions { amount: u32, client_id: String, broadcaster_id: String },
    /// Cancel a prediction.
    CancelPrediction { client_id: String, broadcaster_id: String, id: String },
    /// Resolve a prediction with a winning outcome.
    EndPrediction {
        client_id: String,
        broadcaster_id: String,
        id: String,
        winning_outcome_id: String,
    },
}

/// The mathematical content of an [`ApiCall`].
pub enum CallView {
    CreatePrediction { client_id: Seq<char>, prediction: PredictionView },
    FetchUser { client_id: Seq<char>, username: Seq<char> },
    RecentPredictions { amount: u32, client_id: Seq<char>, broadcaster_id: Seq<char> },
    CancelPrediction { client_id: Seq<char>, broadcaster_id: Seq<char>, id: Seq<char> },
    EndPrediction {
        client_id: Seq<char>,
        broadcaster_id: Seq<char>,
        id: Seq<char>,
        winning_outcome_id: Seq<char>,
    },
}

impl View for ApiCall {
    type V = CallView;

    open spec fn view(&self) -> CallView {
        match self {
            ApiCall::CreatePrediction { client_id, prediction } => CallView::CreatePrediction {
                client_id: client_id@,
                prediction: prediction@,
            },
            ApiCall::FetchUser { client_id, username } => CallView::FetchUser {
                client_id: client_id@,
                username: username@,
            },
            ApiCall::RecentPredictions {
                amount,
                client_id,
                broadcaster_id,
            } => CallView::RecentPredictions {
                amount: *amount,
                client_id: client_id@,
                broadcaster_id: broadcaster_id@,
            },
            ApiCall::CancelPrediction {
                client_id,
                broadcaster_id,
                id,
            } => CallView::CancelPrediction {
                client_id: client_id@,
                broadcaster_id: broadcaster_id@,
                id: id@,
            },
            ApiCall::EndPrediction {
                client_id,
                broadcaster_id,
                id,
                winning_outcome_id,
            } => CallView::EndPrediction {
                client_id: client_id@,
                broadcaster_id: broadcaster_id@,
                id: id@,
                winning_outcome_id: winning_outcome_id@,
            },
        }
    }
}

impl CallView {
    /// The client in whose name the operation is asked for.
    pub open spec fn client_id(self) -> Seq<char> {
        match self {
            CallView::CreatePrediction { client_id, .. } => client_id,
            CallView::FetchUser { client_id, .. } => client_id,
            CallView::RecentPredictions { client_id, .. } => client_id,
            CallView::CancelPrediction { client_id, .. } => client_id,
            CallView::EndPrediction { client_id, .. } => client_id,
        }
    }

    /// The request that asks for the operation with an access token.
    pub open spec fn request(self, access_token: Seq<char>) -> RequestView {
        match self {
            CallView::CreatePrediction { client_id, prediction } => create_prediction_request(
                client_id,
                access_token,
                prediction,
            ),
            CallView::FetchUser { client_id, username } => user_request(
                client_id,
                access_token,
                username,
            ),
            CallView::RecentPredictions {
                client_id,
                broadcaster_id,
                ..
            } => recent_predictions_request(client_id, access_token, broadcaster_id),
            CallView::CancelPrediction {
                client_id,
                broadcaster_id,
                id,
            } => cancel_prediction_request(client_id, access_token, broadcaster_id, id),
            CallView::EndPrediction {
                client_id,
                broadcaster_id,
                id,
                winning_outcome_id,
            } => end_prediction_request(
                client_id,
                access_token,
                broadcaster_id,
                id,
                winning_outcome_id,
            ),
        }
    }

    /// What the operation returns for a response.
    pub open spec fn outcome(self, response: ResponseView) -> Result<Seq<char>, ErrorView> {
        match self {
            CallView::CreatePrediction { .. } => body_outcome(Ok(response)),
            CallView::FetchUser { .. } => body_outcome(Ok(response)),
            CallView::RecentPredictions { amount, .. } => recent_predictions_outcome(
                amount,
                Ok(response),
            ),
            CallView::CancelPrediction { .. } => body_outcome(Ok(response)),
            CallView::EndPrediction { .. } => body_outcome(Ok(response)),
        }
    }
}

impl ApiCall {
    /// Builds the request that asks for this operation with `access_token`.
    pub fn request(&self, access_token: &str) -> (r: HttpRequest)
        ensures
            r@ == self@.request(access_token@),
    {
        match self {
            ApiCall::CreatePrediction { client_id, prediction } => prediction_creation(
                client_id.as_str(),
                access_token,
                prediction,
            ),
            ApiCall::FetchUser { client_id, username } => user_lookup(
                client_id.as_str(),
                access_token,
                username.as_str(),
            ),
            ApiCall::RecentPredictions { client_id, broadcaster_id, .. } => predictions_lookup(
                client_id.as_str(),
                access_token,
                broadcaster_id.as_str(),
            ),
            ApiCall::CancelPrediction { client_id, broadcaster_id, id } => prediction_cancellation(
                client_id.as_str(),
                access_token,
                broadcaster_id.as_str(),
                id.as_str(),
            ),
            ApiCall::EndPrediction {
                client_id,
                broadcaster_id,
                id,
                winning_outcome_id,
            } => prediction_resolution(
                client_id.as_str(),
                access_token,
                broadcaster_id.as_str(),
                id.as_str(),
                winning_outcome_id.as_str(),
            ),
        }
    }

    /// Interprets a response to this operation's request.
    pub fn interpret(&self, response: HttpResponse) -> (r: Result<String, ApiError>)
        ensures
            text_reply_view(r) == self@.outcome(response@),
    {
        match self {
            ApiCall::CreatePrediction { .. } => body_or_failure(Ok(response)),
            ApiCall::FetchUser { .. } => body_or_failure(Ok(response)),
            ApiCall::RecentPredictions { amount, .. } => get_last_predictions_outcome(
                *amount,
                Ok(response),
            ),
            ApiCall::CancelPrediction { .. } => body_or_failure(Ok(response)),
            ApiCall::EndPrediction { .. } => body_or_failure(Ok(response)),
        }
    }
}

/// Every request of an operation names the operation's client and bears the
/// access token that it was built with, and nothing of a request but its
/// headers depends on the token.
pub proof fn law_request_bears_its_token(call: CallView, token: Seq<char>, other: Seq<char>)
    ensures
        call.request(token).headers == bearer_headers(call.client_id(), token),
        call.request(token).method == call.request(other).method,
        call.request(token).url == call.request(other).url,
        call.request(token).query == call.request(other).query,
        call.request(token).body == call.request(other).body,
{
}

} // verus!
