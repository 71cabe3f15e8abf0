//! The credentials that a caller holds across calls: who the client is, the
//! access token, and what is needed to exchange it for a new one.

use crate::api::{bearer_headers, refresh_request, refresh_tokens};
use crate::call::CallView;
use crate::error::{refresh_error, ApiError, ErrorKind, ErrorView};
use crate::gate::{gate_started, gate_step, ActionView, EventView, GateEvent};
use crate::model::{TokenResponse, TokenView};
use crate::outcome::{delivery_view, refresh_outcome, refresh_tokens_outcome};
use crate::wire::{
    status_is_unauthorized, HttpRequest, HttpResponse, RequestView, ResponseView,
};
use vstd::prelude::*;

verus! {

/// The failure message of a refresh for which the secret or the refresh
/// token is not held.
pub const CANNOT_REFRESH: &'static str = "no client secret or no refresh token is held";

/// A client's credentials. Only the two tokens ever change, and only by
/// [`Credentials::replace_tokens`] and [`Credentials::settle_refresh`].
#[derive(Clone, Debug, PartialEq, Eq)]
pub struct Credentials {
    client_id: String,
    client_secret: Option<String>,
    access_token: String,
    refresh_token: Option<String>,
}

/// The mathematical content of [`Credentials`].
pub struct CredentialsView {
    pub client_id: Seq<char>,
    pub client_secret: Option<Seq<char>>,
    pub access_token: Seq<char>,
    pub refresh_token: Option<Seq<char>>,
}

/// An optional text, by its mathematical content.
pub open spec fn optional_view(text: Option<String>) -> Option<Seq<char>> {
    match text {
        Some(t) => Some(t@),
        None => None,
    }
}

impl View for Credentials {
    type V = CredentialsView;

    closed spec fn view(&self) -> CredentialsView {
        CredentialsView {
            client_id: self.client_id@,
            client_secret: optional_view(self.client_secret),
            access_token: self.access_token@,
            refresh_token: optional_view(self.refresh_token),
        }
    }
}

impl CredentialsView {
    /// These credentials after an exchange has brought `tokens`: both tokens
    /// are replaced, the client and its secret stay.
    pub open spec fn with_tokens(self, tokens: TokenView) -> CredentialsView {
        CredentialsView {
            access_token: tokens.access_token,
            refresh_token: Some(tokens.refresh_token),
            ..self
        }
    }

    /// The request that exchanges the refresh token for new tokens, where
    /// the secret and the refresh token are held.
    pub open spec fn refresh_request(self) -> Option<RequestView> {
        match (self.client_secret, self.refresh_token) {
            (Some(secret), Some(token)) => Some(refresh_request(self.client_id, secret, token)),
            _ => None,
        }
    }

    /// The credentials after a refresh exchange, and the event that tells of
    /// it. New tokens are held before the call that waits for them learns of
    /// them; a failed exchange leaves the credentials as they were.
    pub open spec fn settle_refresh(self, delivery: Result<ResponseView, Seq<char>>) -> (
        CredentialsView,
        EventView,
    ) {
        match refresh_outcome(delivery) {
            Ok(tokens) => (self.with_tokens(tokens), EventView::Refreshed(tokens.access_token)),
            Err(cause) => (self, EventView::RefreshFailed(cause)),
        }
    }
}

/// The failure of a refresh that could not be asked for.
pub open spec fn cannot_refresh_error() -> ErrorView {
    ErrorView {
        kind: ErrorKind::RefreshFailed,
        status: None,
        body: Seq::empty(),
        message: CANNOT_REFRESH@,
    }
}

impl Credentials {
    /// The credentials of a client.
    pub fn new(
        client_id: String,
        client_secret: Option<String>,
        access_token: String,
        refresh_token: Option<String>,
    ) -> (r: Credentials)
        ensures
            r@ == (CredentialsView {
                client_id: client_id@,
                client_secret: optional_view(client_secret),
                access_token: access_token@,
                refresh_token: optional_view(refresh_token),
            }),
    {
        Credentials { client_id, client_secret, access_token, refresh_token }
    }

    /// The client's identifier.
    pub fn client_id(&self) -> (r: &str)
        ensures
            r@ == self@.client_id,
    {
        self.client_id.as_str()
    }

    /// The access token that is held.
    pub fn access_token(&self) -> (r: &str)
        ensures
            r@ == self@.access_token,
    {
        self.access_token.as_str()
    }

    /// The refresh token that is held, if one is.
    pub fn refresh_token(&self) -> (r: Option<&str>)
        ensures
            r is Some <==> self@.refresh_token is Some,
            r is Some ==> r.unwrap()@ == self@.refresh_token.unwrap(),
    {
        match &self.refresh_token {
            Some(token) => Some(token.as_str()),
            None => None,
        }
    }

    /// Replaces both tokens by those that an exchange has brought.
    pub fn replace_tokens(&mut self, tokens: TokenResponse)
        ensures
            final(self)@ == old(self)@.with_tokens(tokens@),
    {
        self.access_token = tokens.access_token;
        self.refresh_token = Some(tokens.refresh_token);
    }

    /// Builds the request that exchanges the refresh token for new tokens.
    /// There is none where the secret or the refresh token is not held.
    pub fn refresh_request(&self) -> (r: Option<HttpRequest>)
        ensures
            match r {
                Some(request) => self@.refresh_request() == Some(request@),
                None => self@.refresh_request() is None,
            },
    {
        match (&self.client_secret, &self.refresh_token) {
            (Some(secret), Some(token)) => Some(
                refresh_tokens(self.client_id.clone(), secret.clone(), token.clone()),
            ),
            _ => None,
        }
    }

    /// Takes what came back for the refresh request, holds the new tokens
    /// where it brought any, and gives the event that tells of it.
    pub fn settle_refresh(&mut self, delivery: Result<HttpResponse, String>) -> (event: GateEvent)
        ensures
            (final(self)@, event@) == old(self)@.settle_refresh(delivery_view(delivery)),
    {
        match refresh_tokens_outcome(delivery) {
            Ok(tokens) => {
                let access = tokens.access_token.clone();
                self.replace_tokens(tokens);
                GateEvent::Refreshed(access)
            },
            Err(cause) => GateEvent::RefreshFailed(cause),
        }
    }

    /// The event that tells that no refresh can be asked for.
    pub fn cannot_refresh() -> (event: GateEvent)
        ensures
            event@ == EventView::RefreshFailed(cannot_refresh_error()),
    {
        GateEvent::RefreshFailed(
            ApiError {
                kind: ErrorKind::RefreshFailed,
                status: None,
                body: String::new(),
                message: String::from_str(CANNOT_REFRESH),
            },
        )
    }
}

/// A refresh changes nothing of the credentials but the two tokens, and the
/// access token that the event names is the one that is then held.
pub proof fn law_refresh_keeps_the_client(
    credentials: CredentialsView,
    delivery: Result<ResponseView, Seq<char>>,
)
    ensures
        credentials.settle_refresh(delivery).0.client_id == credentials.client_id,
        credentials.settle_refresh(delivery).0.client_secret == credentials.client_secret,
        credentials.settle_refresh(delivery).1 matches EventView::Refreshed(token)
            ==> credentials.settle_refresh(delivery).0.access_token == token,
        credentials.settle_refresh(delivery).1 matches EventView::RefreshFailed(_)
            ==> credentials.settle_refresh(delivery).0 == credentials,
        refresh_error(cannot_refresh_error()) == cannot_refresh_error(),
{
}

/// Once a refresh exchange has brought tokens, the credentials hold the new
/// access token, and the request that is sent again bears that token and no
/// other.
pub proof fn law_new_token_is_held_before_the_retry(
    call: CallView,
    token: Seq<char>,
    credentials: CredentialsView,
    refused: ResponseView,
    delivery: Result<ResponseView, Seq<char>>,
    tokens: TokenView,
)
    requires
        status_is_unauthorized(refused.status),
        refresh_outcome(delivery) == Ok::<TokenView, ErrorView>(tokens),
    ensures
        ({
            let refreshing = gate_step(gate_started(call, token), EventView::Response(refused)).0;
            let settled = credentials.settle_refresh(delivery);
            let retried = gate_step(refreshing, settled.1);
            &&& settled.0.access_token == tokens.access_token
            &&& retried.0.token == tokens.access_token
            &&& retried.1 == ActionView::Send(call.request(tokens.access_token))
            &&& call.request(tokens.access_token).headers == bearer_headers(
                call.client_id(),
                tokens.access_token,
            )
        }),
{
}

} // verus!
