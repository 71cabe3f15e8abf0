//! The values that the platform's prediction and token endpoints exchange.

use vstd::prelude::*;

verus! {

/// One outcome that viewers can bet on.
#[derive(Clone, Debug, PartialEq, Eq)]
pub struct Outcome {
    pub title: String,
}

impl View for Outcome {
    type V = Seq<char>;

    /// An outcome is its title.
    open spec fn view(&self) -> Seq<char> {
        self.title@
    }
}

/// A prediction as the platform's "create prediction" call takes it.
#[derive(Clone, Debug, PartialEq, Eq)]
pub struct TwitchPrediction {
    pub title: String,
    pub outcomes: Vec<Outcome>,
    pub prediction_window: u32,
    pub broadcaster_id: String,
}

/// The mathematical content of a [`TwitchPrediction`].
pub struct PredictionView {
    pub title: Seq<char>,
    pub outcomes: Seq<Seq<char>>,
    pub prediction_window: u32,
    pub broadcaster_id: Seq<char>,
}

/// The titles of a sequence of outcomes, in order.
pub open spec fn outcome_titles(outcomes: Seq<Outcome>) -> Seq<Seq<char>> {
    outcomes.map_values(|o: Outcome| o@)
}

impl View for TwitchPrediction {
    type V = PredictionView;

    open spec fn view(&self) -> PredictionView {
        PredictionView {
            title: self.title@,
            outcomes: outcome_titles(self.outcomes@),
            prediction_window: self.prediction_window,
            broadcaster_id: self.broadcaster_id@,
        }
    }
}

/// The window, in seconds, of a prediction for which none was given.
pub const DEFAULT_PREDICTION_WINDOW: u32 = 90;

/// The platform takes no fewer outcomes than this.
pub const MIN_OUTCOMES: usize = 2;

/// The platform takes no more outcomes than this.
pub const MAX_OUTCOMES: usize = 10;

/// The platform takes no shorter window than this, in seconds.
pub const MIN_PREDICTION_WINDOW: u32 = 1;

/// The platform takes no longer window than this, in seconds.
pub const MAX_PREDICTION_WINDOW: u32 = 1800;

/// Whether a prediction lies within the bounds that the platform documents:
/// two to ten outcomes and a window of 1 to 1800 seconds.
pub open spec fn within_platform_bounds(p: PredictionView) -> bool {
    &&& MIN_OUTCOMES <= p.outcomes.len() <= MAX_OUTCOMES
    &&& MIN_PREDICTION_WINDOW <= p.prediction_window <= MAX_PREDICTION_WINDOW
}

impl TwitchPrediction {
    /// Tells whether the platform's documented bounds admit this prediction.
    /// Nothing in this library refuses a prediction outside them: the
    /// platform does, with an error status.
    pub fn is_within_platform_bounds(&self) -> (r: bool)
        ensures
            r == within_platform_bounds(self@),
    {
        let n = self.outcomes.len();
        MIN_OUTCOMES <= n && n <= MAX_OUTCOMES && MIN_PREDICTION_WINDOW <= self.prediction_window
            && self.prediction_window <= MAX_PREDICTION_WINDOW
    }
}

/// The pair of tokens that a code exchange or a refresh exchange yields.
#[derive(Clone, Debug, PartialEq, Eq)]
pub struct TokenResponse {
    pub access_token: String,
    pub refresh_token: String,
}

/// The mathematical content of a [`TokenResponse`].
pub struct TokenView {
    pub access_token: Seq<char>,
    pub refresh_token: Seq<char>,
}

impl View for TokenResponse {
    type V = TokenView;

    open spec fn view(&self) -> TokenView {
        TokenView { access_token: self.access_token@, refresh_token: self.refresh_token@ }
    }
}

} // verus!
