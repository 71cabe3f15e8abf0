//! A client for a streaming platform's prediction and token endpoints that
//! performs no input or output of its own: it builds request descriptions,
//! interprets response descriptions, and decides when credentials are
//! refreshed and a request is sent again.

pub mod api;
pub mod call;
pub mod callback;
pub mod command;
pub mod credentials;
pub mod error;
pub mod gate;
pub mod json;
pub mod model;
pub mod outcome;
pub mod percent;
pub mod status;
pub mod wire;

pub use model::{Outcome, TokenResponse, TwitchPrediction};
