//! Client-side engine for multi-factor sign-in against an OAuth2 token
//! endpoint: password, one-time passcode and out-of-band push, with a
//! provider-driven step-up from the password to a second factor.
//!
//! The engine performs no input or output. An [`attempt::Attempt`] is a state
//! machine: it names the next thing the host has to do (ask the user, send a
//! request, wait) and is fed what came of it, until it names the outcome.
//! Every transition is stated as a function on the mathematical views of the
//! data involved, and the code is proved to compute that function.

pub mod text;
pub mod outcome;
pub mod settings;
pub mod body;
pub mod transport;
pub mod password;
pub mod otp;
pub mod bypass;
pub mod push;
pub mod poller;
pub mod exchange;
pub mod attempt;
pub mod laws;

