//! Session engine of an interactive terminal chat client: key classification,
//! the focus/overlay state machine, the conversation context model, the relay
//! of streamed model output, and the framing of requests to the backend.
pub mod cli;
pub mod configuration;
pub mod input;
pub mod provider;
pub mod session;
pub mod stream;
pub mod text;
pub mod tools;
pub mod transcript;
pub mod wire;
pub mod wrap;
