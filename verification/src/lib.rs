//! Client logic for OpenAI's Responses API and Chat Completions API.
//!
//! This crate decides and computes: which API a model wants, what the body of a
//! request holds, what a reply means, and how the bytes of a streamed answer
//! become chunks. Sending and receiving, and the JSON form of the bodies, are
//! left to the program around it.
//!
//! - [`openai`]: the client, its settings, and the choice of the API;
//! - [`builder`]: builders for clients;
//! - [`chat`], [`error`], [`request`], [`response`]: the data that is exchanged;
//! - [`input`], [`tools`], [`compose`]: from a conversation to a request;
//! - [`exchange`]: where requests go and what replies lead to;
//! - [`sse`], [`stream_parser`], [`stream_session`]: from the bytes of a stream to
//!   chunks;
//! - [`client_laws`], [`sse_laws`], [`stream_laws`]: what holds of all of these
//!   together;
//! - [`settings_laws`], [`request_laws`], [`exchange_laws`], [`answer_laws`],
//!   [`framing_laws`]: what each operation promises, over what it is given and what
//!   it returns;
//! - [`text`], [`json`], [`base64_text`], [`address`]: text, JSON values, Base64 and
//!   addresses.
pub mod address;
pub mod answer_laws;
pub mod base64_text;
pub mod builder;
pub mod chat;
pub mod client_laws;
pub mod compose;
pub mod error;
pub mod exchange;
pub mod exchange_laws;
pub mod framing_laws;
pub mod input;
pub mod json;
pub mod openai;
pub mod request;
pub mod request_laws;
pub mod response;
pub mod settings_laws;
pub mod sse;
pub mod sse_laws;
pub mod stream_laws;
pub mod stream_parser;
pub mod stream_session;
pub mod text;
pub mod tools;
