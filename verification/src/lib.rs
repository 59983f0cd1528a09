//! A download orchestration engine for a subscription audio-streaming
//! service.
//!
//! The engine owns every decision in the retrieval pipeline: sorting an
//! authentication reply into the error taxonomy, negotiating an audio
//! quality tier per track with downward fallback, turning one track's
//! transfer outcome into a result or a tagged error, and folding a whole
//! album or playlist into one aggregate that tolerates per-item failure.
//!
//! The collaborators that talk to the network, decode audio and touch the
//! filesystem live outside this crate. A host layer performs that outside
//! work and hands the engine plain values: an [`session::AuthReply`], a
//! resolved [`models::Track`], a [`quality::FormatAvailability`], a
//! [`download::TransferOutcome`]. Every function here is verified against
//! a full functional contract over those values.

pub mod batch;
pub mod download;
pub mod errors;
pub mod models;
pub mod quality;
pub mod service;
pub mod session;
pub mod streaming;
pub mod text;
