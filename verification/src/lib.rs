//! Verified core of the Koharu scene, OCR-evidence and HTTP-gateway logic.

pub mod bytes;
pub mod chart_agent;
pub mod digest;
pub mod error;
pub mod evidence;
pub mod headers;
pub mod history;
pub mod idempotency;
pub mod routes;
pub mod scene;
pub mod seqs;
pub mod spotting;
pub mod text;
