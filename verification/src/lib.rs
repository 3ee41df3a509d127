//! A single shared drawing canvas: the document store, the encoder that turns
//! its elements into SVG markup, a JSON snapshot or a data URL, and the
//! decisions of each operation that a control plane offers on it.
//!
//! - [`json`]: the structured values that the document is made of.
//! - [`store`]: the document and its mutations, as pure state.
//! - [`elements`]: removal and replacement of elements by their `id`.
//! - [`svg`], [`encoding`], [`export`]: the encoder and the export formats.
//! - [`handlers`]: each operation as a decision: what becomes of the
//!   document, what the user interface is told, and what is answered.
//! - [`history`]: what holds of the document over any sequence of mutations.
//! - [`query`], [`response`], [`text`]: request parameters, answers, and text.
//!
//! The library does no input or output and holds no lock: its caller owns the
//! listener, the guard around the one document, and the channel to the user
//! interface.

mod clock;
pub mod elements;
pub mod encoding;
pub mod export;
pub mod handlers;
pub mod history;
pub mod json;
pub mod query;
pub mod response;
pub mod store;
pub mod svg;
pub mod text;
