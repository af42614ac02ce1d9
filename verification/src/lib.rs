//! Decoding of an XML document into a tree of host values.
//!
//! A document is handed to `quick_xml`, which deserializes it into a
//! `serde_json::Value`. The decoded tree is then converted, node by node, into
//! a [`term::Term`], and every failure of the decoder is classified into one of
//! four kinds. The contracts are stated over mathematical models of the
//! decoded tree and of the decoder's error.

pub mod json;
pub mod term;
pub mod bridge;
pub mod error;
pub mod decode;
pub mod laws;
