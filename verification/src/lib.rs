//! SOAP envelopes and WS-Addressing headers over a verified XML tree.

pub mod codec;
pub mod dom;
pub mod envelope;
pub mod helper;
pub mod addressing;
