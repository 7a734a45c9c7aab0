//! Projection of the editable JSON index onto the canonical index, and
//! back.

pub mod decode;
pub mod encode;
pub mod roundtrip;
pub mod spelling;
pub mod fields;
