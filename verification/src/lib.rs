//! A small multiple-choice quiz engine: a fixed question list, a running
//! score, an optional player name, and a restart operation, together with
//! the derived summary line that a front end displays.

pub mod quiz;
pub mod text;
