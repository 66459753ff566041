//! Data records of a launcher's log and result protocol, the wire forms of
//! their tagged values, and the plan and decisions of a one-shot export that
//! writes a JSON Schema document for each record type.

pub mod export;
pub mod records;
pub mod render;
