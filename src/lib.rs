//! Conversion between structured documents and the values of an embedded
//! scripting engine, and the decisions of one evaluation request.

pub mod convert;
pub mod laws;
pub mod model;
pub mod session;
