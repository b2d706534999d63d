//! In-memory hosting of a managed runtime: image validation, runtime
//! discovery, in-memory assembly resolution, reflection-driven entry-point
//! invocation and session lifecycle, with the decision logic verified.

pub mod bridge;
pub mod error;
pub mod guid;
pub mod image;
pub mod reflect;
pub mod session;
pub mod variant;
pub mod version;
pub mod wide;
