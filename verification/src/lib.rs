//! Generator for a minimal HTTP server scaffold.
//!
//! From an ordered list of endpoint records (route, method, purpose) the
//! library derives handler identifiers, synthesizes stub handler bodies and
//! route registrations, and assembles them into one complete source unit,
//! paired with a fixed build manifest. The whole pipeline is pure text
//! generation; reading the input and writing the output belong to callers.

pub mod assemble;
pub mod endpoint;
pub mod laws;
pub mod names;
pub mod synthesize;
