//! A bridge for boundary calls: a host issues a call by name with an ordered
//! list of params, the dispatcher routes it to one handler of a closed
//! registry, and the handler's results go back in order.
//!
//! - [`param`]: the values that cross the boundary, text or bytes.
//! - [`decimal`]: the grammar of a declared size.
//! - [`codec`]: decoding a framed compressed stream into a buffer of a
//!   declared size.
//! - [`diagnostics`]: the sink for what handlers report without failing.
//! - [`dispatch`]: the registry and the dispatcher.

pub mod codec;
pub mod decimal;
pub mod diagnostics;
pub mod dispatch;
pub mod param;
