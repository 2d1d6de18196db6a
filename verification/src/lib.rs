//! Logic of a small forwarder that keeps a log group and a log stream in a
//! remote logging service, then sends input lines to it as log events.
//!
//! Everything the tool decides lives here: the effective stream name, the
//! policy that checks and creates the group and the stream, the reading of
//! query results, and the per-line forwarding decision. The remote calls
//! themselves are asynchronous network I/O and are driven outside, one at a
//! time, by feeding each call's outcome back into the policy.

pub mod args;
pub mod decimal;
pub mod emit;
pub mod init;
