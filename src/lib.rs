//! Session authentication: cookie parsing, identity verification
//! verdicts, the guard that turns a verdict into an effect, and the
//! `Set-Cookie` values that install or destroy a session.

pub mod text;
pub mod cookie;
pub mod forge;
pub mod session;
pub mod login;
pub mod guard;
pub mod form;
