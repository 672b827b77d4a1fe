//! Shell-invocation planning and the tool verification gate, with their
//! contracts proved by Verus.

pub mod shell_invocation;
pub mod text;
pub mod verify;
