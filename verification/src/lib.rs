//! Global input-hook listener core: translation of raw OS notifications into
//! normalized events, single-occupant callback storage, hook-handle registry,
//! and the session state machine that drives hook registration, message
//! pumping and teardown. The platform calls themselves (hook installation,
//! the message loop, handle removal) live outside this library; a driver
//! performs each action the session asks for and hands the outcome back.

use vstd::prelude::*;

pub mod dispatch;
pub mod event;
pub mod registry;
pub mod session;
pub mod slot;
pub mod translate;

verus! {

} // verus!
