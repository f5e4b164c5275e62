//! The control plane of a terminal client for a torrent daemon: the
//! dual-dialect RPC protocol (negotiation, legacy name translation, request
//! tags, session tokens, reply interpretation), the preferences model and
//! form, and the single-threaded reducer that owns all client state.
use vstd::prelude::*;

pub mod config;
pub mod events;
pub mod form;
pub mod model;
pub mod names;
pub mod numbers;
pub mod preferences;
pub mod rpc;
pub mod text;
pub mod ui;
pub mod wire;
pub mod worker;

verus! {

} // verus!
