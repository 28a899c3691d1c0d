//! A file-synchronisation client core: the records it keeps about transfers,
//! the paths it must not react to, the decisions it takes on file-system and
//! server events, and the requests it sends to the synchronisation server.
use vstd::prelude::*;

pub mod api;
pub mod client;
pub mod ignore;
pub mod json;
pub mod paths;
pub mod synchronizer;
pub mod text;
pub mod transfers;
pub mod types;

verus! {

} // verus!
