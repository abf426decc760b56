//! Management of ephemeral GPU cloud instances: credential resolution, the
//! provider's data model and request decisions, launch polling, and
//! instance-ready notifications.
use vstd::prelude::*;

pub mod api;
pub mod cli;
pub mod credential;
pub mod error;
pub mod notify;
pub mod polling;
pub mod text;

pub use api::{Filesystem, Instance, InstanceTypeData, LaunchResult};
pub use error::LambdaError;
pub use notify::{InstanceReadyMessage, NotifyConfig};

verus! {

} // verus!
