//! Lifecycle logic for short-lived function containers: image resolution,
//! endpoint extraction from a container's network configuration, and the
//! per-request sequencing of container-engine steps.
use vstd::prelude::*;

pub mod error;
pub mod image;
pub mod network;
pub mod session;
pub mod text;

pub use error::LifecycleError;
pub use image::select_image;
pub use network::{extract_endpoint, topology_of, HostBinding, NetworkConfig, PortEntry, Topology};
pub use session::{
    begin_cleanup, begin_fetch_logs, begin_provision, Action, ContainerDescriptor, EngineEvent,
    EngineFailure, FunctionSpec, Outcome, Session, Stage,
};
