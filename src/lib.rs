//! Contract probing of the JSON-RPC services of a PeachCloud device.
//!
//! The library decides, for every endpoint of a service, whether the outcome
//! of calling it counts as healthy, and keeps the per-service record of which
//! endpoints passed and which failed. Performing the calls, looking up
//! installed versions and printing the report is left to the caller.
pub mod error;
pub mod outcome;
pub mod probe;
pub mod service;
pub mod stats;

pub use error::{PeachProbeParseError, POSSIBLE_MICROSERVICE_ARGS};
pub use outcome::{classify, Diagnostic, EndpointError, Outcome, ProbeMode};
pub use probe::{PeachProbe, ProbeResult};
pub use service::{default_services, select_services, EndpointProbe, Microservice};
pub use stats::DiskUsage;
