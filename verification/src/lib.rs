//! Lifecycle core for an embedded router exposed through a foreign-call-safe
//! handle.
//!
//! The handle owns a small state machine (stopped, starting, running,
//! stopping, error) together with the configuration used at the next start
//! and the bridge ports discovered during a successful start.  Every
//! operation on the handle is a total function with an exact contract: which
//! states it accepts, which state it leaves behind, and which integer code
//! it hands back across the boundary.

pub mod codes;
pub mod laws;
pub mod router;
pub mod shutdown;
pub mod state;

pub use codes::EMISSARY_SUCCESS;
pub use codes::EMISSARY_ERROR_GENERIC;
pub use codes::EMISSARY_ERROR_INVALID_PARAM;
pub use codes::EMISSARY_ERROR_ALREADY_STARTED;
pub use codes::EMISSARY_ERROR_NOT_STARTED;
pub use codes::EMISSARY_ERROR_NETWORK;
pub use codes::EMISSARY_ERROR_RESOURCE;
pub use codes::EMISSARY_STATUS_STOPPED;
pub use codes::EMISSARY_STATUS_STARTING;
pub use codes::EMISSARY_STATUS_RUNNING;
pub use codes::EMISSARY_STATUS_STOPPING;
pub use codes::EMISSARY_STATUS_ERROR;
pub use state::RouterState;
pub use state::StartFailure;
pub use state::StopDecision;
pub use router::EmissaryRouter;
pub use router::RouterConfig;
pub use router::SamSettings;
pub use router::sam_port_code;
