//! Request-identity and subscription bookkeeping for a SimConnect session.
//!
//! The library decides which native calls to issue, in which order, and what
//! their answers mean; the caller owns the native channel, issues each call it
//! is handed and reports back the status code that the service returned.

pub mod descriptors;
pub mod error;
pub mod events;
pub mod facilities;
pub mod native;
pub mod request_ids;

pub use descriptors::{ClientEvent, FacilityType, NotificationGroup, SystemEventRequest};
pub use error::{NativeStep, SimConnectError};
pub use request_ids::SimConnect;
pub use native::{CallSequence, NativeCall};
