//! A host-monitoring library: threshold checks over resource samples
//! (memory, per-volume disk usage, CPU load average), alert message
//! formatting, and construction of the webhook request URL.
//!
//! Sampling the local machine and performing the outbound HTTP request
//! are left to the surrounding application; everything that decides
//! whether an alert is due, and what exactly it says, lives here.

pub mod checks;
pub mod decimal;
pub mod dispatch;
pub mod encode;
pub mod message;
pub mod sampling;
pub mod thresholds;
