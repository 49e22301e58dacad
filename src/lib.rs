//! Host telemetry defense: rolling windows over CPU, memory and network samples,
//! detectors for network floods, memory growth and CPU saturation, the selection of
//! processes to terminate, an event log and the switch that pauses monitoring.

pub mod detect;
pub mod event_log;
pub mod mitigate;
pub mod monitor;
pub mod pipeline;
pub mod text;
pub mod window;
