//! Decision logic of a Bluetooth LE central client: what to print, what to
//! ask of the central service and when to stop, for each thing the service
//! reports.

pub mod decimal;
pub mod device;
pub mod error;
pub mod central;
pub mod connect;
pub mod session;
pub mod guarantees;
