//! Unattended power testing of a device: reading the replies of its control
//! tool, keeping its battery charged between test runs, and running the tests
//! in order.
pub mod charge;
pub mod laws;
pub mod report;
pub mod runs;
pub mod session;
pub mod telemetry;
pub mod text;
