//! Session state, command dispatch and event relay policy for a telemetry
//! relay embedded in a host application.
pub mod text;
pub mod json;
pub mod queue;
pub mod organizer;
pub mod relay;
pub mod wire;
