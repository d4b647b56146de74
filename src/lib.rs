//! State-synchronization core of a champion build calculator: entity
//! reducers, the packed override codec and the request-lifecycle protocol
//! that keeps a remotely computed result in step with local edits.
pub mod ids;
pub mod model;
pub mod calculator;
pub mod reducer;
pub mod session;
pub mod abilities;
pub mod cache;
