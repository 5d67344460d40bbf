//! Supervision of one long-lived backend service process: how it is launched,
//! when it counts as healthy, how it is torn down, and the lifecycle state that
//! ties these together.
pub mod health;
pub mod launch;
pub mod supervisor;
pub mod terminate;
