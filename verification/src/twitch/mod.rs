//! The event stream: its messages, the session that carries them, and the
//! upstream subscriptions that feed it.

pub mod eventsub;
pub mod idempotence;
pub mod session;
pub mod subscription;
pub mod types;
pub mod validation;
