//! Release pipeline library: the lifecycle state machine for releases moving
//! through Development, Staging and Production, the pure decision logic of
//! the deployment orchestrator, runner and scheduler, the request-level API
//! decisions, and the broadcast hub's session registry and events.
//!
//! Storage, process execution and the transports live outside the library;
//! they hand plain values in and carry the decisions out.

pub mod api;
pub mod hub;
mod ids;
pub mod orchestrator;
pub mod release;
pub mod runner;
pub mod status;
pub mod text;
pub mod users;

pub use api::AuthCallback;
pub use api::Client;
pub use api::CreateClientRequest;
pub use api::CreateReleaseRequest;
pub use api::CreateReleaseError;
pub use api::StatusUpdateError;
pub use hub::SessionRegistry;
pub use hub::WsMessage;
pub use release::DeploymentItem;
pub use release::Release;
pub use status::Environment;
pub use status::ReleaseStatus;
pub use users::AllowedUsers;
pub use users::User;
pub use users::UserRole;
