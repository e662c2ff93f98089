pub mod command;
pub mod render;
pub mod metrics;
pub mod outgoing;
pub mod calls;
pub mod plan;
pub mod service;
pub mod service_laws;
pub mod command_laws;
pub mod typed_laws;
pub mod help_laws;
pub mod conversation_laws;
pub mod request_laws;
pub mod session_laws;
pub mod outcome_laws;
pub mod sending_laws;
pub mod render_laws;
pub mod metrics_laws;
