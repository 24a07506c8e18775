pub mod api;
pub mod ingress;
pub mod manager;
pub mod session;
pub mod types;
