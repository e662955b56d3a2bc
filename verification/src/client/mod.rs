pub mod authority;
pub mod base_url;
pub mod client;
pub mod client_laws;
pub mod exchange;
pub mod observer;
pub mod observer_laws;
pub mod session;
pub mod session_flow_laws;
pub mod session_laws;
pub mod transport;
pub mod transport_laws;
