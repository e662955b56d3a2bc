//! The OpenAI dialect: requests, responses and streams.
pub mod block_laws;
pub mod call_laws;
pub mod content_laws;
pub mod document_laws;
pub mod events;
pub mod finish;
pub mod frame_laws;
pub mod input_laws;
pub mod laws;
pub mod machine;
pub mod request;
pub mod request_laws;
pub mod response;
pub mod response_laws;
pub mod stream;
pub mod stream_laws;
