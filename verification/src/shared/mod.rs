pub mod decode;
pub mod decode_laws;
pub mod documents;
pub mod errors;
pub mod json;
pub mod raw;
pub mod raw_laws;
pub mod retry_advice;
pub mod retry_laws;
pub mod text;
pub mod text_laws;
