pub mod adapters;
pub mod types;
pub mod wire_anthropic;
pub mod wire_laws;
pub mod wire_openai;
pub mod wire_record_laws;
pub mod wire_text;
pub mod wire_text_laws;
