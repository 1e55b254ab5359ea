//! Verified core of the Input0 voice-input assistant: the prompt that the text
//! post-processor sends, the transcription history and custom vocabulary stores,
//! the settings record, the speech-model registry and the decisions taken around
//! model downloads, recording and transcription.
pub mod text;
pub mod errors;
pub mod llm;
pub mod paths;
pub mod store;
pub mod vocabulary;
pub mod history;
pub mod config;
pub mod models;
pub mod stt;
pub mod audio;
pub mod input;
