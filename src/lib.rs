pub mod audio;
pub mod error;
pub mod prompt;
pub mod settings;
pub mod stream;
pub mod transcript;
