pub mod completion;
pub mod prompt;
pub mod session;
pub mod state;
pub mod text;
