//! Argument handling and run decisions for a command-line front-end that
//! asks a locally installed model runner a question.
pub mod args;
pub mod session;
