//! A compiler and virtual machine for a small register/stack-machine
//! language, with the session and response rules of the service around it.

pub mod ast;
pub mod auth;
pub mod compiler;
pub mod error;
pub mod ids;
pub mod lexer;
pub mod machine;
pub mod models;
pub mod parser;
pub mod render;
pub mod response;
pub mod session;
pub mod validation;
