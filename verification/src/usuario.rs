//! El cliente de usuario.
pub mod repl;
pub mod usuario;
