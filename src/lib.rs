//! A scanner for a small scripting language: it turns source text into
//! tokens, or into the diagnostics of every error it finds.

mod chars;
pub mod laws;
mod lex;
pub mod model;
pub mod scanner;
pub mod text;
pub mod token;

pub use scanner::scan_tokens;
pub use token::{Decimal, Token, TokenKind};
