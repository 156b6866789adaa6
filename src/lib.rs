//! A typing trainer's core: it lays out syntax-highlighted source text glyph
//! by glyph, classifies keystrokes into session actions, and picks practice
//! files with a bounded number of read attempts.

pub mod candidates;
pub mod highlight;
pub mod layout;
pub mod palette;
pub mod session;
