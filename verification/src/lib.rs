//! An interactive command launcher: a numbered menu, a parser for the
//! operator's choice and the rules that turn a choice into outside work.

pub mod actions;
pub mod menu;
pub mod session;
pub mod text;
pub mod work;
