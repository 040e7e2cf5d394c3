//! The decisions of an interactive housekeeping menu for systems managed
//! by pacman: which actions a line of input selects, which program each
//! action starts and with which arguments, and what the answers to its
//! questions lead to.
//!
//! Nothing here starts a program, reads input or prints. A caller shows the
//! menu, hands the replies and findings to these functions as plain values,
//! and carries out what they return.
//!
//! - [`menu`]: the menu line, the actions it selects and what each action
//!   starts with.
//! - [`command`]: a program to start, and the two updates that need no
//!   question.
//! - [`aur`], [`orphans`], [`cache`], [`journal`]: one module for each
//!   action that looks, asks or queries before it runs anything.
//! - [`startup`]: what is settled before the menu is shown.
//! - [`retention`], [`text`]: how replies and printed output are read.

pub mod aur;
pub mod cache;
pub mod command;
pub mod journal;
pub mod menu;
pub mod orphans;
pub mod retention;
pub mod startup;
pub mod text;
