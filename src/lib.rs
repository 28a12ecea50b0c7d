//! A small tool for keeping Architecture Decision Records (ADRs): it resolves
//! a command line into a command, and drives the filesystem work of that
//! command as a machine that asks for one operation at a time.

pub mod command;
pub mod text;
pub mod listing;
pub mod dispatch;
