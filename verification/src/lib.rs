//! Commit-message assistant: the rules behind a command-line tool that reads
//! the staged changes of a repository, asks a chat-completion service for a
//! commit message, and then commits, edits or cancels.
//!
//! Everything here works on plain values. Running `git`, talking to the
//! service, reading the terminal and touching files is left to the caller,
//! which feeds the results back in.

pub mod cli;
pub mod commands;
pub mod commit;
pub mod config;
pub mod editor;
pub mod git;
pub mod lines;
pub mod llm;
pub mod text;
pub mod ui;
