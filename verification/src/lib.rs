//! Core of an interactive command shell: splitting an input line into
//! pipeline stages, tokenizing each stage into a program and its arguments,
//! classifying the program as a builtin or an external command, and the
//! state machine that wires standard streams across the stages of a pipeline.

pub mod builtins;
pub mod dispatch;
pub mod highlight;
pub mod messages;
pub mod render;
pub mod runner;
pub mod split;
pub mod stage;
pub mod text;
