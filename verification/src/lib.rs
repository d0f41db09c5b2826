//! The registry, command rules and message texts of a server administration bot for
//! Discord: who is registered, which warns they carry, which roles are given on
//! registration or may be taken freely, and what every command answers and logs.

pub mod commands;
pub mod embed;
pub mod outside;
pub mod registry;
pub mod roles;
pub mod seqs;
pub mod text;
