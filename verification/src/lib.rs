//! Activation keys for FinalShell, derived from a machine code.
//!
//! The heart of the crate is [`finalshell`]: a machine code is validated and
//! cleaned ([`machine_code`]), classified by its shape ([`models`]), and
//! turned into keys by salting, hashing and cutting ([`salt`], [`digest`],
//! [`hex`]). [`report`] lays the keys out as text. Around it stand the rules
//! and formatters of the service that hands the keys out: [`access`],
//! [`config`], [`parse`], [`markdown`], [`logs`], [`filesize`] and
//! [`utils`].
//!
//! Every function states what it returns over the mathematical value of
//! its arguments, and is proved to return just that. The hash functions and
//! the clock are taken on trust; what is assumed of them is written where
//! they are called.

pub mod access;
pub mod config;
pub mod digest;
pub mod error;
pub mod filesize;
pub mod finalshell;
pub mod hex;
pub mod logs;
pub mod machine_code;
pub mod markdown;
pub mod models;
pub mod parse;
pub mod report;
pub mod salt;
pub mod text;
pub mod utils;
