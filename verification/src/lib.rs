//! Figma Plugin-API script generation for the figma command-line tool: every
//! command is turned into a JavaScript payload that the FigCli plugin evaluates
//! inside Figma. This crate holds that generation, the JSON text it relies on,
//! the colour parsing behind fills and strokes, and the daemon's protocol
//! decisions and its book of requests awaiting the plugin, and the reading
//! of JSON and base64 replies, each with its contract.

pub mod text;
pub mod json;
pub mod color;
pub mod jsgen;
pub mod cmds;
pub mod cli;
pub mod config;
pub mod daemon;
pub mod engine;
pub mod tools;
pub mod requests;
pub mod parsing;
