//! Core logic of a game launcher: version-metadata resolution with
//! inheritance, platform-conditional dependency selection, idempotent
//! dependency materialization plans, classpath assembly, and the argument
//! template for spawning the game process. All I/O (network, filesystem,
//! process spawn) lives outside this crate; these modules compute every
//! decision from plain values handed in.

pub mod account;
pub mod accounts;
pub mod config;
pub mod error;
pub mod home;
pub mod model;
pub mod mojang;
pub mod service;
pub mod paths;
pub mod platform;
pub mod repository;
pub mod text;

pub use platform::Arch;
pub use platform::Platform;
