//! Android wireless debugging companion: the decisions behind the `airadb` command.

pub mod choice;
pub mod cli;
pub mod clock;
pub mod connect;
pub mod device;
pub mod dialogue;
pub mod discovery;
pub mod endpoint;
pub mod failure;
pub mod flows;
pub mod mirror;
pub mod pairing;
pub mod path;
pub mod program;
pub mod scrcpy;
pub mod search;
pub mod startup;
pub mod text;
