//! Connection core of a desktop script-executor companion: executor kinds and
//! their port ranges, the raw-socket frame codec, port scanning and the
//! connection state machine, plus the pure helpers behind the app's stores.

pub mod codec;
pub mod config;
pub mod connection;
pub mod execute;
pub mod flags;
pub mod history;
pub mod key;
pub mod kind;
pub mod logs;
pub mod menu;
pub mod permissions;
pub mod profiles;
pub mod scan;
pub mod scripts;
pub mod search;
pub mod setup;
pub mod tabs;
pub mod text;
pub mod tray;
pub mod workspace;
