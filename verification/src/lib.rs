//! Verified core of a desktop VPN routing manager: sing-box configuration generation,
//! route resolution, launch-argument construction, share-link parsing and the
//! connection lifecycle decisions.
pub mod commands;
pub mod dependencies;
pub mod health;
pub mod logging;
pub mod models;
pub mod process;
pub mod routing;
pub mod settings;
pub mod text;
