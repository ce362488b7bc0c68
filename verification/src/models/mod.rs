pub mod app_rule;
pub mod health;
pub mod settings;
pub mod singbox;
pub mod state;
