pub mod github;
pub mod manager;
pub mod install;
