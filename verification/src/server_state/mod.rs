//! The server's configuration and the facts about the machine it runs on.

pub mod machine_info;
pub mod server_config;
