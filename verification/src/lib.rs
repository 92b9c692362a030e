//! Linux Kernel Maintainer Verification: the data structures, message
//! routing rules, setup-flow decisions and configuration protection logic
//! shared by the LKMV tools.

pub mod backup;
pub mod config;
pub mod crypto;
pub mod errors;
pub mod keyed;
pub mod logs;
pub mod main_page;
pub mod maintainers;
pub mod message_type;
pub mod page_text;
pub mod persona_keys;
pub mod recovery_phrase;
pub mod relationships;
pub mod secured_config;
pub mod setup_flow;
pub mod setup_page;
pub mod state;
pub mod state_handler;
pub mod tasks;
pub mod text;
pub mod vrc_tasks;
