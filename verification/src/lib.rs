//! Decision logic of the libg terminal IDE: the Neovim bridge and the
//! agent-client-protocol session driver, with their contracts.

pub mod text;

pub mod lua_setup;
pub mod nvim_types;
pub mod edits;
pub mod nvim_context;
pub mod diagnostics;
pub mod bridge;
pub mod acp_events;
pub mod acp_state;
pub mod acp_worker;
pub mod ghostty_input;
