//! Verified state logic of a multi-pane terminal workspace shell.

pub mod function_pane;
pub mod connection_display;
pub mod text;
pub mod layout_state;
pub mod layout_laws;
pub mod layout_check;
pub mod messages;
pub mod file_manager;
pub mod coordinator;
pub mod conn_order;
pub mod terminal_view;
pub mod settings;
pub mod shell;
pub mod shell_animations;
pub mod session;
pub mod home;
pub mod dialogs;

