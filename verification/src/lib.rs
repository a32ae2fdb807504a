//! Verified core of the egui client shell for the Mentci daemon.

pub mod control;
pub mod mentci;
pub mod text;
pub mod policy_editor;
pub mod sockets;
pub mod error;
pub mod daemon_client;
pub mod shell;
pub mod workbench;
