//! rphide: hides the Discord rich presence while chosen programs run.
//!
//! The verified library holds the decisions of the program: the IPC frame
//! format spoken with Discord, the one-byte protocol between the primary and
//! secondary processes, the scan that decides whether presence is hidden, the
//! presence state machine, the configuration's trigger list and the state of
//! the window.
mod answer_channel;
pub mod config;
pub mod discord_data;
pub mod presence;
pub mod self_ipc;
pub mod trigger;
pub mod ui;
