//! The decisions behind an assistant that installs and updates TwitNinf on an
//! iPhone plugged into a Windows PC, with a free Apple account.
//!
//! The window, the network, the phone and the credential store live outside this
//! crate. Each long exchange with them is a state machine here: it is handed what
//! just happened and answers with what to show and what to do next.

pub mod accounts;
pub mod certificates;
pub mod command;
pub mod device;
pub mod download;
pub mod drivers;
pub mod failure;
pub mod journal;
pub mod login;
pub mod meter;
pub mod notice;
pub mod pending;
pub mod probe;
pub mod source;
pub mod text;
pub mod trouble;
pub mod turn;
pub mod two_factor;
pub mod update;
pub mod webview;
pub mod winget;
