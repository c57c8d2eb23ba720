//! Verified core of the rata-pi terminal client: cursor arithmetic over
//! UTF-8 buffers, transcript bookkeeping, the live-status machine, the
//! event reducer, and what keys, clicks, dialogs and slash commands do to
//! the client state.

pub mod anim;
pub mod text;
pub mod keys;
pub mod editor;
pub mod json;
pub mod helpers;
pub mod transcript;
pub mod tools;
pub mod status;
pub mod messages;
pub mod app;
pub mod import;
pub mod settings;
pub mod modals;
pub mod mouse;
pub mod keymap;
pub mod slash;
pub mod doctor;
pub mod visuals;
pub mod cards;
pub mod dialog;
pub mod markers;
pub mod layout;
pub mod interview;
