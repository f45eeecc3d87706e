//! The rules of a button remapper for the Razer Naga mouse.
//!
//! The mouse has twelve side buttons. A daemon takes the mouse's button
//! endpoint for itself and replays every press and release through a
//! synthetic keyboard, as the key that the button is mapped to. This crate
//! holds what the daemon decides and nothing of what it does to devices:
//!
//! - [`input`]: the keys a button can be mapped to, and their names;
//! - [`key_map`]: the table from buttons to keys, and how a configuration
//!   changes it;
//! - [`event_mapper`]: from the mouse's events to calls on the keyboard;
//! - [`naga`]: which input device is the mouse, and how the search goes;
//! - [`error`]: what can fail, and how it is reported;
//! - [`text`]: the text primitives under the rules above.
//!
//! Every function states in its contract what it returns, and the contracts
//! are proved.

pub mod error;
pub mod event_mapper;
pub mod input;
pub mod key_map;
pub mod naga;
pub mod text;
