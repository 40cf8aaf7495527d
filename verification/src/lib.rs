//! A text-editing engine for an interactive text input: a selection over a
//! byte buffer, a movement resolver, a cache of the last text that was laid
//! out, and an editor that applies edit actions only to data it has seen.

pub mod action;
pub mod boundary;
pub mod editor;
pub mod input;
pub mod layout;
pub mod movement;
pub mod selection;
pub mod storage;
pub mod textbox;
