//! A terminal chat client's command language and its list of followed channels.
//!
//! `commands` turns a line of text into a checked moderation command. `search` is a
//! widget that lists candidates fetched from elsewhere, keeps a cursor on them and
//! reports the one picked; `following` uses it for the channels the user follows.
use vstd::prelude::*;

pub mod action;
pub mod channels;
pub mod commands;
pub mod config;
pub mod following;
pub mod mods;
pub mod search;
pub mod text;

verus! {

} // verus!
