//! Musico: the verified core of an offline music player.
use vstd::prelude::*;

pub mod catalog;
pub mod clock;
pub mod config;
pub mod crossfade;
pub mod eq;
pub mod lyrics;
pub mod modes;
pub mod mpris;
pub mod paths;
pub mod perm;
pub mod playback;
pub mod playlists;
pub mod player;
pub mod queue;
pub mod recommend;
pub mod scanner;
pub mod screen;
pub mod session;
pub mod song;
pub mod stats;
pub mod text;
pub mod timer;
pub mod updater;

verus! {

} // verus!
