//! Verified core of the rhap terminal audio player: stream formats, device
//! capability handling, playlist navigation and search, input mapping and the
//! decisions taken by the audio output loops.

pub mod audio;
pub mod text;
pub mod alsa;
pub mod pipewire;
pub mod playlist;
pub mod action;
pub mod keys;
pub mod events;
pub mod keyboard_manager;
pub mod search_widget;
pub mod retry;
pub mod playback;
pub mod app_state;
pub mod player_state;
pub mod player;
pub mod pcm;
pub mod wasapi;
pub mod media;
pub mod host;
pub mod device_manager;
pub mod device_selector;
pub mod layout;
pub mod view;
pub mod musictrack;
pub mod paths;
pub mod signal;
