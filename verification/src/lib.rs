//! Verified core logic of a multi-source terminal music player: format
//! templates, the native cross-source queue, key-driven view navigation,
//! table columns, per-source playback routing and plans, Spotify id
//! parsing, and session persistence decisions.

mod text;

pub mod track;
pub mod app;
pub mod format;
pub mod columns;

pub mod queue;
pub mod queue_menu;
pub mod queue_engine;
pub mod decision;

pub mod search_results;
pub mod search_view;
pub mod album_tracks;
pub mod recently_played;
pub mod local_browser;
pub mod dialog;

pub mod ids;
pub mod spotify;
pub mod youtube;
pub mod local_playback;
pub mod radio;

pub mod persisted;
pub mod first_run;
