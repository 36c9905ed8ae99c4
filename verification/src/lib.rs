use vstd::prelude::*;

pub mod text;
pub mod types;
pub mod affection;
pub mod audio;
pub mod cloud;
pub mod settings;
pub mod path;
pub mod scene;
pub mod registry;
pub mod local_tts;
pub mod sherpa_models;
pub mod tts_download;
pub mod player;
pub mod live2d;
pub mod live2d_auto;
pub mod live2d_import;
pub mod media;
pub mod market;
pub mod dlc;
pub mod popups;
pub mod emotion;
pub mod autostart;
pub mod codex;
pub mod identity;
pub mod lighting;
pub mod memory;
pub mod save;
pub mod script;
pub mod tools;
pub mod engine;
pub mod pet;
pub mod voices;
pub mod json;
pub mod model3;

verus! {

} // verus!
