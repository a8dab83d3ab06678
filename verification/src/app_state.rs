//! The state that the parts of the application share by handle.

use std::sync::Arc;
use vstd::prelude::*;
use crate::preset::{PresetItems, PresetManager, PresetView};

verus! {

/// The shared state: the presets.
#[derive(Debug)]
pub struct AppState {
    pub preset_manager: PresetManager,
}

/// A handle on the shared state.
pub struct AppStateWrapper {
    pub app_state: Arc<AppState>,
}

impl AppState {
    /// The state at start: the default preset in use, no sub-preset, and no
    /// preset listed.
    pub fn new() -> (state: Self)
        ensures
            state.preset_manager.current@ == (PresetView {
                name: "default"@,
                items: PresetItems::standard(),
            }),
            state.preset_manager.sub_preset is None,
            state.preset_manager.listed() == Seq::<PresetView>::empty(),
    {
        AppState { preset_manager: PresetManager::new() }
    }
}

impl Default for AppState {
    fn default() -> (state: Self)
        ensures
            state.preset_manager.current@ == (PresetView {
                name: "default"@,
                items: PresetItems::standard(),
            }),
            state.preset_manager.sub_preset is None,
            state.preset_manager.listed() == Seq::<PresetView>::empty(),
    {
        AppState::new()
    }
}

} // verus!
