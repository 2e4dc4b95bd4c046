//! The engine options: the one record that the configuration file and the
//! command line are merged into.

use crate::resources::ResourceVersion;
use vstd::prelude::*;

verus! {

/// The options that the game engine is started with.
#[derive(Debug, PartialEq, Eq)]
pub struct EngineOptions {
    /// The directory that holds the configuration file and the engine's own data.
    pub stracciatella_home: String,
    /// The directory of the original game's data. Empty while it is not set.
    pub vanilla_data_dir: String,
    /// The mods to load, in the order in which they apply.
    pub mods: Vec<String>,
    /// Width and height of the screen.
    pub resolution: (u16, u16),
    pub resource_version: ResourceVersion,
    pub show_help: bool,
    pub run_unittests: bool,
    pub run_editor: bool,
    pub start_in_fullscreen: bool,
    pub start_in_window: bool,
    pub start_in_debug_mode: bool,
    pub start_without_sound: bool,
}

/// The engine options as plain mathematical values.
pub ghost struct EngineOptionsView {
    pub stracciatella_home: Seq<char>,
    pub vanilla_data_dir: Seq<char>,
    pub mods: Seq<Seq<char>>,
    pub resolution: (u16, u16),
    pub resource_version: ResourceVersion,
    pub show_help: bool,
    pub run_unittests: bool,
    pub run_editor: bool,
    pub start_in_fullscreen: bool,
    pub start_in_window: bool,
    pub start_in_debug_mode: bool,
    pub start_without_sound: bool,
}

impl View for EngineOptions {
    type V = EngineOptionsView;

    open spec fn view(&self) -> EngineOptionsView {
        EngineOptionsView {
            stracciatella_home: self.stracciatella_home@,
            vanilla_data_dir: self.vanilla_data_dir@,
            mods: self.mods.deep_view(),
            resolution: self.resolution,
            resource_version: self.resource_version,
            show_help: self.show_help,
            run_unittests: self.run_unittests,
            run_editor: self.run_editor,
            start_in_fullscreen: self.start_in_fullscreen,
            start_in_window: self.start_in_window,
            start_in_debug_mode: self.start_in_debug_mode,
            start_without_sound: self.start_without_sound,
        }
    }
}

/// The options before any configuration is read: no directories, no mods,
/// 640 by 480, English resources, every switch off.
pub open spec fn default_options() -> EngineOptionsView {
    EngineOptionsView {
        stracciatella_home: Seq::empty(),
        vanilla_data_dir: Seq::empty(),
        mods: Seq::empty(),
        resolution: (640, 480),
        resource_version: ResourceVersion::ENGLISH,
        show_help: false,
        run_unittests: false,
        run_editor: false,
        start_in_fullscreen: false,
        start_in_window: false,
        start_in_debug_mode: false,
        start_without_sound: false,
    }
}

impl Default for EngineOptions {
    fn default() -> (options: EngineOptions)
        ensures
            options@ == default_options(),
    {
        let options = EngineOptions {
            stracciatella_home: String::new(),
            vanilla_data_dir: String::new(),
            mods: Vec::new(),
            resolution: (640, 480),
            resource_version: ResourceVersion::ENGLISH,
            show_help: false,
            run_unittests: false,
            run_editor: false,
            start_in_fullscreen: false,
            start_in_window: false,
            start_in_debug_mode: false,
            start_without_sound: false,
        };
        assert(options.mods.deep_view() =~= Seq::<Seq<char>>::empty());
        options
    }
}

} // verus!
