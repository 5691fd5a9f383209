//! The observer that the host reports to.

use vstd::prelude::*;
use crate::schema::{InitDataInstruction, InitDataModel};

verus! {

/// The two ends of a pass over the plugin directory.
#[derive(Clone, Copy, Debug, PartialEq, Eq, Structural)]
pub enum LoadStatus {
    Started,
    Finished,
}

/// Implemented by the user interface to follow what the core does.
pub trait GUI {
    /// Called early in the core's start, before it touches the filesystem.
    fn on_core_pre_init(&self);

    /// Called after the core's start, with the directory that was searched
    /// for plugins, if any.
    fn on_core_post_init(&self, plugin_loaded_dir: Option<String>);

    /// Called when the process of a plugin was started by the core. The
    /// plugin's own init instruction may come before or after.
    fn on_plugin_loaded(&self, plugin_name: String);

    /// Called when a plugin could not be loaded.
    fn on_plugin_load_failure(&self, error_msg: String);

    /// Called when a pass over the plugin directory starts and when it
    /// finishes.
    fn on_plugins_loaded_status_change(&self, status: LoadStatus);

    /// Called when a plugin sends its init instruction.
    fn on_plugin_init(&self, plugin_init_data: InitDataInstruction);
}

/// One call on a [`GUI`], with its argument.
pub enum UiNotice {
    CorePreInit,
    CorePostInit(Option<Seq<char>>),
    PluginLoaded(Seq<char>),
    PluginLoadFailure(Seq<char>),
    StatusChange(LoadStatus),
    PluginInit(InitDataModel),
}

} // verus!
