//! The host's surroundings: the filesystem, the children and the observer,
//! reached through one runtime that knows, in order, everything it was asked
//! to do and what came of it.

use vstd::prelude::*;
use crate::codec::text_view;
use crate::manager::{PathFacts, WalkItem};
use crate::schema::InitDataInstruction;
use crate::ui::{GUI, LoadStatus, UiNotice};

verus! {

/// What the host needs of the filesystem and of the platform. Nothing is
/// assumed of what an implementation answers.
pub trait Filesystem {
    /// The user's home directory, if it is known.
    fn home_dir(&mut self) -> Option<String>;

    /// The working directory, if it can be had.
    fn current_dir(&mut self) -> Option<String>;

    /// Creates a directory and the ancestors it lacks.
    fn create_dir_all(&mut self, path: &String) -> Result<(), String>;

    /// Looks at a path.
    fn probe(&mut self, path: &String) -> PathFacts;

    /// Walks the directory at the depth of the plugins' executables exactly,
    /// without following links.
    fn walk(&mut self, dir: &String) -> Vec<WalkItem>;

    /// Whether executables carry the Windows extension here.
    fn is_windows(&mut self) -> bool;
}

/// What the host needs to bring up a child: binds an endpoint server to the
/// endpoint name, starts the executable with the endpoint name as its only
/// argument, and starts the child's reader. Nothing is assumed of what an
/// implementation answers.
pub trait Launcher<P> {
    fn launch(&mut self, executable: &String, endpoint_name: &String) -> Result<P, String>;
}

/// One thing that the host did to its surroundings, with what came of it.
pub enum Effect {
    /// The observer was told.
    Notice(UiNotice),
    /// The home directory was asked for.
    HomeDir(Option<Seq<char>>),
    /// The working directory was asked for.
    CurrentDir(Option<Seq<char>>),
    CreateDir { path: Seq<char>, created: bool },
    Probe { path: Seq<char>, facts: PathFacts },
    Walk { dir: Seq<char>, items: Seq<WalkItem>, windows: bool },
    Launch { executable: Seq<char>, endpoint: Seq<char>, started: bool },
}

/// The way to the surroundings. Every request goes to the platform or, if
/// there is one, to the observer, and is entered in the record of effects.
pub struct Runtime<'a, H, G: GUI + ?Sized> {
    platform: &'a mut H,
    ui: Option<&'a G>,
    log: Ghost<Seq<Effect>>,
}

impl<'a, H: Filesystem, G: GUI + ?Sized> Runtime<'a, H, G> {
    /// The effects so far, oldest first.
    pub closed spec fn effects(&self) -> Seq<Effect> {
        self.log@
    }

    pub fn new(platform: &'a mut H, ui: Option<&'a G>) -> (r: Runtime<'a, H, G>)
        ensures
            r.effects() == Seq::<Effect>::empty(),
    {
        Runtime { platform, ui, log: Ghost(Seq::empty()) }
    }

    pub fn core_pre_init(&mut self)
        ensures
            final(self).effects() == old(self).effects().push(Effect::Notice(UiNotice::CorePreInit)),
    {
        if let Some(ui) = self.ui {
            ui.on_core_pre_init();
        }
        self.log = Ghost(self.log@.push(Effect::Notice(UiNotice::CorePreInit)));
    }

    pub fn core_post_init(&mut self, plugin_loaded_dir: Option<String>)
        ensures
            final(self).effects() == old(self).effects().push(
                Effect::Notice(UiNotice::CorePostInit(text_view(plugin_loaded_dir))),
            ),
    {
        let ghost dir = text_view(plugin_loaded_dir);
        if let Some(ui) = self.ui {
            ui.on_core_post_init(plugin_loaded_dir);
        }
        self.log = Ghost(self.log@.push(Effect::Notice(UiNotice::CorePostInit(dir))));
    }

    pub fn plugin_loaded(&mut self, plugin_name: String)
        ensures
            final(self).effects() == old(self).effects().push(
                Effect::Notice(UiNotice::PluginLoaded(plugin_name@)),
            ),
    {
        let ghost name = plugin_name@;
        if let Some(ui) = self.ui {
            ui.on_plugin_loaded(plugin_name);
        }
        self.log = Ghost(self.log@.push(Effect::Notice(UiNotice::PluginLoaded(name))));
    }

    pub fn plugin_load_failure(&mut self, error_msg: String)
        ensures
            final(self).effects() == old(self).effects().push(
                Effect::Notice(UiNotice::PluginLoadFailure(error_msg@)),
            ),
    {
        let ghost msg = error_msg@;
        if let Some(ui) = self.ui {
            ui.on_plugin_load_failure(error_msg);
        }
        self.log = Ghost(self.log@.push(Effect::Notice(UiNotice::PluginLoadFailure(msg))));
    }

    pub fn status_change(&mut self, status: LoadStatus)
        ensures
            final(self).effects() == old(self).effects().push(
                Effect::Notice(UiNotice::StatusChange(status)),
            ),
    {
        if let Some(ui) = self.ui {
            ui.on_plugins_loaded_status_change(status);
        }
        self.log = Ghost(self.log@.push(Effect::Notice(UiNotice::StatusChange(status))));
    }

    pub fn plugin_init(&mut self, plugin_init_data: InitDataInstruction)
        ensures
            final(self).effects() == old(self).effects().push(
                Effect::Notice(UiNotice::PluginInit(plugin_init_data@)),
            ),
    {
        let ghost data = plugin_init_data@;
        if let Some(ui) = self.ui {
            ui.on_plugin_init(plugin_init_data);
        }
        self.log = Ghost(self.log@.push(Effect::Notice(UiNotice::PluginInit(data))));
    }

    pub fn home_dir(&mut self) -> (r: Option<String>)
        ensures
            final(self).effects() == old(self).effects().push(Effect::HomeDir(text_view(r))),
    {
        let r = self.platform.home_dir();
        self.log = Ghost(self.log@.push(Effect::HomeDir(text_view(r))));
        r
    }

    pub fn current_dir(&mut self) -> (r: Option<String>)
        ensures
            final(self).effects() == old(self).effects().push(Effect::CurrentDir(text_view(r))),
    {
        let r = self.platform.current_dir();
        self.log = Ghost(self.log@.push(Effect::CurrentDir(text_view(r))));
        r
    }

    pub fn create_dir_all(&mut self, path: &String) -> (r: Result<(), String>)
        ensures
            final(self).effects() == old(self).effects().push(
                Effect::CreateDir { path: path@, created: r.is_ok() },
            ),
    {
        let r = self.platform.create_dir_all(path);
        self.log = Ghost(self.log@.push(Effect::CreateDir { path: path@, created: r.is_ok() }));
        r
    }

    pub fn probe(&mut self, path: &String) -> (r: PathFacts)
        ensures
            final(self).effects() == old(self).effects().push(
                Effect::Probe { path: path@, facts: r },
            ),
    {
        let r = self.platform.probe(path);
        self.log = Ghost(self.log@.push(Effect::Probe { path: path@, facts: r }));
        r
    }

    /// Walks the directory, and asks which extension executables carry.
    pub fn walk(&mut self, dir: &String) -> (r: (Vec<WalkItem>, bool))
        ensures
            final(self).effects() == old(self).effects().push(
                Effect::Walk { dir: dir@, items: r.0@, windows: r.1 },
            ),
    {
        let items = self.platform.walk(dir);
        let windows = self.platform.is_windows();
        self.log = Ghost(self.log@.push(Effect::Walk { dir: dir@, items: items@, windows }));
        (items, windows)
    }

    pub fn launch<P>(&mut self, executable: &String, endpoint_name: &String) -> (r: Result<
        P,
        String,
    >) where H: Launcher<P>
        ensures
            final(self).effects() == old(self).effects().push(
                Effect::Launch {
                    executable: executable@,
                    endpoint: endpoint_name@,
                    started: r.is_ok(),
                },
            ),
    {
        let r = self.platform.launch(executable, endpoint_name);
        self.log = Ghost(
            self.log@.push(
                Effect::Launch {
                    executable: executable@,
                    endpoint: endpoint_name@,
                    started: r.is_ok(),
                },
            ),
        );
        r
    }
}

} // verus!
