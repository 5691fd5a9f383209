//! The host facade: where the plugin directory lies, and the order of the
//! host's start.

use vstd::prelude::*;
use crate::manager::{
    LoadError, PathFacts, ProcessManager, ProcessManagerError, directory_ok, join_path, joined,
    lemma_walk_logged_extends, pass_logged,
};
use crate::runtime::{Effect, Filesystem, Launcher, Runtime};
use crate::ui::{GUI, UiNotice};

verus! {

/// Why the host could not be set up or started.
#[derive(Debug, PartialEq, Eq)]
pub enum CoreError {
    /// No home directory is known.
    NoHome,
    /// The working directory could not be had.
    NoWorkingDir,
    /// The plugin directory is not usable.
    Directory(ProcessManagerError),
    /// The manager has no plugin directory to prepare.
    NoPath,
    /// The plugin directory could not be created; the message says why.
    Filesystem(String),
}

impl CoreError {
    pub open spec fn message(&self) -> Seq<char> {
        match self {
            CoreError::NoHome => "No home dir found"@,
            CoreError::NoWorkingDir => "Could not get working directory."@,
            CoreError::Directory(e) => e.message(),
            CoreError::NoPath => "Path is not set"@,
            CoreError::Filesystem(m) => m@,
        }
    }

    pub fn to_string(&self) -> (r: String)
        ensures
            r@ == self.message(),
    {
        match self {
            CoreError::NoHome => String::from_str("No home dir found"),
            CoreError::NoWorkingDir => String::from_str("Could not get working directory."),
            CoreError::Directory(e) => e.to_string(),
            CoreError::NoPath => String::from_str("Path is not set"),
            CoreError::Filesystem(m) => m.clone(),
        }
    }
}

/// Whether the effects from `from` up to `upto` are those of a start of the
/// host on the plugin directory `dir`, which added `added` children and
/// ended with `outcome`.
///
/// The observer hears of the start first, before the filesystem is touched.
/// Without a plugin directory the start ends there with `NoPath`. With one,
/// the directory is created; if that fails, the start ends with the
/// failure. Otherwise one whole pass over the directory follows; if the
/// pass failed the observer is told so once more; and the observer hears of
/// the end of the start last, with the plugin directory.
pub open spec fn start_logged(
    log: Seq<Effect>,
    from: int,
    upto: int,
    dir: Option<Seq<char>>,
    added: int,
    outcome: Result<(), CoreError>,
) -> bool {
    &&& 0 <= from < upto <= log.len()
    &&& log[from] == Effect::Notice(UiNotice::CorePreInit)
    &&& match dir {
        None => upto == from + 1 && added == 0 && outcome == Err::<(), CoreError>(CoreError::NoPath),
        Some(d) => {
            &&& upto >= from + 2
            &&& log[from + 1] matches Effect::CreateDir { path, created }
            &&& log[from + 1]->CreateDir_path == d
            &&& if !log[from + 1]->CreateDir_created {
                upto == from + 2 && added == 0 && outcome matches Err(CoreError::Filesystem(_))
            } else {
                &&& outcome.is_ok()
                &&& log[upto - 1] == Effect::Notice(UiNotice::CorePostInit(Some(d)))
                &&& exists|pass: Result<(), LoadError>| #[trigger]
                    pass_then_report(log, from + 2, upto - 1, d, added, pass)
            }
        },
    }
}

/// Whether the effects from `from` up to `upto` are those of one whole pass
/// with the outcome `pass`, followed, if the pass failed, by the notice of
/// its failure.
pub open spec fn pass_then_report(
    log: Seq<Effect>,
    from: int,
    upto: int,
    dir: Seq<char>,
    added: int,
    pass: Result<(), LoadError>,
) -> bool {
    match pass {
        Ok(()) => pass_logged(log, from, upto, Some(dir), added, pass),
        Err(e) => {
            &&& pass_logged(log, from, upto - 1, Some(dir), added, pass)
            &&& upto <= log.len()
            &&& log[upto - 1] == Effect::Notice(UiNotice::PluginLoadFailure(e.message()))
        },
    }
}

/// The component that a user interface runs to have plugins at work.
#[derive(Debug)]
pub struct Core<P> {
    proc_manager: ProcessManager<P>,
}

impl<P> Core<P> {
    /// The plugin directory.
    pub closed spec fn plugin_dir(&self) -> Option<Seq<char>> {
        self.proc_manager.dir()
    }

    /// The child wrappers of the plugins that are loaded.
    pub closed spec fn loaded(&self) -> Seq<P> {
        self.proc_manager.loaded()
    }

    /// A host around a manager, with the manager's directory and children.
    pub fn with_manager(proc_manager: ProcessManager<P>) -> (r: Core<P>)
        ensures
            r.plugin_dir() == proc_manager.dir(),
            r.loaded() == proc_manager.loaded(),
    {
        Core { proc_manager }
    }

    /// A host on a plugin directory of which the facts are known. The
    /// directory must be absolute, exist and be a directory.
    pub fn with_plugin_dir(plugin_dir: String, facts: PathFacts) -> (r: Result<Core<P>, CoreError>)
        ensures
            setup_decided(plugin_dir@, facts, r),
    {
        match ProcessManager::from_dir_path(plugin_dir, facts) {
            Ok(proc_manager) => Ok(Core { proc_manager }),
            Err(e) => Err(CoreError::Directory(e)),
        }
    }

    /// A host whose plugins lie in `.polychat/plugins` below the user's home
    /// directory. Fails with `NoHome` where no home directory is known, and
    /// with the defect of a plugin directory that the look at it finds
    /// wanting. Nothing is created and no child is started.
    pub fn new_in_home<H: Filesystem, G: GUI + ?Sized>(runtime: &mut Runtime<'_, H, G>) -> (r: Result<
        Core<P>,
        CoreError,
    >)
        ensures
            old(runtime).effects().is_prefix_of(final(runtime).effects()),
            final(runtime).effects().len() > old(runtime).effects().len(),
            final(runtime).effects()[old(runtime).effects().len() as int] matches Effect::HomeDir(
                home,
            ) && match home {
                None => final(runtime).effects().len() == old(runtime).effects().len() + 1 && r
                    == Err::<Core<P>, CoreError>(CoreError::NoHome),
                Some(h) => setup_logged(
                    final(runtime).effects(),
                    old(runtime).effects().len() as int + 1,
                    joined(h, ".polychat"@),
                    r,
                ),
            },
    {
        let ghost base = runtime.effects().len() as int;
        match runtime.home_dir() {
            None => Err(CoreError::NoHome),
            Some(home) => {
                let ghost asked = runtime.effects();
                let r = Core::new_from_dir(join_path(&home, ".polychat"), runtime);
                proof {
                    assert(old(runtime).effects().is_prefix_of(asked));
                    assert(runtime.effects()[base] == asked[base]);
                }
                r
            },
        }
    }

    /// A host whose plugins lie in `polychat/plugins` below the working
    /// directory. Fails with `NoWorkingDir` where the working directory
    /// cannot be had, and with the defect of a plugin directory that the
    /// look at it finds wanting. Nothing is created and no child is started.
    pub fn new_in_working_dir<H: Filesystem, G: GUI + ?Sized>(
        runtime: &mut Runtime<'_, H, G>,
    ) -> (r: Result<Core<P>, CoreError>)
        ensures
            old(runtime).effects().is_prefix_of(final(runtime).effects()),
            final(runtime).effects().len() > old(runtime).effects().len(),
            final(runtime).effects()[old(runtime).effects().len() as int] matches Effect::CurrentDir(
                cwd,
            ) && match cwd {
                None => final(runtime).effects().len() == old(runtime).effects().len() + 1 && r
                    == Err::<Core<P>, CoreError>(CoreError::NoWorkingDir),
                Some(d) => setup_logged(
                    final(runtime).effects(),
                    old(runtime).effects().len() as int + 1,
                    joined(d, "polychat"@),
                    r,
                ),
            },
    {
        let ghost base = runtime.effects().len() as int;
        match runtime.current_dir() {
            None => Err(CoreError::NoWorkingDir),
            Some(cwd) => {
                let ghost asked = runtime.effects();
                let r = Core::new_from_dir(join_path(&cwd, "polychat"), runtime);
                proof {
                    assert(old(runtime).effects().is_prefix_of(asked));
                    assert(runtime.effects()[base] == asked[base]);
                }
                r
            },
        }
    }

    /// A host whose plugins lie in `plugins` below the given directory. The
    /// plugin directory is looked at once, and must be absolute, exist and
    /// be a directory. Nothing is created and no child is started.
    pub fn new_from_dir<H: Filesystem, G: GUI + ?Sized>(
        dir: String,
        runtime: &mut Runtime<'_, H, G>,
    ) -> (r: Result<Core<P>, CoreError>)
        ensures
            old(runtime).effects().is_prefix_of(final(runtime).effects()),
            setup_logged(final(runtime).effects(), old(runtime).effects().len() as int, dir@, r),
    {
        let plugin_dir = join_path(&dir, "plugins");
        let facts = runtime.probe(&plugin_dir);
        Core::with_plugin_dir(plugin_dir, facts)
    }

    pub fn get_dir(&self) -> (r: Option<String>)
        ensures
            crate::codec::text_view(r) == self.plugin_dir(),
    {
        self.proc_manager.get_dir()
    }

    pub fn loaded_count(&self) -> (r: usize)
        ensures
            r == self.loaded().len(),
    {
        self.proc_manager.loaded_count()
    }

    /// Takes in how the preparation of the plugin directory went: a failure
    /// ends the start with its message.
    pub fn prepared(created: Result<(), String>) -> (r: Result<(), CoreError>)
        ensures
            match created {
                Ok(()) => r.is_ok(),
                Err(m) => r == Err::<(), CoreError>(CoreError::Filesystem(m)),
            },
    {
        match created {
            Ok(()) => Ok(()),
            Err(m) => Err(CoreError::Filesystem(m)),
        }
    }

    /// Starts the host: tells the observer, prepares the plugin directory,
    /// loads the plugins in one pass, and tells the observer of the end. A
    /// pass that fails is reported to the observer and does not fail the
    /// start.
    pub fn run<H: Filesystem + Launcher<P>, G: GUI + ?Sized>(
        &mut self,
        runtime: &mut Runtime<'_, H, G>,
    ) -> (r: Result<(), CoreError>)
        ensures
            final(self).plugin_dir() == old(self).plugin_dir(),
            old(self).loaded().is_prefix_of(final(self).loaded()),
            old(runtime).effects().is_prefix_of(final(runtime).effects()),
            start_logged(
                final(runtime).effects(),
                old(runtime).effects().len() as int,
                final(runtime).effects().len() as int,
                old(self).plugin_dir(),
                final(self).loaded().len() - old(self).loaded().len(),
                r,
            ),
    {
        let ghost base = runtime.effects().len() as int;
        runtime.core_pre_init();
        let ghost begun = runtime.effects();
        let dir = match self.proc_manager.prepare_dir() {
            Ok(d) => d,
            Err(_) => {
                return Err(CoreError::NoPath);
            },
        };
        let created = runtime.create_dir_all(&dir);
        let ghost prepared = runtime.effects();
        match Core::<P>::prepared(created) {
            Ok(()) => {},
            Err(e) => {
                proof {
                    assert(old(runtime).effects().is_prefix_of(begun));
                    assert(begun.is_prefix_of(prepared));
                }
                return Err(e);
            },
        }
        let load_process_result = self.proc_manager.load_processes(runtime);
        let ghost passed = runtime.effects();
        let ghost added = self.loaded().len() - old(self).loaded().len();
        match &load_process_result {
            Ok(()) => {},
            Err(e) => {
                runtime.plugin_load_failure(e.to_string());
            },
        }
        let ghost reported = runtime.effects();
        runtime.core_post_init(self.proc_manager.get_dir());
        proof {
            let now = runtime.effects();
            assert(old(runtime).effects().is_prefix_of(begun));
            assert(begun.is_prefix_of(prepared));
            assert(prepared.is_prefix_of(passed));
            assert(passed.is_prefix_of(reported));
            assert(reported.is_prefix_of(now));
            assert(passed.is_prefix_of(now));
            assert(now[base] == begun[base]);
            assert(now[base + 1] == prepared[base + 1]);
            assert(now[base + 2] == passed[base + 2]);
            assert(now[passed.len() - 1] == passed[passed.len() - 1]);
            lemma_walk_logged_extends(
                passed,
                now,
                base + 3,
                passed.len() - 1,
                old(self).plugin_dir(),
                added,
                load_process_result,
            );
            assert(pass_logged(
                now,
                base + 2,
                passed.len() as int,
                old(self).plugin_dir(),
                added,
                load_process_result,
            ));
            if load_process_result.is_err() {
                assert(now[reported.len() - 1] == reported[reported.len() - 1]);
            }
            assert(pass_then_report(
                now,
                base + 2,
                now.len() - 1,
                old(self).plugin_dir().unwrap(),
                added,
                load_process_result,
            ));
        }
        Ok(())
    }
}

/// Whether a setup ended as a plugin directory with these facts calls for:
/// with a host on that directory, without children, if the directory is
/// absolute, exists and is a directory, and with the directory's defect
/// otherwise.
pub open spec fn setup_decided<P>(
    plugin_dir: Seq<char>,
    facts: PathFacts,
    outcome: Result<Core<P>, CoreError>,
) -> bool {
    match outcome {
        Ok(c) => directory_ok(facts) && c.plugin_dir() == Some(plugin_dir) && c.loaded() == Seq::<
            P,
        >::empty(),
        Err(e) => e matches CoreError::Directory(defect) && defect.is_defect_of(plugin_dir, facts),
    }
}

/// Whether the one effect from `from` on is the look at `plugins` below the
/// anchor directory, and the setup ended as that look calls for.
pub open spec fn setup_logged<P>(
    log: Seq<Effect>,
    from: int,
    anchor: Seq<char>,
    outcome: Result<Core<P>, CoreError>,
) -> bool {
    &&& 0 <= from
    &&& log.len() == from + 1
    &&& log[from] matches Effect::Probe { path, facts }
    &&& log[from]->Probe_path == joined(anchor, "plugins"@)
    &&& setup_decided(joined(anchor, "plugins"@), log[from]->Probe_facts, outcome)
}

} // verus!
