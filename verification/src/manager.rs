//! The plugin manager: validation of the plugin directory, the choice of
//! the executables in it, and the bring-up of one child per executable.

use vstd::prelude::*;
use crate::runtime::{Effect, Filesystem, Launcher, Runtime};
use crate::socket::{generate_random_ipc_id, is_endpoint_id};
use crate::ui::{GUI, LoadStatus, UiNotice};

verus! {

/// How deep below the plugin directory the executables lie: each plugin is
/// `<plugin directory>/<plugin name>/<executable>`.
pub const PLUGIN_DEPTH: usize = 2;

/// What a look at a path showed.
#[derive(Clone, Copy, Debug, PartialEq, Eq, Structural)]
pub struct PathFacts {
    pub is_absolute: bool,
    pub exists: bool,
    pub is_dir: bool,
}

/// Why a path cannot be the plugin directory.
#[derive(Debug, PartialEq, Eq)]
pub enum ProcessManagerError {
    NonExistent(String),
    RelativePath(String),
    NonDirectory(String),
}

/// Why the manager cannot work on its plugin directory.
#[derive(Debug, PartialEq, Eq)]
pub enum PluginManagerError {
    NonExistent(String),
    RelativePath(String),
    NonDirectory(String),
    NoPath,
}

/// Why a pass over the plugin directory ended early.
#[derive(Debug, PartialEq, Eq)]
pub enum LoadError {
    Directory(PluginManagerError),
    /// A child could not be brought up; the message says why.
    Launch(String),
}

/// Whether a path with these facts can be the plugin directory.
pub open spec fn directory_ok(facts: PathFacts) -> bool {
    facts.is_absolute && facts.exists && facts.is_dir
}

impl ProcessManagerError {
    /// The path that the error is about.
    pub open spec fn path(&self) -> Seq<char> {
        match self {
            ProcessManagerError::NonExistent(p) => p@,
            ProcessManagerError::RelativePath(p) => p@,
            ProcessManagerError::NonDirectory(p) => p@,
        }
    }

    /// Whether this is the error that a directory with these facts calls
    /// for: about that directory, and naming the first thing that is wrong
    /// with it.
    pub open spec fn is_defect_of(&self, dir: Seq<char>, facts: PathFacts) -> bool {
        &&& self.path() == dir
        &&& !directory_ok(facts)
        &&& self is RelativePath <==> !facts.is_absolute
        &&& self is NonExistent <==> facts.is_absolute && !facts.exists
        &&& self is NonDirectory <==> facts.is_absolute && facts.exists && !facts.is_dir
    }

    pub open spec fn message(&self) -> Seq<char> {
        match self {
            ProcessManagerError::NonExistent(p) => "Path '"@ + p@ + "' does not exist"@,
            ProcessManagerError::RelativePath(p) => "'"@ + p@ + "' is a relative path"@,
            ProcessManagerError::NonDirectory(p) => "'"@ + p@ + "' is not a directory"@,
        }
    }

    pub fn to_string(&self) -> (r: String)
        ensures
            r@ == self.message(),
    {
        match self {
            ProcessManagerError::NonExistent(p) => String::from_str("Path '").concat(
                p.as_str(),
            ).concat("' does not exist"),
            ProcessManagerError::RelativePath(p) => String::from_str("'").concat(p.as_str()).concat(
                "' is a relative path",
            ),
            ProcessManagerError::NonDirectory(p) => String::from_str("'").concat(p.as_str()).concat(
                "' is not a directory",
            ),
        }
    }
}

impl PluginManagerError {
    pub open spec fn message(&self) -> Seq<char> {
        match self {
            PluginManagerError::NonExistent(p) => "Path '"@ + p@ + "' does not exist"@,
            PluginManagerError::RelativePath(p) => "'"@ + p@ + "' is a relative path"@,
            PluginManagerError::NonDirectory(p) => "'"@ + p@ + "' is not a directory"@,
            PluginManagerError::NoPath => "Path is not set"@,
        }
    }

    pub fn to_string(&self) -> (r: String)
        ensures
            r@ == self.message(),
    {
        match self {
            PluginManagerError::NonExistent(p) => String::from_str("Path '").concat(
                p.as_str(),
            ).concat("' does not exist"),
            PluginManagerError::RelativePath(p) => String::from_str("'").concat(p.as_str()).concat(
                "' is a relative path",
            ),
            PluginManagerError::NonDirectory(p) => String::from_str("'").concat(p.as_str()).concat(
                "' is not a directory",
            ),
            PluginManagerError::NoPath => String::from_str("Path is not set"),
        }
    }

    /// The path that the error is about; none for `NoPath`.
    pub open spec fn path(&self) -> Option<Seq<char>> {
        match self {
            PluginManagerError::NonExistent(p) => Some(p@),
            PluginManagerError::RelativePath(p) => Some(p@),
            PluginManagerError::NonDirectory(p) => Some(p@),
            PluginManagerError::NoPath => None,
        }
    }

    /// Whether this is the error that a directory with these facts calls
    /// for: about that directory, and naming the first thing that is wrong
    /// with it.
    pub open spec fn is_defect_of(&self, dir: Seq<char>, facts: PathFacts) -> bool {
        &&& self.path() == Some(dir)
        &&& !directory_ok(facts)
        &&& self is RelativePath <==> !facts.is_absolute
        &&& self is NonExistent <==> facts.is_absolute && !facts.exists
        &&& self is NonDirectory <==> facts.is_absolute && facts.exists && !facts.is_dir
    }

    /// The same defect, as the manager reports it.
    pub open spec fn of_check(e: ProcessManagerError) -> PluginManagerError {
        match e {
            ProcessManagerError::NonExistent(p) => PluginManagerError::NonExistent(p),
            ProcessManagerError::RelativePath(p) => PluginManagerError::RelativePath(p),
            ProcessManagerError::NonDirectory(p) => PluginManagerError::NonDirectory(p),
        }
    }

    pub fn from_check(e: ProcessManagerError) -> (r: PluginManagerError)
        ensures
            r == Self::of_check(e),
    {
        match e {
            ProcessManagerError::NonExistent(p) => PluginManagerError::NonExistent(p),
            ProcessManagerError::RelativePath(p) => PluginManagerError::RelativePath(p),
            ProcessManagerError::NonDirectory(p) => PluginManagerError::NonDirectory(p),
        }
    }
}

impl LoadError {
    pub open spec fn message(&self) -> Seq<char> {
        match self {
            LoadError::Directory(e) => e.message(),
            LoadError::Launch(m) => m@,
        }
    }

    pub fn to_string(&self) -> (r: String)
        ensures
            r@ == self.message(),
    {
        match self {
            LoadError::Directory(e) => e.to_string(),
            LoadError::Launch(m) => m.clone(),
        }
    }
}

/// The path of `component` below `base`: the two with one `/` between them,
/// unless `base` is empty or ends in one already.
pub open spec fn joined(base: Seq<char>, component: Seq<char>) -> Seq<char> {
    if base.len() == 0 {
        component
    } else if base.last() == '/' {
        base + component
    } else {
        base + "/"@ + component
    }
}

pub fn join_path(base: &String, component: &str) -> (r: String)
    ensures
        r@ == joined(base@, component@),
{
    let n = base.as_str().unicode_len();
    if n == 0 {
        String::from_str(component)
    } else if base.as_str().get_char(n - 1) == '/' {
        base.clone().concat(component)
    } else {
        base.clone().concat("/").concat(component)
    }
}

/// Checks that a path can be the plugin directory: it is absolute, it
/// exists, and it is a directory. The first of these that fails is the
/// error, which carries the path.
pub fn check_directory(dir: &String, facts: PathFacts) -> (r: Result<(), ProcessManagerError>)
    ensures
        r.is_ok() == directory_ok(facts),
        r matches Err(e) ==> e.is_defect_of(dir@, facts),
{
    if !facts.is_absolute {
        return Err(ProcessManagerError::RelativePath(dir.clone()));
    }
    if !facts.exists {
        return Err(ProcessManagerError::NonExistent(dir.clone()));
    }
    if !facts.is_dir {
        return Err(ProcessManagerError::NonDirectory(dir.clone()));
    }
    Ok(())
}

/// One entry that the walk of the plugin directory found.
#[derive(Debug)]
pub struct WalkEntry {
    pub path: String,
    pub file_name: String,
    pub is_file: bool,
    /// The extension of the file name, empty where it has none.
    pub extension: String,
}

/// One step of the walk: an entry, or the message of an error on one.
#[derive(Debug)]
pub enum WalkItem {
    Entry(WalkEntry),
    Failed(String),
}

/// The extension that an executable has on the platform: `exe` on Windows,
/// none elsewhere.
pub open spec fn exec_extension_of(windows: bool) -> Seq<char> {
    if windows {
        "exe"@
    } else {
        ""@
    }
}

pub fn exec_extension(windows: bool) -> (r: &'static str)
    ensures
        r@ == exec_extension_of(windows),
{
    if windows {
        "exe"
    } else {
        ""
    }
}

/// Whether an entry is a plugin's executable: a regular file with the
/// platform's extension for executables.
pub open spec fn is_expected_file(entry: WalkEntry, extension: Seq<char>) -> bool {
    entry.is_file && entry.extension@ == extension
}

pub fn expected_file(entry: &WalkEntry, extension: &str) -> (r: bool)
    ensures
        r == is_expected_file(*entry, extension@),
{
    entry.is_file && crate::json::text_is(&entry.extension, extension)
}

/// Whether a step of the walk leads to a launch. An error on an entry is
/// passed over.
pub open spec fn is_selected(item: WalkItem, extension: Seq<char>) -> bool {
    match item {
        WalkItem::Entry(entry) => is_expected_file(entry, extension),
        WalkItem::Failed(_) => false,
    }
}

/// Owns the child wrappers of the plugins it has loaded, and knows the
/// plugin directory.
#[derive(Debug)]
pub struct ProcessManager<P> {
    dir: Option<String>,
    loaded_processes: Vec<P>,
}

impl<P> ProcessManager<P> {
    /// The plugin directory, if one is set.
    pub closed spec fn dir(&self) -> Option<Seq<char>> {
        crate::codec::text_view(self.dir)
    }

    /// The child wrappers, in the order in which they were loaded.
    pub closed spec fn loaded(&self) -> Seq<P> {
        self.loaded_processes@
    }

    /// A manager without a directory and without children.
    pub fn new() -> (r: ProcessManager<P>)
        ensures
            r.dir().is_none(),
            r.loaded() == Seq::<P>::empty(),
    {
        ProcessManager { dir: None, loaded_processes: Vec::new() }
    }

    /// A manager for the directory at `path`, which must be absolute, exist
    /// and be a directory.
    pub fn from_dir_str(path: &str, facts: PathFacts) -> (r: Result<
        ProcessManager<P>,
        ProcessManagerError,
    >)
        ensures
            r.is_ok() == directory_ok(facts),
            r matches Ok(m) ==> m.dir() == Some(path@) && m.loaded() == Seq::<P>::empty(),
            r matches Err(e) ==> e.is_defect_of(path@, facts),
    {
        ProcessManager::from_dir_path(String::from_str(path), facts)
    }

    /// A manager for the directory `dir`, which must be absolute, exist and
    /// be a directory. No child is started.
    pub fn from_dir_path(dir: String, facts: PathFacts) -> (r: Result<
        ProcessManager<P>,
        ProcessManagerError,
    >)
        ensures
            r.is_ok() == directory_ok(facts),
            r matches Ok(m) ==> m.dir() == Some(dir@) && m.loaded() == Seq::<P>::empty(),
            r matches Err(e) ==> e.is_defect_of(dir@, facts),
    {
        match check_directory(&dir, facts) {
            Ok(()) => Ok(ProcessManager { dir: Some(dir), loaded_processes: Vec::new() }),
            Err(e) => Err(e),
        }
    }

    pub fn get_dir(&self) -> (r: Option<String>)
        ensures
            crate::codec::text_view(r) == self.dir(),
    {
        match &self.dir {
            Some(d) => Some(d.clone()),
            None => None,
        }
    }

    pub fn loaded_count(&self) -> (r: usize)
        ensures
            r == self.loaded().len(),
    {
        self.loaded_processes.len()
    }

    /// The directory that must exist before plugins are loaded, to be
    /// created with its ancestors where it is missing; `NoPath` where the
    /// manager has no directory.
    pub fn prepare_dir(&self) -> (r: Result<String, PluginManagerError>)
        ensures
            match r {
                Ok(d) => self.dir() == Some(d@),
                Err(e) => e == PluginManagerError::NoPath && self.dir().is_none(),
            },
    {
        match &self.dir {
            Some(d) => Ok(d.clone()),
            None => Err(PluginManagerError::NoPath),
        }
    }

    /// Takes in the outcome of a bring-up: a child that came up is kept,
    /// after those loaded before it; a failure changes nothing and is handed
    /// on with its message.
    pub fn keep_process(&mut self, outcome: Result<P, String>) -> (r: Result<(), LoadError>)
        ensures
            match outcome {
                Ok(p) => r.is_ok() && final(self).loaded() == old(self).loaded().push(p),
                Err(m) => r == Err::<(), LoadError>(LoadError::Launch(m)) && final(self).loaded()
                    == old(self).loaded(),
            },
            final(self).dir() == old(self).dir(),
    {
        match outcome {
            Ok(p) => {
                self.loaded_processes.push(p);
                Ok(())
            },
            Err(m) => Err(LoadError::Launch(m)),
        }
    }

    /// Brings up one child: mints a fresh endpoint name, has the platform
    /// bind the endpoint and start the executable on it, and keeps the
    /// child. Whatever the platform answers, the manager has one child more
    /// after a success and the same children after a failure; either way one
    /// launch was asked for, of this executable, on a well-formed endpoint
    /// name.
    pub fn load_process<H: Filesystem + Launcher<P>, G: GUI + ?Sized>(
        &mut self,
        path: &String,
        runtime: &mut Runtime<'_, H, G>,
    ) -> (r: Result<(), LoadError>)
        ensures
            final(self).dir() == old(self).dir(),
            r.is_ok() ==> final(self).loaded().len() == old(self).loaded().len() + 1
                && final(self).loaded().drop_last() == old(self).loaded(),
            r matches Err(e) ==> e is Launch && final(self).loaded() == old(self).loaded(),
            final(runtime).effects().len() == old(runtime).effects().len() + 1,
            final(runtime).effects().drop_last() == old(runtime).effects(),
            launch_logged(final(runtime).effects().last(), path@, r.is_ok()),
    {
        let socket_name = generate_random_ipc_id();
        let outcome = runtime.launch(path, &socket_name);
        let r = self.keep_process(outcome);
        proof {
            if r.is_ok() {
                assert(final(self).loaded().drop_last() =~= old(self).loaded());
            }
            assert(final(runtime).effects().drop_last() =~= old(runtime).effects());
        }
        r
    }

    /// Validates the plugin directory before a pass: `NoPath` without a
    /// directory, else the directory's defect, else the directory to walk.
    pub fn directory_to_walk(&self, facts: PathFacts) -> (r: Result<String, PluginManagerError>)
        ensures
            r.is_ok() == (self.dir().is_some() && directory_ok(facts)),
            r matches Ok(d) ==> self.dir() == Some(d@),
            r matches Err(e) ==> self.dir().is_none() && e == PluginManagerError::NoPath
                || self.dir().is_some() && e.is_defect_of(self.dir().unwrap(), facts),
    {
        match &self.dir {
            None => Err(PluginManagerError::NoPath),
            Some(d) => match check_directory(d, facts) {
                Ok(()) => Ok(d.clone()),
                Err(e) => Err(PluginManagerError::from_check(e)),
            },
        }
    }

    /// Brings up a child for every executable among the items of a walk, in
    /// the walk's order, and tells the observer of each. Errors of the walk
    /// are passed over. The first child that fails to come up ends the pass:
    /// the observer is told, and the error is handed on.
    pub fn load_entries<H: Filesystem + Launcher<P>, G: GUI + ?Sized>(
        &mut self,
        items: &Vec<WalkItem>,
        extension: &str,
        runtime: &mut Runtime<'_, H, G>,
    ) -> (r: Result<(), LoadError>)
        ensures
            final(self).dir() == old(self).dir(),
            old(self).loaded().is_prefix_of(final(self).loaded()),
            old(runtime).effects().is_prefix_of(final(runtime).effects()),
            entries_logged(
                final(runtime).effects(),
                old(runtime).effects().len() as int,
                final(runtime).effects().len() as int,
                items@,
                extension@,
                final(self).loaded().len() - old(self).loaded().len(),
                r,
            ),
    {
        let ghost base = runtime.effects().len() as int;
        let ghost all = selected_entries(items@, extension@, items@.len() as int);
        let mut i: usize = 0;
        while i < items.len()
            invariant
                i <= items@.len(),
                base == old(runtime).effects().len(),
                all == selected_entries(items@, extension@, items@.len() as int),
                self.dir() == old(self).dir(),
                old(self).loaded().is_prefix_of(self.loaded()),
                old(runtime).effects().is_prefix_of(runtime.effects()),
                self.loaded().len() - old(self).loaded().len() == selected_entries(
                    items@,
                    extension@,
                    i as int,
                ).len(),
                runtime.effects().len() == base + 2 * (self.loaded().len() - old(self).loaded().len()),
                forall|j: int|
                    0 <= j < self.loaded().len() - old(self).loaded().len() ==> #[trigger] loaded_at(
                        runtime.effects(),
                        base,
                        j,
                        all,
                    ),
            decreases items@.len() - i,
        {
            let ghost count = self.loaded().len() - old(self).loaded().len();
            proof {
                lemma_selected_prefix(items@, extension@, i as int + 1, items@.len() as int);
            }
            match &items[i] {
                WalkItem::Entry(entry) => {
                    if expected_file(entry, extension) {
                        let ghost before = self.loaded();
                        let ghost told = runtime.effects();
                        proof {
                            let next = selected_entries(items@, extension@, i as int + 1);
                            assert(items@[i as int] == WalkItem::Entry(*entry));
                            assert(is_selected(items@[i as int], extension@));
                            assert(next == selected_entries(items@, extension@, i as int).push(
                                *entry,
                            ));
                            assert(next[count] == *entry);
                            assert(all[count] == next[count]);
                        }
                        match self.load_process(&entry.path, runtime) {
                            Ok(()) => {
                                let ghost launched = runtime.effects();
                                runtime.plugin_loaded(entry.file_name.clone());
                                proof {
                                    let now = runtime.effects();
                                    assert(before =~= self.loaded().drop_last());
                                    assert(old(self).loaded().is_prefix_of(self.loaded()));
                                    assert(told =~= launched.drop_last());
                                    assert(told.is_prefix_of(now));
                                    assert(now[base + 2 * count] == launched.last());
                                    assert(loaded_at(now, base, count, all));
                                    assert forall|j: int| 0 <= j < count + 1 implies #[trigger] loaded_at(
                                        now,
                                        base,
                                        j,
                                        all,
                                    ) by {
                                        if j < count {
                                            assert(loaded_at(told, base, j, all));
                                            assert(now[base + 2 * j] == told[base + 2 * j]);
                                            assert(now[base + 2 * j + 1] == told[base + 2 * j + 1]);
                                        }
                                    }
                                }
                            },
                            Err(e) => {
                                let ghost launched = runtime.effects();
                                runtime.plugin_load_failure(e.to_string());
                                proof {
                                    let now = runtime.effects();
                                    assert(told =~= launched.drop_last());
                                    assert(told.is_prefix_of(now));
                                    assert(now[base + 2 * count] == launched.last());
                                    assert forall|j: int| 0 <= j < count implies #[trigger] loaded_at(
                                        now,
                                        base,
                                        j,
                                        all,
                                    ) by {
                                        assert(loaded_at(told, base, j, all));
                                        assert(now[base + 2 * j] == told[base + 2 * j]);
                                        assert(now[base + 2 * j + 1] == told[base + 2 * j + 1]);
                                    }
                                }
                                return Err(e);
                            },
                        }
                    }
                },
                WalkItem::Failed(_) => {},
            }
            i += 1;
        }
        Ok(())
    }

    /// Loads the plugins of the manager's directory and tells the observer.
    ///
    /// The pass is bracketed: the observer hears `Started` first and
    /// `Finished` last, however the pass ends. Without a directory the pass
    /// fails with `NoPath` and nothing else happens. With one, the directory
    /// is looked at; if it is found wanting the pass fails with the defect,
    /// and nothing is walked and no child is started. Otherwise the
    /// directory is walked and a child is brought up for each executable
    /// found, in the walk's order, up to the first that fails.
    pub fn load_processes<H: Filesystem + Launcher<P>, G: GUI + ?Sized>(
        &mut self,
        runtime: &mut Runtime<'_, H, G>,
    ) -> (r: Result<(), LoadError>)
        ensures
            final(self).dir() == old(self).dir(),
            old(self).loaded().is_prefix_of(final(self).loaded()),
            old(runtime).effects().is_prefix_of(final(runtime).effects()),
            pass_logged(
                final(runtime).effects(),
                old(runtime).effects().len() as int,
                final(runtime).effects().len() as int,
                old(self).dir(),
                final(self).loaded().len() - old(self).loaded().len(),
                r,
            ),
    {
        let ghost base = runtime.effects().len() as int;
        runtime.status_change(LoadStatus::Started);
        let ghost started = runtime.effects();
        let r = self.walk_and_load(runtime);
        let ghost inner = runtime.effects();
        runtime.status_change(LoadStatus::Finished);
        proof {
            let now = runtime.effects();
            assert(old(runtime).effects().is_prefix_of(started));
            assert(started.is_prefix_of(inner));
            assert(inner.is_prefix_of(now));
            assert(now[base] == started[base]);
            assert(inner.len() > base + 1 ==> now[base + 1] == inner[base + 1]);
            assert(inner.len() > base + 2 ==> now[base + 2] == inner[base + 2]);
            lemma_walk_logged_extends(
                inner,
                now,
                base + 1,
                inner.len() as int,
                old(self).dir(),
                final(self).loaded().len() - old(self).loaded().len(),
                r,
            );
        }
        r
    }

    /// The pass between its two status notices.
    fn walk_and_load<H: Filesystem + Launcher<P>, G: GUI + ?Sized>(
        &mut self,
        runtime: &mut Runtime<'_, H, G>,
    ) -> (r: Result<(), LoadError>)
        ensures
            final(self).dir() == old(self).dir(),
            old(self).loaded().is_prefix_of(final(self).loaded()),
            old(runtime).effects().is_prefix_of(final(runtime).effects()),
            walk_logged(
                final(runtime).effects(),
                old(runtime).effects().len() as int,
                final(runtime).effects().len() as int,
                old(self).dir(),
                final(self).loaded().len() - old(self).loaded().len(),
                r,
            ),
    {
        let ghost base = runtime.effects().len() as int;
        let dir = match &self.dir {
            None => {
                return Err(LoadError::Directory(PluginManagerError::NoPath));
            },
            Some(d) => d.clone(),
        };
        let facts = runtime.probe(&dir);
        let ghost probed = runtime.effects();
        match self.directory_to_walk(facts) {
            Err(e) => Err(LoadError::Directory(e)),
            Ok(dir) => {
                let (items, windows) = runtime.walk(&dir);
                let ghost walked = runtime.effects();
                let r = self.load_entries(&items, exec_extension(windows), runtime);
                proof {
                    let now = runtime.effects();
                    assert(old(runtime).effects().is_prefix_of(probed));
                    assert(probed.is_prefix_of(walked));
                    assert(walked.is_prefix_of(now));
                    assert(now[base] == probed[base]);
                    assert(now[base + 1] == walked[base + 1]);
                }
                r
            },
        }
    }
}

/// Whether an effect is the launch of the executable at `path` on a
/// well-formed endpoint name, with the given outcome.
pub open spec fn launch_logged(effect: Effect, path: Seq<char>, started: bool) -> bool {
    effect matches Effect::Launch { executable, endpoint, started: s } && executable == path
        && is_endpoint_id(endpoint) && s == started
}

/// The executables among the first `upto` items of a walk, in the walk's
/// order.
pub open spec fn selected_entries(items: Seq<WalkItem>, extension: Seq<char>, upto: int) -> Seq<
    WalkEntry,
>
    decreases upto,
{
    if upto <= 0 || upto > items.len() {
        Seq::empty()
    } else if is_selected(items[upto - 1], extension) {
        selected_entries(items, extension, upto - 1).push(items[upto - 1]->Entry_0)
    } else {
        selected_entries(items, extension, upto - 1)
    }
}

/// Whether the log shows, two effects further on for each earlier child, the
/// successful launch of the `j`-th executable and then the notice that it
/// was loaded.
pub open spec fn loaded_at(log: Seq<Effect>, from: int, j: int, selected: Seq<WalkEntry>) -> bool {
    &&& 0 <= j < selected.len()
    &&& 0 <= from + 2 * j
    &&& from + 2 * j + 1 < log.len()
    &&& launch_logged(log[from + 2 * j], selected[j].path@, true)
    &&& log[from + 2 * j + 1] == Effect::Notice(UiNotice::PluginLoaded(selected[j].file_name@))
}

/// Whether the effects from `from` up to `upto` are those of bringing up the
/// executables of a walk: for each executable in turn a launch and the
/// notice that it was loaded, `added` times; then, if the pass failed, the
/// failed launch of the next executable and the notice of the failure; and,
/// if it did not fail, nothing more, every executable having been loaded.
pub open spec fn entries_logged(
    log: Seq<Effect>,
    from: int,
    upto: int,
    items: Seq<WalkItem>,
    extension: Seq<char>,
    added: int,
    outcome: Result<(), LoadError>,
) -> bool {
    let selected = selected_entries(items, extension, items.len() as int);
    &&& 0 <= from <= upto <= log.len()
    &&& 0 <= added <= selected.len()
    &&& forall|j: int| 0 <= j < added ==> #[trigger] loaded_at(log, from, j, selected)
    &&& match outcome {
        Ok(()) => added == selected.len() && upto == from + 2 * added,
        Err(e) => {
            &&& added < selected.len()
            &&& upto == from + 2 * added + 2
            &&& launch_logged(log[from + 2 * added], selected[added].path@, false)
            &&& e is Launch
            &&& log[from + 2 * added + 1] == Effect::Notice(UiNotice::PluginLoadFailure(e.message()))
        },
    }
}

/// Whether the effects from `from` up to `upto` are those of a pass between
/// its two status notices.
pub open spec fn walk_logged(
    log: Seq<Effect>,
    from: int,
    upto: int,
    dir: Option<Seq<char>>,
    added: int,
    outcome: Result<(), LoadError>,
) -> bool {
    &&& 0 <= from <= upto <= log.len()
    &&& match dir {
        None => upto == from && added == 0 && outcome == Err::<(), LoadError>(
            LoadError::Directory(PluginManagerError::NoPath),
        ),
        Some(d) => {
            &&& upto >= from + 1
            &&& log[from] matches Effect::Probe { path, facts }
            &&& log[from]->Probe_path == d
            &&& if !directory_ok(log[from]->Probe_facts) {
                &&& upto == from + 1
                &&& added == 0
                &&& outcome matches Err(LoadError::Directory(e))
                &&& outcome->Err_0->Directory_0.is_defect_of(d, log[from]->Probe_facts)
            } else {
                &&& upto >= from + 2
                &&& log[from + 1] matches Effect::Walk { dir: walked, items, windows }
                &&& log[from + 1]->Walk_dir == d
                &&& entries_logged(
                    log,
                    from + 2,
                    upto,
                    log[from + 1]->Walk_items,
                    exec_extension_of(log[from + 1]->Walk_windows),
                    added,
                    outcome,
                )
            }
        },
    }
}

/// Whether the effects from `from` up to `upto` are those of one whole pass
/// over the plugin directory `dir`, which added `added` children and ended
/// with `outcome`: `Started`, the pass itself, `Finished`.
pub open spec fn pass_logged(
    log: Seq<Effect>,
    from: int,
    upto: int,
    dir: Option<Seq<char>>,
    added: int,
    outcome: Result<(), LoadError>,
) -> bool {
    &&& 0 <= from
    &&& from + 2 <= upto <= log.len()
    &&& log[from] == Effect::Notice(UiNotice::StatusChange(LoadStatus::Started))
    &&& log[upto - 1] == Effect::Notice(UiNotice::StatusChange(LoadStatus::Finished))
    &&& walk_logged(log, from + 1, upto - 1, dir, added, outcome)
}

/// The executables among the first items of a walk are the first of the
/// executables among all its items.
pub proof fn lemma_selected_prefix(items: Seq<WalkItem>, extension: Seq<char>, from: int, upto: int)
    requires
        0 <= from <= upto <= items.len(),
    ensures
        selected_entries(items, extension, from).is_prefix_of(
            selected_entries(items, extension, upto),
        ),
    decreases upto - from,
{
    if from < upto {
        lemma_selected_prefix(items, extension, from, upto - 1);
    }
}

/// What a log shows of a pass, a longer log shows too.
pub proof fn lemma_walk_logged_extends(
    log: Seq<Effect>,
    longer: Seq<Effect>,
    from: int,
    upto: int,
    dir: Option<Seq<char>>,
    added: int,
    outcome: Result<(), LoadError>,
)
    requires
        log.is_prefix_of(longer),
        walk_logged(log, from, upto, dir, added, outcome),
    ensures
        walk_logged(longer, from, upto, dir, added, outcome),
{
    if dir.is_some() && directory_ok(log[from]->Probe_facts) {
        let items = log[from + 1]->Walk_items;
        let extension = exec_extension_of(log[from + 1]->Walk_windows);
        let selected = selected_entries(items, extension, items.len() as int);
        assert(longer[from] == log[from]);
        assert(longer[from + 1] == log[from + 1]);
        assert forall|j: int| 0 <= j < added implies #[trigger] loaded_at(
            longer,
            from + 2,
            j,
            selected,
        ) by {
            assert(loaded_at(log, from + 2, j, selected));
            assert(longer[from + 2 + 2 * j] == log[from + 2 + 2 * j]);
            assert(longer[from + 2 + 2 * j + 1] == log[from + 2 + 2 * j + 1]);
        }
        if outcome.is_err() {
            assert(longer[from + 2 + 2 * added] == log[from + 2 + 2 * added]);
            assert(longer[from + 2 + 2 * added + 1] == log[from + 2 + 2 * added + 1]);
        }
    } else if dir.is_some() {
        assert(longer[from] == log[from]);
    }
}

/// Two passes over walks that found the same items bring up the same
/// executables in the same order, whatever else differs between them.
pub proof fn lemma_same_walk_same_launches(
    first: Seq<Effect>,
    first_from: int,
    first_upto: int,
    first_added: int,
    second: Seq<Effect>,
    second_from: int,
    second_upto: int,
    second_added: int,
    items: Seq<WalkItem>,
    extension: Seq<char>,
)
    requires
        entries_logged(first, first_from, first_upto, items, extension, first_added, Ok(())),
        entries_logged(second, second_from, second_upto, items, extension, second_added, Ok(())),
    ensures
        first_added == second_added,
        first_upto - first_from == second_upto - second_from,
        forall|j: int|
            0 <= j < first_added ==> (#[trigger] first[first_from + 2 * j])->Launch_executable
                == second[second_from + 2 * j]->Launch_executable,
{
    let selected = selected_entries(items, extension, items.len() as int);
    assert forall|j: int| 0 <= j < first_added implies (#[trigger] first[first_from + 2
        * j])->Launch_executable == second[second_from + 2 * j]->Launch_executable by {
        assert(loaded_at(first, first_from, j, selected));
        assert(loaded_at(second, second_from, j, selected));
    }
}

} // verus!
