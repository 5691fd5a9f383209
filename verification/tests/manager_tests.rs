use std::cell::RefCell;
use std::path::Path;

use polychat_ipc::host::{Core, CoreError};
use polychat_ipc::manager::{
    check_directory, exec_extension, expected_file, join_path, LoadError, PathFacts,
    PluginManagerError, ProcessManager, ProcessManagerError, WalkEntry, WalkItem, PLUGIN_DEPTH,
};
use polychat_ipc::runtime::{Filesystem, Launcher, Runtime};
use polychat_ipc::schema::InitDataInstruction;
use polychat_ipc::socket::is_valid_endpoint_id;
use polychat_ipc::ui::{LoadStatus, GUI};

#[derive(Debug)]
struct Child {
    executable: String,
    endpoint_name: String,
}

struct FakePlatform {
    home: Option<String>,
    cwd: Option<String>,
    facts: PathFacts,
    items: Vec<(String, bool, &'static str, bool)>,
    walk_errors_first: usize,
    failing: Vec<String>,
    create_error: Option<String>,
    windows: bool,
    calls: Vec<String>,
}

impl FakePlatform {
    fn new() -> FakePlatform {
        FakePlatform {
            home: Some("/home/user".to_string()),
            cwd: Some("/srv/work".to_string()),
            facts: PathFacts { is_absolute: true, exists: true, is_dir: true },
            items: Vec::new(),
            walk_errors_first: 0,
            failing: Vec::new(),
            create_error: None,
            windows: false,
            calls: Vec::new(),
        }
    }

    fn with_files(names: &[&str]) -> FakePlatform {
        let mut platform = FakePlatform::new();
        for name in names {
            platform.items.push((name.to_string(), true, "", true));
        }
        platform
    }
}

impl Filesystem for FakePlatform {
    fn home_dir(&mut self) -> Option<String> {
        self.home.clone()
    }

    fn current_dir(&mut self) -> Option<String> {
        self.cwd.clone()
    }

    fn create_dir_all(&mut self, path: &String) -> Result<(), String> {
        self.calls.push(format!("create {}", path));
        match &self.create_error {
            Some(message) => Err(message.clone()),
            None => Ok(()),
        }
    }

    fn probe(&mut self, path: &String) -> PathFacts {
        self.calls.push(format!("probe {}", path));
        self.facts
    }

    fn walk(&mut self, dir: &String) -> Vec<WalkItem> {
        self.calls.push(format!("walk {}", dir));
        let mut out = Vec::new();
        for _ in 0..self.walk_errors_first {
            out.push(WalkItem::Failed("permission denied".to_string()));
        }
        for (name, is_file, extension, _) in &self.items {
            out.push(WalkItem::Entry(WalkEntry {
                path: format!("{}/{}/{}", dir, name, name),
                file_name: name.clone(),
                is_file: *is_file,
                extension: extension.to_string(),
            }));
        }
        out
    }

    fn is_windows(&mut self) -> bool {
        self.windows
    }
}

impl Launcher<Child> for FakePlatform {
    fn launch(&mut self, executable: &String, endpoint_name: &String) -> Result<Child, String> {
        self.calls.push(format!("launch {}", executable));
        assert!(is_valid_endpoint_id(endpoint_name));
        if self.failing.iter().any(|f| executable.ends_with(f.as_str())) {
            Err(format!("cannot start {}", executable))
        } else {
            Ok(Child { executable: executable.clone(), endpoint_name: endpoint_name.clone() })
        }
    }
}

struct Screen {
    seen: RefCell<Vec<String>>,
}

impl Screen {
    fn new() -> Screen {
        Screen { seen: RefCell::new(Vec::new()) }
    }

    fn seen(&self) -> Vec<String> {
        self.seen.borrow().clone()
    }
}

impl GUI for Screen {
    fn on_core_pre_init(&self) {
        self.seen.borrow_mut().push("pre_init".to_string());
    }

    fn on_core_post_init(&self, plugin_loaded_dir: Option<String>) {
        self.seen.borrow_mut().push(format!("post_init {:?}", plugin_loaded_dir));
    }

    fn on_plugin_loaded(&self, plugin_name: String) {
        self.seen.borrow_mut().push(format!("loaded {}", plugin_name));
    }

    fn on_plugin_load_failure(&self, error_msg: String) {
        self.seen.borrow_mut().push(format!("failure {}", error_msg));
    }

    fn on_plugins_loaded_status_change(&self, status: LoadStatus) {
        self.seen.borrow_mut().push(format!("status {:?}", status));
    }

    fn on_plugin_init(&self, plugin_init_data: InitDataInstruction) {
        self.seen.borrow_mut().push(format!("init {:?}", plugin_init_data));
    }
}

fn facts_of(path: &str) -> PathFacts {
    let p = Path::new(path);
    PathFacts { is_absolute: p.is_absolute(), exists: p.exists(), is_dir: p.is_dir() }
}

const GOOD: PathFacts = PathFacts { is_absolute: true, exists: true, is_dir: true };

#[test]
fn test_loading_from_relative_path() {
    assert!(ProcessManager::<Child>::from_dir_str("./plugins", facts_of("./plugins")).is_err());
}

#[test]
fn test_loading_from_file() {
    assert!(ProcessManager::<Child>::from_dir_str("/etc/passwd", facts_of("/etc/passwd")).is_err());
}

#[test]
fn relative_plugin_path_rejected() {
    let err = ProcessManager::<Child>::from_dir_str("./plugins", facts_of("./plugins")).unwrap_err();
    assert_eq!(err, ProcessManagerError::RelativePath("./plugins".to_string()));
    assert_eq!(err.to_string(), "'./plugins' is a relative path");
}

#[test]
fn directory_validation_reports_the_first_defect() {
    let dir = "/plugins".to_string();
    for is_absolute in [false, true] {
        for exists in [false, true] {
            for is_dir in [false, true] {
                let facts = PathFacts { is_absolute, exists, is_dir };
                let expected = if !is_absolute {
                    Err(ProcessManagerError::RelativePath(dir.clone()))
                } else if !exists {
                    Err(ProcessManagerError::NonExistent(dir.clone()))
                } else if !is_dir {
                    Err(ProcessManagerError::NonDirectory(dir.clone()))
                } else {
                    Ok(())
                };
                assert_eq!(check_directory(&dir, facts), expected);
                let made = ProcessManager::<Child>::from_dir_path(dir.clone(), facts);
                assert_eq!(made.is_ok(), expected.is_ok());
                if let Err(e) = made {
                    assert_eq!(Err(e), expected);
                }
            }
        }
    }
}

#[test]
fn directory_validation_on_real_paths() {
    assert_eq!(
        check_directory(&"/etc/passwd".to_string(), facts_of("/etc/passwd")),
        Err(ProcessManagerError::NonDirectory("/etc/passwd".to_string()))
    );
    assert_eq!(
        check_directory(&"/no/such/dir".to_string(), facts_of("/no/such/dir")),
        Err(ProcessManagerError::NonExistent("/no/such/dir".to_string()))
    );
    assert_eq!(check_directory(&"/".to_string(), facts_of("/")), Ok(()));
}

#[test]
fn error_messages() {
    assert_eq!(
        ProcessManagerError::NonExistent("/p".to_string()).to_string(),
        "Path '/p' does not exist"
    );
    assert_eq!(
        ProcessManagerError::NonDirectory("/p".to_string()).to_string(),
        "'/p' is not a directory"
    );
    assert_eq!(
        PluginManagerError::NonExistent("/p".to_string()).to_string(),
        "Path '/p' does not exist"
    );
    assert_eq!(
        PluginManagerError::RelativePath("p".to_string()).to_string(),
        "'p' is a relative path"
    );
    assert_eq!(
        PluginManagerError::NonDirectory("/p".to_string()).to_string(),
        "'/p' is not a directory"
    );
    assert_eq!(PluginManagerError::NoPath.to_string(), "Path is not set");
    assert_eq!(
        PluginManagerError::from_check(ProcessManagerError::RelativePath("p".to_string())),
        PluginManagerError::RelativePath("p".to_string())
    );
    assert_eq!(LoadError::Launch("boom".to_string()).to_string(), "boom");
    assert_eq!(LoadError::Directory(PluginManagerError::NoPath).to_string(), "Path is not set");
    assert_eq!(CoreError::NoHome.to_string(), "No home dir found");
    assert_eq!(CoreError::Filesystem("disk full".to_string()).to_string(), "disk full");
}

#[test]
fn a_manager_without_a_directory() {
    let mut manager = ProcessManager::<Child>::new();
    assert_eq!(manager.get_dir(), None);
    assert_eq!(manager.loaded_count(), 0);
    assert_eq!(manager.prepare_dir(), Err(PluginManagerError::NoPath));
    assert_eq!(manager.directory_to_walk(GOOD), Err(PluginManagerError::NoPath));

    let screen = Screen::new();
    let mut platform = FakePlatform::with_files(&["a"]);
    let result = manager.load_processes(&mut Runtime::new(&mut platform, Some(&screen)));
    assert_eq!(result, Err(LoadError::Directory(PluginManagerError::NoPath)));
    assert_eq!(screen.seen(), vec!["status Started", "status Finished"]);
    assert!(platform.calls.is_empty());
}

#[test]
fn a_manager_with_a_directory_prepares_it() {
    let manager = ProcessManager::<Child>::from_dir_str("/opt/plugins", GOOD).unwrap();
    assert_eq!(manager.get_dir(), Some("/opt/plugins".to_string()));
    assert_eq!(manager.prepare_dir(), Ok("/opt/plugins".to_string()));
    assert_eq!(manager.directory_to_walk(GOOD), Ok("/opt/plugins".to_string()));
    assert_eq!(
        manager.directory_to_walk(PathFacts { is_absolute: true, exists: false, is_dir: false }),
        Err(PluginManagerError::NonExistent("/opt/plugins".to_string()))
    );
    assert_eq!(
        manager.directory_to_walk(PathFacts { is_absolute: true, exists: true, is_dir: false }),
        Err(PluginManagerError::NonDirectory("/opt/plugins".to_string()))
    );
    assert_eq!(
        manager.directory_to_walk(PathFacts { is_absolute: false, exists: true, is_dir: true }),
        Err(PluginManagerError::RelativePath("/opt/plugins".to_string()))
    );
}

#[test]
fn executables_are_regular_files_with_the_platform_extension() {
    assert_eq!(PLUGIN_DEPTH, 2);
    assert_eq!(exec_extension(true), "exe");
    assert_eq!(exec_extension(false), "");
    let entry = |is_file: bool, extension: &str| WalkEntry {
        path: "/p/a/a".to_string(),
        file_name: "a".to_string(),
        is_file,
        extension: extension.to_string(),
    };
    assert!(expected_file(&entry(true, ""), ""));
    assert!(!expected_file(&entry(false, ""), ""));
    assert!(!expected_file(&entry(true, "exe"), ""));
    assert!(!expected_file(&entry(true, "sh"), ""));
    assert!(expected_file(&entry(true, "exe"), "exe"));
    assert!(!expected_file(&entry(true, ""), "exe"));
    assert!(!expected_file(&entry(false, "exe"), "exe"));
    assert!(!expected_file(&entry(true, "EXE"), "exe"));
}

#[test]
fn a_pass_loads_every_executable_between_started_and_finished() {
    let mut manager = ProcessManager::<Child>::from_dir_str("/opt/plugins", GOOD).unwrap();
    let mut platform = FakePlatform::with_files(&["alpha", "beta", "gamma"]);
    platform.items.insert(1, ("docs".to_string(), false, "", false));
    platform.items.insert(2, ("notes.txt".to_string(), true, "txt", false));
    platform.walk_errors_first = 2;
    let screen = Screen::new();

    assert_eq!(manager.load_processes(&mut Runtime::new(&mut platform, Some(&screen))), Ok(()));
    assert_eq!(manager.loaded_count(), 3);
    assert_eq!(
        screen.seen(),
        vec!["status Started", "loaded alpha", "loaded beta", "loaded gamma", "status Finished"]
    );
    assert_eq!(
        platform.calls,
        vec![
            "probe /opt/plugins",
            "walk /opt/plugins",
            "launch /opt/plugins/alpha/alpha",
            "launch /opt/plugins/beta/beta",
            "launch /opt/plugins/gamma/gamma"
        ]
    );
}

#[test]
fn a_pass_over_one_or_three_plugins_loads_them_all() {
    for plugin_count in [1usize, 3] {
        let names: Vec<String> = (0..plugin_count).map(|i| format!("plugin{}", i)).collect();
        let refs: Vec<&str> = names.iter().map(|n| n.as_str()).collect();
        let mut platform = FakePlatform::with_files(&refs);
        let made = ProcessManager::<Child>::from_dir_path("/opt/plugins".to_string(), GOOD);
        assert!(made.is_ok());
        let mut manager = made.unwrap();
        let mut runtime = Runtime::<FakePlatform, Screen>::new(&mut platform, None);
        assert_eq!(manager.load_processes(&mut runtime), Ok(()));
        assert_eq!(manager.loaded_count(), plugin_count);
    }
}

#[test]
fn a_single_executable_is_loaded_directly() {
    let mut platform = FakePlatform::new();
    let mut process_manager = ProcessManager::<Child>::new();
    let loaded = process_manager.load_process(
        &"/bin/test-plugin".to_string(),
        &mut Runtime::<FakePlatform, Screen>::new(&mut platform, None),
    );
    assert!(loaded.is_ok());
    assert_eq!(process_manager.loaded_count(), 1);
    assert_eq!(platform.calls, vec!["launch /bin/test-plugin"]);
}

#[test]
fn the_first_failed_child_ends_the_pass() {
    let mut manager = ProcessManager::<Child>::from_dir_str("/opt/plugins", GOOD).unwrap();
    let mut platform = FakePlatform::with_files(&["alpha", "beta", "gamma"]);
    platform.failing.push("beta".to_string());
    let screen = Screen::new();

    let result = manager.load_processes(&mut Runtime::new(&mut platform, Some(&screen)));
    assert_eq!(
        result,
        Err(LoadError::Launch("cannot start /opt/plugins/beta/beta".to_string()))
    );
    assert_eq!(manager.loaded_count(), 1);
    assert_eq!(
        screen.seen(),
        vec![
            "status Started",
            "loaded alpha",
            "failure cannot start /opt/plugins/beta/beta",
            "status Finished"
        ]
    );
    assert!(!platform.calls.iter().any(|c| c.contains("gamma")));
}

#[test]
fn a_directory_found_wanting_is_not_walked() {
    let mut manager = ProcessManager::<Child>::from_dir_str("/opt/plugins", GOOD).unwrap();
    let mut platform = FakePlatform::with_files(&["alpha"]);
    platform.facts = PathFacts { is_absolute: true, exists: false, is_dir: false };
    let screen = Screen::new();

    let result = manager.load_processes(&mut Runtime::new(&mut platform, Some(&screen)));
    assert_eq!(
        result,
        Err(LoadError::Directory(PluginManagerError::NonExistent("/opt/plugins".to_string())))
    );
    assert_eq!(manager.loaded_count(), 0);
    assert_eq!(screen.seen(), vec!["status Started", "status Finished"]);
    assert_eq!(platform.calls, vec!["probe /opt/plugins"]);
}

#[test]
fn enumerating_twice_finds_the_same_executables() {
    let mut platform = FakePlatform::with_files(&["alpha", "beta"]);
    let mut first = ProcessManager::<Child>::from_dir_str("/opt/plugins", GOOD).unwrap();
    let mut second = ProcessManager::<Child>::from_dir_str("/opt/plugins", GOOD).unwrap();
    let loaded = first.load_processes(&mut Runtime::<FakePlatform, Screen>::new(&mut platform, None));
    assert_eq!(loaded, Ok(()));
    let launched_first: Vec<String> =
        platform.calls.iter().filter(|c| c.starts_with("launch")).cloned().collect();
    platform.calls.clear();
    let loaded = second.load_processes(&mut Runtime::<FakePlatform, Screen>::new(&mut platform, None));
    assert_eq!(loaded, Ok(()));
    let launched_second: Vec<String> =
        platform.calls.iter().filter(|c| c.starts_with("launch")).cloned().collect();
    assert_eq!(launched_first, launched_second);
    assert_eq!(first.loaded_count(), second.loaded_count());
}

#[test]
fn keep_process_stores_children_in_order() {
    let mut manager = ProcessManager::<Child>::new();
    let child = |name: &str| Child { executable: name.to_string(), endpoint_name: "abc1234".to_string() };
    assert_eq!(manager.keep_process(Ok(child("a"))), Ok(()));
    assert_eq!(manager.keep_process(Err("no".to_string())), Err(LoadError::Launch("no".to_string())));
    assert_eq!(manager.keep_process(Ok(child("b"))), Ok(()));
    assert_eq!(manager.loaded_count(), 2);
    let kept = child("a");
    assert_eq!(kept.executable, "a");
    assert_eq!(kept.endpoint_name, "abc1234");
}

#[test]
fn the_host_places_its_plugins_below_its_anchor() {
    let mut platform = FakePlatform::new();
    let core = Core::<Child>::new_in_home(&mut Runtime::<FakePlatform, Screen>::new(&mut platform, None)).unwrap();
    assert_eq!(core.get_dir(), Some("/home/user/.polychat/plugins".to_string()));
    let core = Core::<Child>::new_in_working_dir(&mut Runtime::<FakePlatform, Screen>::new(&mut platform, None)).unwrap();
    assert_eq!(core.get_dir(), Some("/srv/work/polychat/plugins".to_string()));
    let core = Core::<Child>::new_from_dir("/data".to_string(), &mut Runtime::<FakePlatform, Screen>::new(&mut platform, None)).unwrap();
    assert_eq!(core.get_dir(), Some("/data/plugins".to_string()));
    assert_eq!(core.loaded_count(), 0);
}

#[test]
fn the_host_needs_a_home_a_working_directory_and_a_usable_plugin_directory() {
    let mut platform = FakePlatform::new();
    platform.home = None;
    platform.cwd = None;
    assert_eq!(Core::<Child>::new_in_home(&mut Runtime::<FakePlatform, Screen>::new(&mut platform, None)).unwrap_err(), CoreError::NoHome);
    assert_eq!(Core::<Child>::new_in_working_dir(&mut Runtime::<FakePlatform, Screen>::new(&mut platform, None)).unwrap_err(), CoreError::NoWorkingDir);

    platform.facts = PathFacts { is_absolute: false, exists: false, is_dir: false };
    assert_eq!(
        Core::<Child>::new_from_dir("rel".to_string(), &mut Runtime::<FakePlatform, Screen>::new(&mut platform, None)).unwrap_err(),
        CoreError::Directory(ProcessManagerError::RelativePath("rel/plugins".to_string()))
    );
    assert!(!platform.calls.iter().any(|c| c.starts_with("walk") || c.starts_with("launch")));
    assert_eq!(
        Core::<Child>::with_plugin_dir(
            "/f".to_string(),
            PathFacts { is_absolute: true, exists: true, is_dir: false }
        )
        .unwrap_err(),
        CoreError::Directory(ProcessManagerError::NonDirectory("/f".to_string()))
    );
}

#[test]
fn the_host_starts_in_order() {
    let mut platform = FakePlatform::with_files(&["alpha"]);
    let mut core = Core::<Child>::new_from_dir("/data".to_string(), &mut Runtime::<FakePlatform, Screen>::new(&mut platform, None)).unwrap();
    platform.calls.clear();
    let screen = Screen::new();

    assert_eq!(core.run(&mut Runtime::new(&mut platform, Some(&screen))), Ok(()));
    assert_eq!(core.loaded_count(), 1);
    assert_eq!(
        screen.seen(),
        vec![
            "pre_init".to_string(),
            "status Started".to_string(),
            "loaded alpha".to_string(),
            "status Finished".to_string(),
            "post_init Some(\"/data/plugins\")".to_string()
        ]
    );
    assert_eq!(
        platform.calls,
        vec![
            "create /data/plugins",
            "probe /data/plugins",
            "walk /data/plugins",
            "launch /data/plugins/alpha/alpha"
        ]
    );
}

#[test]
fn a_failed_pass_is_reported_and_does_not_fail_the_start() {
    let mut platform = FakePlatform::with_files(&["alpha", "beta"]);
    platform.failing.push("alpha".to_string());
    let mut core = Core::<Child>::new_from_dir("/data".to_string(), &mut Runtime::<FakePlatform, Screen>::new(&mut platform, None)).unwrap();
    let screen = Screen::new();

    assert_eq!(core.run(&mut Runtime::new(&mut platform, Some(&screen))), Ok(()));
    assert_eq!(core.loaded_count(), 0);
    assert_eq!(
        screen.seen(),
        vec![
            "pre_init".to_string(),
            "status Started".to_string(),
            "failure cannot start /data/plugins/alpha/alpha".to_string(),
            "status Finished".to_string(),
            "failure cannot start /data/plugins/alpha/alpha".to_string(),
            "post_init Some(\"/data/plugins\")".to_string()
        ]
    );
}

#[test]
fn a_plugin_directory_that_cannot_be_prepared_ends_the_start() {
    let mut platform = FakePlatform::with_files(&["alpha"]);
    let mut core = Core::<Child>::new_from_dir("/data".to_string(), &mut Runtime::<FakePlatform, Screen>::new(&mut platform, None)).unwrap();
    platform.create_error = Some("read-only file system".to_string());
    platform.calls.clear();
    let screen = Screen::new();

    assert_eq!(
        core.run(&mut Runtime::new(&mut platform, Some(&screen))),
        Err(CoreError::Filesystem("read-only file system".to_string()))
    );
    assert_eq!(screen.seen(), vec!["pre_init"]);
    assert_eq!(platform.calls, vec!["create /data/plugins"]);
    assert_eq!(core.loaded_count(), 0);
}

#[test]
fn the_runtime_passes_every_notice_on() {
    let screen = Screen::new();
    let mut platform = FakePlatform::new();
    let mut runtime = Runtime::new(&mut platform, Some(&screen));
    runtime.core_pre_init();
    runtime.status_change(LoadStatus::Started);
    runtime.plugin_loaded("a".to_string());
    runtime.plugin_load_failure("b".to_string());
    runtime.status_change(LoadStatus::Finished);
    runtime.plugin_init(polychat_ipc::plugin_sdk::example_init_data());
    runtime.core_post_init(None);
    let seen = screen.seen();
    assert_eq!(seen.len(), 7);
    assert_eq!(seen[0], "pre_init");
    assert_eq!(seen[2], "loaded a");
    assert_eq!(seen[3], "failure b");
    assert!(seen[5].starts_with("init InitDataInstruction"));
    assert_eq!(seen[6], "post_init None");

    let mut silent = Runtime::<FakePlatform, Screen>::new(&mut platform, None);
    silent.core_pre_init();
    silent.core_post_init(Some("/x".to_string()));
}

#[test]
fn the_runtime_passes_every_request_on() {
    let mut platform = FakePlatform::with_files(&["alpha"]);
    platform.windows = true;
    {
        let mut runtime = Runtime::<FakePlatform, Screen>::new(&mut platform, None);
        assert_eq!(runtime.home_dir(), Some("/home/user".to_string()));
        assert_eq!(runtime.current_dir(), Some("/srv/work".to_string()));
        assert_eq!(runtime.create_dir_all(&"/a/b".to_string()), Ok(()));
        assert_eq!(runtime.probe(&"/a/b".to_string()), GOOD);
        let (items, windows) = runtime.walk(&"/a/b".to_string());
        assert_eq!(items.len(), 1);
        assert!(windows);
        let child: Child =
            runtime.launch(&"/a/b/alpha/alpha".to_string(), &"abc1234".to_string()).unwrap();
        assert_eq!(child.endpoint_name, "abc1234");
    }
    assert_eq!(
        platform.calls,
        vec!["create /a/b", "probe /a/b", "walk /a/b", "launch /a/b/alpha/alpha"]
    );
}

#[test]
fn on_windows_only_exe_files_are_launched() {
    let mut manager = ProcessManager::<Child>::from_dir_str("C:/plugins", GOOD).unwrap();
    let mut platform = FakePlatform::new();
    platform.windows = true;
    platform.items.push(("tool".to_string(), true, "", false));
    platform.items.push(("plugin.exe".to_string(), true, "exe", true));
    let screen = Screen::new();
    assert_eq!(manager.load_processes(&mut Runtime::new(&mut platform, Some(&screen))), Ok(()));
    assert_eq!(screen.seen(), vec!["status Started", "loaded plugin.exe", "status Finished"]);
}

#[test]
fn a_host_without_a_plugin_directory_does_not_start() {
    let mut core = Core::with_manager(ProcessManager::<Child>::new());
    assert_eq!(core.get_dir(), None);
    let mut platform = FakePlatform::with_files(&["alpha"]);
    let screen = Screen::new();
    assert_eq!(core.run(&mut Runtime::new(&mut platform, Some(&screen))), Err(CoreError::NoPath));
    assert_eq!(CoreError::NoPath.to_string(), "Path is not set");
    assert_eq!(screen.seen(), vec!["pre_init"]);
    assert!(platform.calls.is_empty());
    assert_eq!(core.loaded_count(), 0);
}

#[test]
fn a_host_around_a_manager_starts_on_the_managers_directory() {
    let manager = ProcessManager::<Child>::from_dir_str("/opt/plugins", GOOD).unwrap();
    let mut core = Core::with_manager(manager);
    let mut platform = FakePlatform::with_files(&["alpha", "beta"]);
    let screen = Screen::new();
    assert_eq!(core.run(&mut Runtime::new(&mut platform, Some(&screen))), Ok(()));
    assert_eq!(core.loaded_count(), 2);
    assert_eq!(
        screen.seen(),
        vec![
            "pre_init".to_string(),
            "status Started".to_string(),
            "loaded alpha".to_string(),
            "loaded beta".to_string(),
            "status Finished".to_string(),
            "post_init Some(\"/opt/plugins\")".to_string()
        ]
    );
}

#[test]
fn paths_are_joined_with_one_separator() {
    assert_eq!(join_path(&"/home/user".to_string(), ".polychat"), "/home/user/.polychat");
    assert_eq!(join_path(&"/home/user/".to_string(), "plugins"), "/home/user/plugins");
    assert_eq!(join_path(&"/".to_string(), "plugins"), "/plugins");
    assert_eq!(join_path(&String::new(), "plugins"), "plugins");
    assert_eq!(join_path(&"rel".to_string(), "plugins"), "rel/plugins");
    assert_eq!(join_path(&"/d\u{e9}j\u{e0}".to_string(), "plugins"), "/d\u{e9}j\u{e0}/plugins");
}

#[test]
fn a_setup_looks_at_the_plugin_directory_and_at_nothing_else() {
    let mut platform = FakePlatform::with_files(&["alpha"]);
    let core = Core::<Child>::new_in_home(&mut Runtime::<FakePlatform, Screen>::new(
        &mut platform,
        None,
    ))
    .unwrap();
    assert_eq!(core.loaded_count(), 0);
    assert_eq!(platform.calls, vec!["probe /home/user/.polychat/plugins"]);
    platform.calls.clear();
    platform.facts = PathFacts { is_absolute: true, exists: true, is_dir: false };
    let err = Core::<Child>::new_in_working_dir(&mut Runtime::<FakePlatform, Screen>::new(
        &mut platform,
        None,
    ))
    .unwrap_err();
    assert_eq!(
        err,
        CoreError::Directory(ProcessManagerError::NonDirectory(
            "/srv/work/polychat/plugins".to_string()
        ))
    );
    assert_eq!(platform.calls, vec!["probe /srv/work/polychat/plugins"]);
}
