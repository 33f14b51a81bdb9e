use teams_cache_cleaner::{
    allowed_subfolders, join_path, leaf_dirs, plan_leaf_folder, plan_run, plan_top_folder,
    resolve_root, Action, Config, Entry, EntryKind, FolderListing,
};

fn path(parts: &[&str]) -> Vec<String> {
    parts.iter().map(|p| p.to_string()).collect()
}

fn file(name: &str) -> Entry {
    Entry { name: name.to_string(), kind: EntryKind::File, note: String::new() }
}

fn dir(name: &str) -> Entry {
    Entry { name: name.to_string(), kind: EntryKind::Dir, note: String::new() }
}

fn other(name: &str, note: &str) -> Entry {
    Entry { name: name.to_string(), kind: EntryKind::Other, note: note.to_string() }
}

fn unreadable(note: &str) -> Entry {
    Entry { name: String::new(), kind: EntryKind::Unreadable, note: note.to_string() }
}

#[test]
fn default_config_is_silent_and_real() {
    let c = Config::default();
    assert!(!c.dry_run);
    assert!(!c.verbose);
}

#[test]
fn absent_environment_variable_resolves_nothing() {
    assert_eq!(resolve_root(None), None);
}

#[test]
fn present_environment_variable_resolves_the_data_root() {
    let r = resolve_root(Some("C:\\Users\\u\\AppData\\Roaming".to_string()));
    assert_eq!(r, Some(path(&["C:\\Users\\u\\AppData\\Roaming", "Microsoft", "Teams"])));
}

#[test]
fn the_allow_list_is_exactly_the_seven_cache_subfolders() {
    let names = allowed_subfolders();
    assert_eq!(
        names,
        path(&["blob_storage", "databases", "GPUCache", "IndexedDB", "Local Storage", "tmp",
            "Cache"])
    );
}

#[test]
fn the_leaf_folders_sit_under_service_worker() {
    let root = path(&["R", "Microsoft", "Teams"]);
    let leaves = leaf_dirs(&root);
    assert_eq!(leaves.len(), 2);
    assert_eq!(leaves[0], path(&["R", "Microsoft", "Teams", "Service Worker", "CacheStorage"]));
    assert_eq!(leaves[1], path(&["R", "Microsoft", "Teams", "Service Worker", "ScriptCache"]));
}

#[test]
fn join_path_appends_one_component() {
    let base = path(&["R", "Teams"]);
    assert_eq!(join_path(&base, "Cache"), path(&["R", "Teams", "Cache"]));
}

#[test]
fn top_sweep_deletes_files_and_leaves_subdirectories_alone() {
    // An allow-list subfolder holding three files and one subdirectory:
    // the run deletes the three files, touches nothing else, and ends well.
    let cache = path(&["R", "Teams", "Cache"]);
    let entries = vec![file("a.bin"), dir("nested"), file("b.bin"), file("c.bin")];
    let p = plan_top_folder(&cache, &entries, &Config { dry_run: false, verbose: false });
    assert_eq!(p.fatal, None);
    assert_eq!(
        p.actions,
        vec![
            Action::DeleteFile { path: path(&["R", "Teams", "Cache", "a.bin"]) },
            Action::DeleteFile { path: path(&["R", "Teams", "Cache", "b.bin"]) },
            Action::DeleteFile { path: path(&["R", "Teams", "Cache", "c.bin"]) },
        ]
    );
}

#[test]
fn top_sweep_ignores_entries_of_other_kinds() {
    let cache = path(&["R", "Teams", "tmp"]);
    let entries = vec![other("link", "symbolic link"), file("a")];
    let p = plan_top_folder(&cache, &entries, &Config { dry_run: false, verbose: false });
    assert_eq!(p.fatal, None);
    assert_eq!(p.actions, vec![Action::DeleteFile { path: path(&["R", "Teams", "tmp", "a"]) }]);
}

#[test]
fn dry_run_only_prints_and_never_deletes() {
    let cache = path(&["R", "Teams", "Cache"]);
    let entries = vec![file("a"), dir("d"), file("b")];
    // Verbose set or not, a dry run produces the same preview lines.
    for verbose in [false, true] {
        let p = plan_top_folder(&cache, &entries, &Config { dry_run: true, verbose });
        assert_eq!(p.fatal, None);
        assert_eq!(
            p.actions,
            vec![
                Action::PrintToDelete { path: path(&["R", "Teams", "Cache", "a"]) },
                Action::PrintToDelete { path: path(&["R", "Teams", "Cache", "b"]) },
            ]
        );
    }
}

#[test]
fn verbose_run_logs_once_before_each_deletion() {
    let cache = path(&["R", "Teams", "Cache"]);
    let entries = vec![file("a"), file("b")];
    let p = plan_top_folder(&cache, &entries, &Config { dry_run: false, verbose: true });
    assert_eq!(p.fatal, None);
    assert_eq!(
        p.actions,
        vec![
            Action::LogDeleting { path: path(&["R", "Teams", "Cache", "a"]) },
            Action::DeleteFile { path: path(&["R", "Teams", "Cache", "a"]) },
            Action::LogDeleting { path: path(&["R", "Teams", "Cache", "b"]) },
            Action::DeleteFile { path: path(&["R", "Teams", "Cache", "b"]) },
        ]
    );
}

#[test]
fn unreadable_entry_aborts_the_top_sweep_after_earlier_deletions() {
    let cache = path(&["R", "Teams", "Cache"]);
    let entries = vec![file("a"), unreadable("permission denied"), file("b")];
    let p = plan_top_folder(&cache, &entries, &Config { dry_run: false, verbose: false });
    assert_eq!(p.fatal, Some("permission denied".to_string()));
    // The file listed before the offender is still deleted; the one
    // after it is not touched.
    assert_eq!(p.actions, vec![Action::DeleteFile { path: path(&["R", "Teams", "Cache", "a"]) }]);
}

#[test]
fn leaf_sweep_deletes_files_and_directories() {
    // A leaf storage folder holding two files and one directory: the
    // run deletes all three, the directory recursively, and ends well.
    let storage = path(&["R", "Teams", "Service Worker", "CacheStorage"]);
    let entries = vec![file("f1"), dir("d1"), file("f2")];
    let p = plan_leaf_folder(&storage, &entries, &Config { dry_run: false, verbose: false });
    assert_eq!(p.fatal, None);
    assert_eq!(
        p.actions,
        vec![
            Action::DeleteFile {
                path: path(&["R", "Teams", "Service Worker", "CacheStorage", "f1"]),
            },
            Action::DeleteDir {
                path: path(&["R", "Teams", "Service Worker", "CacheStorage", "d1"]),
            },
            Action::DeleteFile {
                path: path(&["R", "Teams", "Service Worker", "CacheStorage", "f2"]),
            },
        ]
    );
}

#[test]
fn unsupported_entry_aborts_the_leaf_sweep() {
    let storage = path(&["R", "Teams", "Service Worker", "ScriptCache"]);
    let entries = vec![file("f1"), other("link", "unsupported file type"), file("f2"), dir("d")];
    let p = plan_leaf_folder(&storage, &entries, &Config { dry_run: false, verbose: false });
    assert_eq!(p.fatal, Some("unsupported file type".to_string()));
    // Entries after the offending one, in listing order, are not processed.
    assert_eq!(
        p.actions,
        vec![Action::DeleteFile {
            path: path(&["R", "Teams", "Service Worker", "ScriptCache", "f1"]),
        }]
    );
}

#[test]
fn missing_folders_are_skipped_without_error() {
    let subs = vec![
        FolderListing { dir: path(&["R", "Teams", "Cache"]), entries: None },
        FolderListing { dir: path(&["R", "Teams", "tmp"]), entries: Some(vec![file("x")]) },
    ];
    let leaves = vec![FolderListing {
        dir: path(&["R", "Teams", "Service Worker", "CacheStorage"]),
        entries: None,
    }];
    let p = plan_run(&subs, &leaves, &Config { dry_run: false, verbose: false });
    assert_eq!(p.fatal, None);
    assert_eq!(p.actions, vec![Action::DeleteFile { path: path(&["R", "Teams", "tmp", "x"]) }]);
}

#[test]
fn a_run_with_no_targets_does_nothing() {
    let p = plan_run(&vec![], &vec![], &Config { dry_run: false, verbose: true });
    assert_eq!(p.actions, vec![]);
    assert_eq!(p.fatal, None);
}

#[test]
fn a_fatal_top_sweep_cuts_off_the_leaf_sweep() {
    let subs = vec![
        FolderListing { dir: path(&["R", "Teams", "Cache"]), entries: Some(vec![file("a")]) },
        FolderListing {
            dir: path(&["R", "Teams", "GPUCache"]),
            entries: Some(vec![unreadable("input error")]),
        },
        FolderListing { dir: path(&["R", "Teams", "tmp"]), entries: Some(vec![file("late")]) },
    ];
    let leaves = vec![FolderListing {
        dir: path(&["R", "Teams", "Service Worker", "CacheStorage"]),
        entries: Some(vec![file("f")]),
    }];
    let p = plan_run(&subs, &leaves, &Config { dry_run: false, verbose: false });
    assert_eq!(p.fatal, Some("input error".to_string()));
    // Deletions made before the failure stand; nothing later runs.
    assert_eq!(p.actions, vec![Action::DeleteFile { path: path(&["R", "Teams", "Cache", "a"]) }]);
}

#[test]
fn a_clean_run_sweeps_subfolders_then_leaves() {
    let subs = vec![FolderListing {
        dir: path(&["R", "Teams", "Cache"]),
        entries: Some(vec![file("a"), dir("kept")]),
    }];
    let leaves = vec![FolderListing {
        dir: path(&["R", "Teams", "Service Worker", "ScriptCache"]),
        entries: Some(vec![dir("gone")]),
    }];
    let p = plan_run(&subs, &leaves, &Config { dry_run: false, verbose: false });
    assert_eq!(p.fatal, None);
    assert_eq!(
        p.actions,
        vec![
            Action::DeleteFile { path: path(&["R", "Teams", "Cache", "a"]) },
            Action::DeleteDir {
                path: path(&["R", "Teams", "Service Worker", "ScriptCache", "gone"]),
            },
        ]
    );
}
