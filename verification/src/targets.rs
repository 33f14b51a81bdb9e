//! Which directories a run touches: the application's data root under
//! the per-user application-data folder, a fixed allow-list of its
//! cache subfolders, and two nested storage leaf folders.

use vstd::prelude::*;

verus! {

/// The application's data root under the per-user data folder `app_data`:
/// `app_data/Microsoft/Teams`.
pub open spec fn root_model(app_data: Seq<char>) -> Seq<Seq<char>> {
    seq![app_data, "Microsoft"@, "Teams"@]
}

/// The subfolders of the data root whose immediate files a run deletes.
/// Only these named subfolders are touched, never a sibling.
pub open spec fn allowed_subfolder_names() -> Seq<Seq<char>> {
    seq![
        "blob_storage"@,
        "databases"@,
        "GPUCache"@,
        "IndexedDB"@,
        "Local Storage"@,
        "tmp"@,
        "Cache"@,
    ]
}

/// The two leaf folders under the root whose immediate entries — files
/// and directories alike — a run deletes.
pub open spec fn leaf_dir_models(root: Seq<Seq<char>>) -> Seq<Seq<Seq<char>>> {
    seq![
        root + seq!["Service Worker"@, "CacheStorage"@],
        root + seq!["Service Worker"@, "ScriptCache"@],
    ]
}

/// `dir` with one more component `name` at its end.
pub fn join_path(dir: &Vec<String>, name: &str) -> (r: Vec<String>)
    ensures
        r.deep_view() == dir.deep_view().push(name@),
{
    let mut r = clone_path(dir);
    r.push(String::from_str(name));
    proof {
        assert(r.deep_view() =~= dir.deep_view().push(name@));
    }
    r
}

/// A copy of a path, component by component.
pub fn clone_path(p: &Vec<String>) -> (r: Vec<String>)
    ensures
        r.deep_view() == p.deep_view(),
{
    let mut r: Vec<String> = Vec::new();
    let mut i: usize = 0;
    proof {
        assert(r.deep_view() =~= p.deep_view().take(0));
    }
    while i < p.len()
        invariant
            i <= p.len(),
            r.deep_view() == p.deep_view().take(i as int),
        decreases p.len() - i,
    {
        let ghost prev = r.deep_view();
        let c = p[i].clone();
        proof {
            assert(c == p@[i as int]);
        }
        r.push(c);
        i = i + 1;
        proof {
            assert(r.deep_view() =~= prev.push(c@));
            assert(prev.push(c@) =~= p.deep_view().take(i as int));
        }
    }
    proof {
        assert(p.deep_view().take(p.len() as int) =~= p.deep_view());
    }
    r
}

/// The data root for the given per-user data folder, or `None` when
/// that folder is unknown (the environment variable was absent): then
/// nothing is resolved and the run has nothing to do.
pub fn resolve_root(app_data: Option<String>) -> (r: Option<Vec<String>>)
    ensures
        match app_data {
            Option::None => r is None,
            Option::Some(s) => r matches Option::Some(v) && v.deep_view() == root_model(s@),
        },
{
    match app_data {
        Option::None => Option::None,
        Option::Some(s) => {
            let mut v: Vec<String> = Vec::new();
            v.push(s);
            v.push(String::from_str("Microsoft"));
            v.push(String::from_str("Teams"));
            proof {
                assert(v.deep_view() =~= root_model(v@[0]@));
            }
            Option::Some(v)
        },
    }
}

/// The allow-listed subfolder names, as strings.
pub fn allowed_subfolders() -> (r: Vec<String>)
    ensures
        r.deep_view() == allowed_subfolder_names(),
{
    let mut r: Vec<String> = Vec::new();
    r.push(String::from_str("blob_storage"));
    r.push(String::from_str("databases"));
    r.push(String::from_str("GPUCache"));
    r.push(String::from_str("IndexedDB"));
    r.push(String::from_str("Local Storage"));
    r.push(String::from_str("tmp"));
    r.push(String::from_str("Cache"));
    proof {
        assert(r.deep_view() =~= allowed_subfolder_names());
    }
    r
}

/// The two leaf folders under the data root `root`.
pub fn leaf_dirs(root: &Vec<String>) -> (r: Vec<Vec<String>>)
    ensures
        r.deep_view() == leaf_dir_models(root.deep_view()),
{
    let sw = join_path(root, "Service Worker");
    let cache_storage = join_path(&sw, "CacheStorage");
    let script_cache = join_path(&sw, "ScriptCache");
    let mut r: Vec<Vec<String>> = Vec::new();
    r.push(cache_storage);
    r.push(script_cache);
    proof {
        assert(root.deep_view().push("Service Worker"@).push("CacheStorage"@) =~= root.deep_view()
            + seq!["Service Worker"@, "CacheStorage"@]);
        assert(root.deep_view().push("Service Worker"@).push("ScriptCache"@) =~= root.deep_view()
            + seq!["Service Worker"@, "ScriptCache"@]);
        assert(r.deep_view() =~= leaf_dir_models(root.deep_view()));
    }
    r
}

} // verus!
