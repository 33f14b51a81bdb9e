//! The cleaner's decisions. Given a snapshot of the target directories'
//! listings and the run configuration, these functions compute the
//! exact sequence of actions the run performs and whether it aborts.
//!
//! Two sweeps exist. The top-level sweep walks the allow-listed cache
//! subfolders and targets only their immediate files; directories
//! there are left alone, and an unreadable entry aborts the run. The
//! leaf sweep walks the two nested storage folders and targets every
//! immediate entry, files and directories alike; an entry of any other
//! kind, or an unreadable one, aborts the run. In both sweeps the
//! entries before the offending one are still acted on.

use vstd::prelude::*;

use crate::config::Config;
use crate::model::{Action, ActionModel, Candidate, Entry, EntryKind, EntryModel, FolderListing,
    FolderModel, delete_action};
use crate::targets::{clone_path, join_path};

verus! {

/// The actions one deletion candidate receives: in a dry run its path
/// is printed and nothing else happens; otherwise it is deleted, with
/// one log line immediately before the deletion when verbose is set.
pub open spec fn item_actions(path: Seq<Seq<char>>, is_dir: bool, c: Config) -> Seq<ActionModel> {
    if c.dry_run {
        seq![ActionModel::PrintToDelete { path }]
    } else if c.verbose {
        seq![ActionModel::LogDeleting { path }, delete_action(Candidate { path, is_dir })]
    } else {
        seq![delete_action(Candidate { path, is_dir })]
    }
}

/// The actions of a whole candidate list, in order.
pub open spec fn cands_actions(cs: Seq<Candidate>, c: Config) -> Seq<ActionModel>
    decreases cs.len(),
{
    if cs.len() == 0 {
        Seq::empty()
    } else {
        item_actions(cs[0].path, cs[0].is_dir, c) + cands_actions(cs.drop_first(), c)
    }
}

/// The candidates of an allow-listed subfolder `dir`: its immediate
/// files, in listing order, up to the first unreadable entry.
/// Directories and entries of other kinds are skipped in this sweep.
pub open spec fn top_candidates(dir: Seq<Seq<char>>, entries: Seq<EntryModel>) -> Seq<Candidate>
    decreases entries.len(),
{
    if entries.len() == 0 {
        Seq::empty()
    } else {
        match entries[0].kind {
            EntryKind::File => seq![Candidate { path: dir.push(entries[0].name), is_dir: false }]
                + top_candidates(dir, entries.drop_first()),
            EntryKind::Unreadable => Seq::empty(),
            _ => top_candidates(dir, entries.drop_first()),
        }
    }
}

/// Why the top-level sweep of a listing aborts: the note of its first
/// unreadable entry, or `None` when every entry could be read.
pub open spec fn top_fatal(entries: Seq<EntryModel>) -> Option<Seq<char>>
    decreases entries.len(),
{
    if entries.len() == 0 {
        None
    } else if entries[0].kind is Unreadable {
        Some(entries[0].note)
    } else {
        top_fatal(entries.drop_first())
    }
}

/// The candidates of a leaf folder `dir`: every immediate entry, in
/// listing order, up to the first entry that is neither a file nor a
/// directory.
pub open spec fn leaf_candidates(dir: Seq<Seq<char>>, entries: Seq<EntryModel>) -> Seq<Candidate>
    decreases entries.len(),
{
    if entries.len() == 0 {
        Seq::empty()
    } else {
        match entries[0].kind {
            EntryKind::File => seq![Candidate { path: dir.push(entries[0].name), is_dir: false }]
                + leaf_candidates(dir, entries.drop_first()),
            EntryKind::Dir => seq![Candidate { path: dir.push(entries[0].name), is_dir: true }]
                + leaf_candidates(dir, entries.drop_first()),
            _ => Seq::empty(),
        }
    }
}

/// Why the leaf sweep of a listing aborts: the note of its first entry
/// that is neither a file nor a directory (unsupported or unreadable),
/// or `None` when there is no such entry.
pub open spec fn leaf_fatal(entries: Seq<EntryModel>) -> Option<Seq<char>>
    decreases entries.len(),
{
    if entries.len() == 0 {
        None
    } else {
        match entries[0].kind {
            EntryKind::File => leaf_fatal(entries.drop_first()),
            EntryKind::Dir => leaf_fatal(entries.drop_first()),
            _ => Some(entries[0].note),
        }
    }
}

/// The candidates one target folder contributes: none when the folder
/// does not exist, else those of the applicable sweep.
pub open spec fn folder_candidates(f: FolderModel, leaf: bool) -> Seq<Candidate> {
    match f.entries {
        None => Seq::empty(),
        Some(es) => if leaf {
            leaf_candidates(f.dir, es)
        } else {
            top_candidates(f.dir, es)
        },
    }
}

/// Why one target folder aborts the run, if it does. A missing folder
/// never does: its branch is skipped.
pub open spec fn folder_fatal(f: FolderModel, leaf: bool) -> Option<Seq<char>> {
    match f.entries {
        None => None,
        Some(es) => if leaf {
            leaf_fatal(es)
        } else {
            top_fatal(es)
        },
    }
}

/// The candidates of a sweep over several target folders, in order,
/// cut off after the first folder that aborts the run.
pub open spec fn sweep_candidates(fs: Seq<FolderModel>, leaf: bool) -> Seq<Candidate>
    decreases fs.len(),
{
    if fs.len() == 0 {
        Seq::empty()
    } else if folder_fatal(fs[0], leaf) is Some {
        folder_candidates(fs[0], leaf)
    } else {
        folder_candidates(fs[0], leaf) + sweep_candidates(fs.drop_first(), leaf)
    }
}

/// Why a sweep aborts: the first folder's reason, if any.
pub open spec fn sweep_fatal(fs: Seq<FolderModel>, leaf: bool) -> Option<Seq<char>>
    decreases fs.len(),
{
    if fs.len() == 0 {
        None
    } else if folder_fatal(fs[0], leaf) is Some {
        folder_fatal(fs[0], leaf)
    } else {
        sweep_fatal(fs.drop_first(), leaf)
    }
}

/// The candidates of a whole run: the top-level sweep over the
/// allow-listed subfolders, then — only if that sweep did not abort —
/// the leaf sweep over the two storage folders.
pub open spec fn run_candidates(subs: Seq<FolderModel>, leaves: Seq<FolderModel>) -> Seq<
    Candidate,
> {
    if sweep_fatal(subs, false) is Some {
        sweep_candidates(subs, false)
    } else {
        sweep_candidates(subs, false) + sweep_candidates(leaves, true)
    }
}

/// Why a whole run aborts, if it does.
pub open spec fn run_fatal(subs: Seq<FolderModel>, leaves: Seq<FolderModel>) -> Option<Seq<char>> {
    if sweep_fatal(subs, false) is Some {
        sweep_fatal(subs, false)
    } else {
        sweep_fatal(leaves, true)
    }
}

/// The full action sequence of a run.
pub open spec fn run_actions(
    subs: Seq<FolderModel>,
    leaves: Seq<FolderModel>,
    c: Config,
) -> Seq<ActionModel> {
    cands_actions(run_candidates(subs, leaves), c)
}

/// Candidate actions distribute over concatenation of candidate lists.
pub proof fn lemma_cands_actions_concat(a: Seq<Candidate>, b: Seq<Candidate>, c: Config)
    ensures
        cands_actions(a + b, c) == cands_actions(a, c) + cands_actions(b, c),
    decreases a.len(),
{
    if a.len() == 0 {
        assert(a + b =~= b);
        assert(cands_actions(a, c) + cands_actions(b, c) =~= cands_actions(b, c));
    } else {
        assert((a + b)[0] == a[0]);
        assert((a + b).drop_first() =~= a.drop_first() + b);
        lemma_cands_actions_concat(a.drop_first(), b, c);
        assert(item_actions(a[0].path, a[0].is_dir, c) + (cands_actions(a.drop_first(), c)
            + cands_actions(b, c)) =~= (item_actions(a[0].path, a[0].is_dir, c) + cands_actions(
            a.drop_first(),
            c,
        )) + cands_actions(b, c));
    }
}

/// What a planner returns for one folder or one sweep: the actions to
/// perform, in order, and — when the sweep ran into an entry it cannot
/// handle — the diagnostic to report before aborting with a failure
/// status. The actions are performed either way.
#[derive(Debug, Clone, PartialEq, Eq)]
pub struct FolderPlan {
    pub actions: Vec<Action>,
    pub fatal: Option<String>,
}

/// What [`plan_run`] returns for a whole run.
#[derive(Debug, Clone, PartialEq, Eq)]
pub struct RunPlan {
    pub actions: Vec<Action>,
    pub fatal: Option<String>,
}

/// Appends the actions of one candidate (`path`, removed as a
/// directory when `is_dir`) under configuration `config`.
fn push_item_actions(actions: &mut Vec<Action>, path: Vec<String>, is_dir: bool, config: &Config)
    ensures
        final(actions).deep_view() == old(actions).deep_view() + item_actions(
            path.deep_view(),
            is_dir,
            *config,
        ),
{
    let ghost prev = actions.deep_view();
    let ghost pv = path.deep_view();
    if config.dry_run {
        actions.push(Action::PrintToDelete { path });
        proof {
            assert(actions.deep_view() =~= prev + item_actions(pv, is_dir, *config));
        }
    } else {
        if config.verbose {
            let log_path = clone_path(&path);
            actions.push(Action::LogDeleting { path: log_path });
        }
        if is_dir {
            actions.push(Action::DeleteDir { path });
        } else {
            actions.push(Action::DeleteFile { path });
        }
        proof {
            assert(actions.deep_view() =~= prev + item_actions(pv, is_dir, *config));
        }
    }
}

/// The plan for one allow-listed subfolder `dir` whose listing is
/// `entries`: one candidate per immediate file, processed in order up
/// to the first unreadable entry, which aborts the run.
pub fn plan_top_folder(dir: &Vec<String>, entries: &Vec<Entry>, config: &Config) -> (r: FolderPlan)
    ensures
        r.actions.deep_view() == cands_actions(
            top_candidates(dir.deep_view(), entries.deep_view()),
            *config,
        ),
        r.fatal.deep_view() == top_fatal(entries.deep_view()),
{
    let ghost dv = dir.deep_view();
    let ghost ev = entries.deep_view();
    let mut actions: Vec<Action> = Vec::new();
    let mut i: usize = 0;
    proof {
        assert(ev.skip(0) =~= ev);
        assert(actions.deep_view() + cands_actions(top_candidates(dv, ev), *config)
            =~= cands_actions(top_candidates(dv, ev), *config));
    }
    while i < entries.len()
        invariant
            i <= entries.len(),
            dv == dir.deep_view(),
            ev == entries.deep_view(),
            cands_actions(top_candidates(dv, ev), *config) == actions.deep_view() + cands_actions(
                top_candidates(dv, ev.skip(i as int)),
                *config,
            ),
            top_fatal(ev) == top_fatal(ev.skip(i as int)),
        decreases entries.len() - i,
    {
        let ghost suffix = ev.skip(i as int);
        proof {
            assert(suffix[0] == ev[i as int]);
            assert(suffix.drop_first() =~= ev.skip(i as int + 1));
        }
        let e = &entries[i];
        match e.kind {
            EntryKind::File => {
                let path = join_path(dir, e.name.as_str());
                let ghost prev = actions.deep_view();
                push_item_actions(&mut actions, path, false, config);
                proof {
                    let cd = Candidate { path: dv.push(ev[i as int].name), is_dir: false };
                    let rest = top_candidates(dv, ev.skip(i as int + 1));
                    assert(top_candidates(dv, suffix) == seq![cd] + rest);
                    assert((seq![cd] + rest)[0] == cd);
                    assert((seq![cd] + rest).drop_first() =~= rest);
                    assert(cands_actions(seq![cd] + rest, *config) == item_actions(
                        cd.path,
                        cd.is_dir,
                        *config,
                    ) + cands_actions(rest, *config));
                    assert(prev + (item_actions(cd.path, cd.is_dir, *config) + cands_actions(
                        rest,
                        *config,
                    )) =~= actions.deep_view() + cands_actions(rest, *config));
                }
            },
            EntryKind::Unreadable => {
                let note = e.note.clone();
                proof {
                    assert(top_candidates(dv, suffix) =~= Seq::<Candidate>::empty());
                    assert(actions.deep_view() + cands_actions(
                        Seq::<Candidate>::empty(),
                        *config,
                    ) =~= actions.deep_view());
                    assert(top_fatal(suffix) == Some(ev[i as int].note));
                }
                return FolderPlan { actions, fatal: Some(note) };
            },
            _ => {
                proof {
                    assert(top_candidates(dv, suffix) == top_candidates(
                        dv,
                        ev.skip(i as int + 1),
                    ));
                    assert(top_fatal(suffix) == top_fatal(ev.skip(i as int + 1)));
                }
            },
        }
        i = i + 1;
    }
    proof {
        assert(ev.skip(ev.len() as int) =~= Seq::<EntryModel>::empty());
        assert(actions.deep_view() + cands_actions(
            top_candidates(dv, Seq::<EntryModel>::empty()),
            *config,
        ) =~= actions.deep_view());
    }
    FolderPlan { actions, fatal: None }
}

/// The plan for one leaf folder `dir` whose listing is `entries`:
/// every immediate file and directory is a candidate, processed in
/// order up to the first entry of any other kind, which aborts the run.
pub fn plan_leaf_folder(dir: &Vec<String>, entries: &Vec<Entry>, config: &Config) -> (r:
    FolderPlan)
    ensures
        r.actions.deep_view() == cands_actions(
            leaf_candidates(dir.deep_view(), entries.deep_view()),
            *config,
        ),
        r.fatal.deep_view() == leaf_fatal(entries.deep_view()),
{
    let ghost dv = dir.deep_view();
    let ghost ev = entries.deep_view();
    let mut actions: Vec<Action> = Vec::new();
    let mut i: usize = 0;
    proof {
        assert(ev.skip(0) =~= ev);
        assert(actions.deep_view() + cands_actions(leaf_candidates(dv, ev), *config)
            =~= cands_actions(leaf_candidates(dv, ev), *config));
    }
    while i < entries.len()
        invariant
            i <= entries.len(),
            dv == dir.deep_view(),
            ev == entries.deep_view(),
            cands_actions(leaf_candidates(dv, ev), *config) == actions.deep_view()
                + cands_actions(leaf_candidates(dv, ev.skip(i as int)), *config),
            leaf_fatal(ev) == leaf_fatal(ev.skip(i as int)),
        decreases entries.len() - i,
    {
        let ghost suffix = ev.skip(i as int);
        proof {
            assert(suffix[0] == ev[i as int]);
            assert(suffix.drop_first() =~= ev.skip(i as int + 1));
        }
        let e = &entries[i];
        match e.kind {
            EntryKind::File | EntryKind::Dir => {
                let is_dir = match e.kind {
                    EntryKind::Dir => true,
                    _ => false,
                };
                let path = join_path(dir, e.name.as_str());
                let ghost prev = actions.deep_view();
                push_item_actions(&mut actions, path, is_dir, config);
                proof {
                    let cd = Candidate { path: dv.push(ev[i as int].name), is_dir };
                    let rest = leaf_candidates(dv, ev.skip(i as int + 1));
                    assert(leaf_candidates(dv, suffix) == seq![cd] + rest);
                    assert((seq![cd] + rest)[0] == cd);
                    assert((seq![cd] + rest).drop_first() =~= rest);
                    assert(cands_actions(seq![cd] + rest, *config) == item_actions(
                        cd.path,
                        cd.is_dir,
                        *config,
                    ) + cands_actions(rest, *config));
                    assert(prev + (item_actions(cd.path, cd.is_dir, *config) + cands_actions(
                        rest,
                        *config,
                    )) =~= actions.deep_view() + cands_actions(rest, *config));
                }
            },
            _ => {
                let note = e.note.clone();
                proof {
                    assert(leaf_candidates(dv, suffix) =~= Seq::<Candidate>::empty());
                    assert(actions.deep_view() + cands_actions(
                        Seq::<Candidate>::empty(),
                        *config,
                    ) =~= actions.deep_view());
                    assert(leaf_fatal(suffix) == Some(ev[i as int].note));
                }
                return FolderPlan { actions, fatal: Some(note) };
            },
        }
        i = i + 1;
    }
    proof {
        assert(ev.skip(ev.len() as int) =~= Seq::<EntryModel>::empty());
        assert(actions.deep_view() + cands_actions(
            leaf_candidates(dv, Seq::<EntryModel>::empty()),
            *config,
        ) =~= actions.deep_view());
    }
    FolderPlan { actions, fatal: None }
}

/// The plan for one sweep over several target folders: missing folders
/// are skipped, the rest are planned in order, and a folder that
/// aborts the run cuts the sweep off behind it.
fn plan_sweep(folders: &Vec<FolderListing>, leaf: bool, config: &Config) -> (r: FolderPlan)
    ensures
        r.actions.deep_view() == cands_actions(
            sweep_candidates(folders.deep_view(), leaf),
            *config,
        ),
        r.fatal.deep_view() == sweep_fatal(folders.deep_view(), leaf),
{
    let ghost fv = folders.deep_view();
    let mut actions: Vec<Action> = Vec::new();
    let mut i: usize = 0;
    proof {
        assert(fv.skip(0) =~= fv);
        assert(actions.deep_view() + cands_actions(sweep_candidates(fv, leaf), *config)
            =~= cands_actions(sweep_candidates(fv, leaf), *config));
    }
    while i < folders.len()
        invariant
            i <= folders.len(),
            fv == folders.deep_view(),
            cands_actions(sweep_candidates(fv, leaf), *config) == actions.deep_view()
                + cands_actions(sweep_candidates(fv.skip(i as int), leaf), *config),
            sweep_fatal(fv, leaf) == sweep_fatal(fv.skip(i as int), leaf),
        decreases folders.len() - i,
    {
        let ghost suffix = fv.skip(i as int);
        proof {
            assert(suffix[0] == fv[i as int]);
            assert(suffix.drop_first() =~= fv.skip(i as int + 1));
        }
        let f = &folders[i];
        match &f.entries {
            Option::None => {
                proof {
                    assert(folder_candidates(fv[i as int], leaf) =~= Seq::<Candidate>::empty());
                    assert(sweep_candidates(suffix, leaf) =~= sweep_candidates(
                        fv.skip(i as int + 1),
                        leaf,
                    ));
                    assert(sweep_fatal(suffix, leaf) == sweep_fatal(fv.skip(i as int + 1), leaf));
                }
            },
            Option::Some(es) => {
                let mut fp = if leaf {
                    plan_leaf_folder(&f.dir, es, config)
                } else {
                    plan_top_folder(&f.dir, es, config)
                };
                let ghost prev = actions.deep_view();
                let ghost fp_acts = fp.actions.deep_view();
                actions.append(&mut fp.actions);
                proof {
                    assert(actions.deep_view() =~= prev + fp_acts);
                    assert(fp_acts == cands_actions(folder_candidates(fv[i as int], leaf), *config));
                }
                match fp.fatal {
                    Option::Some(note) => {
                        proof {
                            assert(sweep_candidates(suffix, leaf) == folder_candidates(
                                fv[i as int],
                                leaf,
                            ));
                            assert(sweep_fatal(suffix, leaf) == folder_fatal(fv[i as int], leaf));
                        }
                        return FolderPlan { actions, fatal: Some(note) };
                    },
                    Option::None => {
                        proof {
                            let fc = folder_candidates(fv[i as int], leaf);
                            let rest = sweep_candidates(fv.skip(i as int + 1), leaf);
                            assert(sweep_candidates(suffix, leaf) == fc + rest);
                            lemma_cands_actions_concat(fc, rest, *config);
                            assert(prev + (cands_actions(fc, *config) + cands_actions(
                                rest,
                                *config,
                            )) =~= actions.deep_view() + cands_actions(rest, *config));
                            assert(sweep_fatal(suffix, leaf) == sweep_fatal(
                                fv.skip(i as int + 1),
                                leaf,
                            ));
                        }
                    },
                }
            },
        }
        i = i + 1;
    }
    proof {
        assert(fv.skip(fv.len() as int) =~= Seq::<FolderModel>::empty());
        assert(actions.deep_view() + cands_actions(
            sweep_candidates(Seq::<FolderModel>::empty(), leaf),
            *config,
        ) =~= actions.deep_view());
    }
    FolderPlan { actions, fatal: None }
}

/// The plan for a whole run: the top-level sweep over the allow-listed
/// subfolders (`subs`), then the leaf sweep over the two storage
/// folders (`leaves`), the latter only when the former did not abort.
/// The returned actions are performed in order; a `Some` in `fatal` is
/// then reported and the run exits with a failure status.
pub fn plan_run(subs: &Vec<FolderListing>, leaves: &Vec<FolderListing>, config: &Config) -> (r:
    RunPlan)
    ensures
        r.actions.deep_view() == run_actions(subs.deep_view(), leaves.deep_view(), *config),
        r.fatal.deep_view() == run_fatal(subs.deep_view(), leaves.deep_view()),
{
    let sp = plan_sweep(subs, false, config);
    match sp.fatal {
        Option::Some(note) => RunPlan { actions: sp.actions, fatal: Option::Some(note) },
        Option::None => {
            let mut actions = sp.actions;
            let mut lp = plan_sweep(leaves, true, config);
            let ghost prev = actions.deep_view();
            let ghost lp_acts = lp.actions.deep_view();
            actions.append(&mut lp.actions);
            proof {
                assert(actions.deep_view() =~= prev + lp_acts);
                lemma_cands_actions_concat(
                    sweep_candidates(subs.deep_view(), false),
                    sweep_candidates(leaves.deep_view(), true),
                    *config,
                );
            }
            RunPlan { actions, fatal: lp.fatal }
        },
    }
}

} // verus!
