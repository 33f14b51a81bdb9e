//! The guarantees a run gives, proved once and for all over the
//! planner's specification. Each lemma is stated over an arbitrary
//! candidate or folder list, so it holds in particular of a whole run
//! (instantiate it with `run_candidates` of any pair of sweeps).

use vstd::prelude::*;

use crate::config::Config;
use crate::model::{ActionModel, Candidate, FolderModel, delete_action, is_mutation};
use crate::plan::{cands_actions, folder_candidates, folder_fatal, item_actions, sweep_candidates,
    sweep_fatal, run_actions, run_fatal};

verus! {

/// A dry run mutates nothing: its actions are exactly one
/// "to delete" line per candidate, in candidate order, whatever the
/// verbose switch says.
pub proof fn lemma_dry_run_previews_only(cs: Seq<Candidate>, c: Config)
    requires
        c.dry_run,
    ensures
        cands_actions(cs, c) == cs.map_values(
            |cd: Candidate| (ActionModel::PrintToDelete { path: cd.path }),
        ),
        forall|i: int|
            0 <= i < cands_actions(cs, c).len() ==> !is_mutation(#[trigger] cands_actions(cs, c)[i]),
    decreases cs.len(),
{
    let printed = cs.map_values(|cd: Candidate| (ActionModel::PrintToDelete { path: cd.path }));
    if cs.len() == 0 {
        assert(cands_actions(cs, c) =~= printed);
    } else {
        lemma_dry_run_previews_only(cs.drop_first(), c);
        assert(cands_actions(cs, c) =~= printed);
    }
}

/// A run with neither switch set deletes and does nothing else: its
/// actions are exactly one deletion per candidate, in candidate order.
pub proof fn lemma_silent_run_deletes_only(cs: Seq<Candidate>, c: Config)
    requires
        !c.dry_run,
        !c.verbose,
    ensures
        cands_actions(cs, c) == cs.map_values(|cd: Candidate| delete_action(cd)),
    decreases cs.len(),
{
    let deleted = cs.map_values(|cd: Candidate| delete_action(cd));
    if cs.len() == 0 {
        assert(cands_actions(cs, c) =~= deleted);
    } else {
        lemma_silent_run_deletes_only(cs.drop_first(), c);
        assert(cands_actions(cs, c) =~= deleted);
    }
}

/// Outside a dry run, every candidate is deleted: for each candidate
/// the plan contains its deletion, whatever the verbose switch says.
pub proof fn lemma_real_run_deletes_every_candidate(cs: Seq<Candidate>, c: Config)
    requires
        !c.dry_run,
    ensures
        forall|j: int|
            0 <= j < cs.len() ==> cands_actions(cs, c).contains(delete_action(#[trigger] cs[j])),
    decreases cs.len(),
{
    if cs.len() > 0 {
        lemma_real_run_deletes_every_candidate(cs.drop_first(), c);
        let ia = item_actions(cs[0].path, cs[0].is_dir, c);
        let rest = cands_actions(cs.drop_first(), c);
        assert(cands_actions(cs, c) == ia + rest);
        assert(ia[ia.len() - 1] == delete_action(cs[0]));
        assert((ia + rest)[ia.len() - 1] == delete_action(cs[0]));
        assert(cands_actions(cs, c).contains(delete_action(cs[0])));
        assert forall|j: int| 1 <= j < cs.len() implies cands_actions(cs, c).contains(
            delete_action(cs[j]),
        ) by {
            assert(cs.drop_first()[j - 1] == cs[j]);
            assert(rest.contains(delete_action(cs[j])));
            let k = choose|k: int| 0 <= k < rest.len() && rest[k] == delete_action(cs[j]);
            assert((ia + rest)[ia.len() + k] == delete_action(cs[j]));
        }
    }
}

/// A verbose run logs each deletion exactly once, immediately before
/// attempting it: the plan is log/delete pairs, one pair per
/// candidate, in candidate order.
pub proof fn lemma_verbose_logs_each_deletion(cs: Seq<Candidate>, c: Config)
    requires
        !c.dry_run,
        c.verbose,
    ensures
        cands_actions(cs, c).len() == 2 * cs.len(),
        forall|k: int|
            0 <= k < cs.len() ==> cands_actions(cs, c)[2 * k] == (ActionModel::LogDeleting {
                path: (#[trigger] cs[k]).path,
            }),
        forall|k: int|
            0 <= k < cs.len() ==> cands_actions(cs, c)[2 * k + 1] == delete_action(
                #[trigger] cs[k],
            ),
    decreases cs.len(),
{
    if cs.len() > 0 {
        lemma_verbose_logs_each_deletion(cs.drop_first(), c);
        let ia = item_actions(cs[0].path, cs[0].is_dir, c);
        let rest = cands_actions(cs.drop_first(), c);
        assert(cands_actions(cs, c) == ia + rest);
        assert(ia.len() == 2);
        assert forall|k: int| 0 <= k < cs.len() implies cands_actions(cs, c)[2 * k]
            == (ActionModel::LogDeleting { path: (cs[k]).path }) && cands_actions(cs, c)[2 * k + 1]
            == delete_action(cs[k]) by {
            if k == 0 {
                assert((ia + rest)[0] == ia[0]);
                assert((ia + rest)[1] == ia[1]);
            } else {
                assert(cs.drop_first()[k - 1] == cs[k]);
                assert((ia + rest)[2 * k] == rest[2 * (k - 1)]);
                assert((ia + rest)[2 * k + 1] == rest[2 * (k - 1) + 1]);
            }
        }
    }
}

/// A target folder that does not exist changes nothing: a sweep with
/// it behaves exactly as the sweep without it, for candidates and for
/// the abort reason alike.
pub proof fn lemma_missing_folder_skipped(fs: Seq<FolderModel>, i: int, leaf: bool)
    requires
        0 <= i < fs.len(),
        fs[i].entries is None,
    ensures
        sweep_candidates(fs, leaf) == sweep_candidates(fs.remove(i), leaf),
        sweep_fatal(fs, leaf) == sweep_fatal(fs.remove(i), leaf),
    decreases i,
{
    if i == 0 {
        assert(fs.remove(0) =~= fs.drop_first());
        assert(folder_candidates(fs[0], leaf) =~= Seq::<Candidate>::empty());
        assert(Seq::<Candidate>::empty() + sweep_candidates(fs.drop_first(), leaf)
            =~= sweep_candidates(fs.drop_first(), leaf));
    } else {
        lemma_missing_folder_skipped(fs.drop_first(), i - 1, leaf);
        assert(fs.drop_first()[i - 1] == fs[i]);
        assert(fs.remove(i).drop_first() =~= fs.drop_first().remove(i - 1));
        assert(fs.remove(i)[0] == fs[0]);
    }
}

/// A run that resolved no targets at all — the environment variable
/// was absent, so neither sweep has a folder to look at — performs no
/// action and does not abort.
pub proof fn lemma_no_targets_no_actions(c: Config)
    ensures
        run_actions(Seq::<FolderModel>::empty(), Seq::<FolderModel>::empty(), c)
            == Seq::<ActionModel>::empty(),
        run_fatal(Seq::<FolderModel>::empty(), Seq::<FolderModel>::empty()) is None,
{
    let nothing = Seq::<FolderModel>::empty();
    assert(sweep_candidates(nothing, false) + sweep_candidates(nothing, true)
        =~= Seq::<Candidate>::empty());
}

} // verus!
