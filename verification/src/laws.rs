//! Properties that relate the library's operations to one another.

use vstd::prelude::*;

use crate::history::CodeHistoryFile;
use crate::history::spec_correlates;
use crate::listing::RestorePlan;
use crate::listing::spec_details_of;
use crate::listing::spec_restore_plan;
use crate::parse::spec_collect;
use crate::parse::spec_info_model;

verus! {

/// The index of the scanned pair a collected record came from.
proof fn lemma_collect_dir_member(
    raw: Seq<(String, String)>,
    dir: Seq<char>,
    k: int,
) -> (i: int)
    requires
        0 <= k < spec_collect(raw, dir).len(),
    ensures
        0 <= i < raw.len(),
        spec_collect(raw, dir)[k].0 == raw[i].0@,
    decreases raw.len(),
{
    assert(raw.len() > 0);
    let rest = spec_collect(raw.drop_last(), dir);
    if k < rest.len() {
        let i = lemma_collect_dir_member(raw.drop_last(), dir, k);
        assert(raw.drop_last()[i] == raw[i]);
        i
    } else {
        assert(spec_collect(raw, dir)[k] == (raw.last().0@, spec_info_model(raw.last().1@)));
        raw.len() - 1
    }
}

/// Law: when no two scanned subdirectories coincide — the store keeps one
/// metadata directory per tracked file — no two collected records share a
/// containing directory.
pub proof fn lemma_collect_distinct_dirs(
    raw: Seq<(String, String)>,
    dir: Seq<char>,
    k: int,
    l: int,
)
    requires
        forall|i: int, j: int| 0 <= i < j < raw.len() ==> raw[i].0@ != raw[j].0@,
        0 <= k < l < spec_collect(raw, dir).len(),
    ensures
        spec_collect(raw, dir)[k].0 != spec_collect(raw, dir)[l].0,
    decreases raw.len(),
{
    assert(raw.len() > 0);
    let s = spec_collect(raw, dir);
    let rest = spec_collect(raw.drop_last(), dir);
    assert(forall|i: int, j: int|
        0 <= i < j < raw.drop_last().len() ==> raw.drop_last()[i].0@ != raw.drop_last()[j].0@) by {
        assert(forall|i: int|
            0 <= i < raw.drop_last().len() ==> raw.drop_last()[i] == raw[i]);
    }
    if l < rest.len() {
        lemma_collect_distinct_dirs(raw.drop_last(), dir, k, l);
        assert(s[k] == rest[k]);
        assert(s[l] == rest[l]);
    } else {
        let i = lemma_collect_dir_member(raw.drop_last(), dir, k);
        assert(raw.drop_last()[i] == raw[i]);
        assert(s[l].0 == raw.last().0@);
        assert(raw[i].0@ != raw[raw.len() - 1].0@);
    }
}

/// Law: correlation keeps only records whose resource carries the
/// local-file scheme, whatever their path.
pub proof fn lemma_scheme_filter(file: CodeHistoryFile, dir: Seq<char>)
    ensures
        spec_correlates(file, dir) ==> file.info.resource.scheme@ == "file"@,
{
}

/// Law: the backup count a summary reports for a record equals the number
/// of verbose rows the record yields.
pub proof fn lemma_count_consistency(file: CodeHistoryFile, dir: Seq<char>)
    ensures
        spec_details_of(file, dir).len() == file.info.entries@.len(),
{
}

/// Law: the backup-file sequence preserves the stored entry order, and
/// when the stored timestamps are non-decreasing in that order, the entry
/// a restore plan selects (the last) carries a maximal timestamp.
pub proof fn lemma_restore_selects_latest(file: CodeHistoryFile, dir: Seq<char>)
    requires
        file.info.entries@.len() > 0,
        forall|i: int, j: int|
            0 <= i <= j < file.info.entries@.len() ==> file.info.entries@[i].timestamp_ms
                <= file.info.entries@[j].timestamp_ms,
    ensures
        forall|i: int|
            0 <= i < file.spec_backup_files().len() ==> file.spec_backup_files()[i].0
                == file.info.entries@[i].timestamp_ms,
        forall|i: int, j: int|
            0 <= i <= j < file.spec_backup_files().len() ==> file.spec_backup_files()[i].0
                <= file.spec_backup_files()[j].0,
        forall|i: int|
            0 <= i < file.info.entries@.len() ==> file.info.entries@[i].timestamp_ms as int
                <= spec_restore_plan(file, dir).0,
{
}

/// Law: a restore plan is a function of the record and the working
/// directory alone, so restoring a record twice with no intervening store
/// change copies the same backup file onto the same destination both times.
pub proof fn lemma_restore_idempotent(
    file: CodeHistoryFile,
    dir: Seq<char>,
    p1: RestorePlan,
    p2: RestorePlan,
)
    requires
        p1.model() == spec_restore_plan(file, dir),
        p2.model() == spec_restore_plan(file, dir),
    ensures
        p1.model() == p2.model(),
{
}

} // verus!
