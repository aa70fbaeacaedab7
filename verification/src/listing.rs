//! Listing and restoration over correlated records.
//!
//! Listing turns records into summary rows (relative path and backup count)
//! or verbose rows (one per backup, with an RFC 3339 timestamp). Restoration
//! plans the copy of a record's newest backup onto its original file.

use vstd::prelude::*;

use crate::history::CodeHistoryEntry;
use crate::history::CodeHistoryFile;
use crate::paths::is_path_prefix;
use crate::paths::join_path;
use crate::paths::make_relative;
use crate::paths::spec_join;
use crate::paths::spec_relative;
use crate::timefmt::format_timestamp_ms;
use crate::timefmt::ms_in_datetime_range;
use crate::timefmt::rfc3339_of;

verus! {

/// Why a listing or restoration failed. Any one of these aborts the whole
/// invocation.
#[derive(Debug)]
pub enum QueryError {
    /// A record's path could not be made relative to the working directory.
    Path,
    /// A record has no backup entries to restore from.
    NotFound,
    /// A backup's timestamp lies outside the representable datetime range.
    Timestamp,
}

impl QueryError {
    pub open spec fn spec_message(self) -> Seq<char> {
        match self {
            QueryError::Path => "record path is outside the working directory"@,
            QueryError::NotFound => "no backup files found"@,
            QueryError::Timestamp => "backup timestamp is out of range"@,
        }
    }

    /// A human-readable description of the failure.
    pub fn message(&self) -> (r: String)
        ensures
            r@ == self.spec_message(),
    {
        match self {
            QueryError::Path => "record path is outside the working directory".to_owned(),
            QueryError::NotFound => "no backup files found".to_owned(),
            QueryError::Timestamp => "backup timestamp is out of range".to_owned(),
        }
    }
}

/// One non-verbose listing row: the original file relative to the working
/// directory, and how many backups the record holds.
pub struct ListSummary {
    pub current_file: String,
    pub backup_count: usize,
}

/// One verbose listing row: the original file relative to the working
/// directory, one backup's timestamp (raw and rendered) and its absolute
/// backup file path.
pub struct ListDetail {
    pub current_file: String,
    pub timestamp_ms: i64,
    pub timestamp_text: String,
    pub backup_file: String,
}

impl ListDetail {
    pub open spec fn model(self) -> (Seq<char>, int, Seq<char>, Seq<char>) {
        (self.current_file@, self.timestamp_ms as int, self.timestamp_text@, self.backup_file@)
    }
}

/// The verbose row a record yields for one of its entries.
pub open spec fn spec_detail(file: CodeHistoryFile, e: CodeHistoryEntry, dir: Seq<char>) -> (
    Seq<char>,
    int,
    Seq<char>,
    Seq<char>,
) {
    (
        spec_relative(dir, file.info.resource.path@),
        e.timestamp_ms as int,
        rfc3339_of(e.timestamp_ms as int),
        spec_join(file.dir@, e.id@),
    )
}

/// The verbose rows a record yields: one per entry, in stored order.
pub open spec fn spec_details_of(file: CodeHistoryFile, dir: Seq<char>) -> Seq<
    (Seq<char>, int, Seq<char>, Seq<char>),
> {
    file.info.entries@.map_values(|e: CodeHistoryEntry| spec_detail(file, e, dir))
}

/// A record can be listed when its path lies under the working directory
/// and every timestamp is representable.
pub open spec fn spec_file_listable(file: CodeHistoryFile, dir: Seq<char>) -> bool {
    &&& is_path_prefix(dir, file.info.resource.path@)
    &&& forall|j: int|
        0 <= j < file.info.entries@.len() ==> ms_in_datetime_range(
            file.info.entries@[j].timestamp_ms as int,
        )
}

/// The non-verbose listing: one summary per record, in the given order.
pub fn list_summaries(files: &Vec<CodeHistoryFile>, current_dir: &str) -> (r: Result<
    Vec<ListSummary>,
    QueryError,
>)
    ensures
        (r is Ok) <==> (forall|i: int|
            0 <= i < files@.len() ==> is_path_prefix(current_dir@, files@[i].info.resource.path@)),
        r matches Ok(v) ==> {
            &&& v@.len() == files@.len()
            &&& forall|i: int|
                0 <= i < files@.len() ==> v@[i].current_file@ == spec_relative(
                    current_dir@,
                    files@[i].info.resource.path@,
                ) && v@[i].backup_count == files@[i].info.entries@.len()
        },
        r matches Err(e) ==> e is Path,
{
    let mut out: Vec<ListSummary> = Vec::new();
    let n = files.len();
    let mut i: usize = 0;
    while i < n
        invariant
            0 <= i <= n == files@.len(),
            out@.len() == i,
            forall|j: int|
                0 <= j < i ==> is_path_prefix(current_dir@, files@[j].info.resource.path@),
            forall|j: int|
                0 <= j < i ==> out@[j].current_file@ == spec_relative(
                    current_dir@,
                    files@[j].info.resource.path@,
                ) && out@[j].backup_count == files@[j].info.entries@.len(),
        decreases n - i,
    {
        let file = &files[i];
        let rel = match make_relative(current_dir, file.info.resource.path.as_str()) {
            Some(s) => s,
            None => {
                return Err(QueryError::Path);
            },
        };
        out.push(ListSummary { current_file: rel, backup_count: file.info.entries.len() });
        i += 1;
    }
    Ok(out)
}

/// The verbose rows of one record: one per backup entry, in stored order.
pub fn list_details_for(file: &CodeHistoryFile, current_dir: &str) -> (r: Result<
    Vec<ListDetail>,
    QueryError,
>)
    ensures
        (r is Ok) <==> spec_file_listable(*file, current_dir@),
        r matches Ok(v) ==> v@.map_values(|d: ListDetail| d.model()) == spec_details_of(
            *file,
            current_dir@,
        ),
        r matches Err(e) ==> {
            &&& (e is Path) <==> !is_path_prefix(current_dir@, file.info.resource.path@)
            &&& (e is Timestamp) <==> (is_path_prefix(current_dir@, file.info.resource.path@)
                && exists|j: int|
                0 <= j < file.info.entries@.len() && !ms_in_datetime_range(
                    file.info.entries@[j].timestamp_ms as int,
                ))
        },
{
    let rel = match make_relative(current_dir, file.info.resource.path.as_str()) {
        Some(s) => s,
        None => {
            return Err(QueryError::Path);
        },
    };
    let mut out: Vec<ListDetail> = Vec::new();
    let n = file.info.entries.len();
    let mut i: usize = 0;
    while i < n
        invariant
            0 <= i <= n == file.info.entries@.len(),
            is_path_prefix(current_dir@, file.info.resource.path@),
            rel@ == spec_relative(current_dir@, file.info.resource.path@),
            out@.len() == i,
            forall|j: int|
                0 <= j < i ==> ms_in_datetime_range(file.info.entries@[j].timestamp_ms as int),
            forall|j: int|
                0 <= j < i ==> out@[j].model() == spec_details_of(*file, current_dir@)[j],
        decreases n - i,
    {
        let e = &file.info.entries[i];
        let txt = match format_timestamp_ms(e.timestamp_ms) {
            Some(t) => t,
            None => {
                return Err(QueryError::Timestamp);
            },
        };
        let backup = join_path(file.dir.as_str(), e.id.as_str());
        out.push(
            ListDetail {
                current_file: rel.clone(),
                timestamp_ms: e.timestamp_ms,
                timestamp_text: txt,
                backup_file: backup,
            },
        );
        i += 1;
    }
    proof {
        assert(out@.map_values(|d: ListDetail| d.model()) =~~= spec_details_of(
            *file,
            current_dir@,
        ));
    }
    Ok(out)
}

/// The verbose rows of every record, record by record, in the given order.
pub open spec fn spec_verbose(files: Seq<CodeHistoryFile>, dir: Seq<char>) -> Seq<
    (Seq<char>, int, Seq<char>, Seq<char>),
>
    decreases files.len(),
{
    if files.len() == 0 {
        Seq::empty()
    } else {
        spec_verbose(files.drop_last(), dir) + spec_details_of(files.last(), dir)
    }
}

/// The verbose listing: the rows of each record, concatenated in order.
pub fn list_verbose(files: &Vec<CodeHistoryFile>, current_dir: &str) -> (r: Result<
    Vec<ListDetail>,
    QueryError,
>)
    ensures
        (r is Ok) <==> (forall|i: int|
            0 <= i < files@.len() ==> spec_file_listable(files@[i], current_dir@)),
        r matches Ok(v) ==> v@.map_values(|d: ListDetail| d.model()) == spec_verbose(
            files@,
            current_dir@,
        ),
        r matches Err(e) ==> e is Path || e is Timestamp,
{
    let mut out: Vec<ListDetail> = Vec::new();
    let n = files.len();
    let mut i: usize = 0;
    while i < n
        invariant
            0 <= i <= n == files@.len(),
            forall|j: int| 0 <= j < i ==> spec_file_listable(files@[j], current_dir@),
            out@.map_values(|d: ListDetail| d.model()) == spec_verbose(
                files@.take(i as int),
                current_dir@,
            ),
        decreases n - i,
    {
        let file = &files[i];
        let mut part = match list_details_for(file, current_dir) {
            Ok(v) => v,
            Err(e) => {
                return Err(e);
            },
        };
        let ghost old_out = out@;
        let ghost old_part = part@;
        out.append(&mut part);
        proof {
            let m = |d: ListDetail| d.model();
            assert(out@.map_values(m) =~~= old_out.map_values(m) + old_part.map_values(m));
            assert(files@.take(i + 1).drop_last() =~= files@.take(i as int));
            assert(files@.take(i + 1).last() == files@[i as int]);
        }
        i += 1;
    }
    proof {
        assert(files@.take(n as int) =~= files@);
    }
    Ok(out)
}

/// A planned restoration: the chosen backup's timestamp, the backup file
/// to copy from, the original file to copy onto, and the original file
/// relative to the working directory, for reporting.
pub struct RestorePlan {
    pub timestamp_ms: i64,
    pub source: String,
    pub dest: String,
    pub display_path: String,
}

impl RestorePlan {
    pub open spec fn model(self) -> (int, Seq<char>, Seq<char>, Seq<char>) {
        (self.timestamp_ms as int, self.source@, self.dest@, self.display_path@)
    }
}

/// The plan a record yields: its last entry (the newest backup by stored
/// order) as the source, its original file as the destination.
pub open spec fn spec_restore_plan(file: CodeHistoryFile, dir: Seq<char>) -> (
    int,
    Seq<char>,
    Seq<char>,
    Seq<char>,
) {
    let e = file.info.entries@.last();
    (
        e.timestamp_ms as int,
        spec_join(file.dir@, e.id@),
        file.info.resource.path@,
        spec_relative(dir, file.info.resource.path@),
    )
}

/// Plan the restoration of one record: select the last backup entry and
/// copy it onto the record's original file. Planned only; the caller
/// performs the copy.
pub fn restore_plan(file: &CodeHistoryFile, current_dir: &str) -> (r: Result<
    RestorePlan,
    QueryError,
>)
    ensures
        (r is Ok) <==> (is_path_prefix(current_dir@, file.info.resource.path@)
            && file.info.entries@.len() > 0),
        r matches Ok(p) ==> p.model() == spec_restore_plan(*file, current_dir@),
        r matches Err(e) ==> {
            &&& (e is Path) <==> !is_path_prefix(current_dir@, file.info.resource.path@)
            &&& (e is NotFound) <==> (is_path_prefix(current_dir@, file.info.resource.path@)
                && file.info.entries@.len() == 0)
        },
{
    let display = match make_relative(current_dir, file.info.resource.path.as_str()) {
        Some(s) => s,
        None => {
            return Err(QueryError::Path);
        },
    };
    let n = file.info.entries.len();
    if n == 0 {
        return Err(QueryError::NotFound);
    }
    let e = &file.info.entries[n - 1];
    let source = join_path(file.dir.as_str(), e.id.as_str());
    Ok(
        RestorePlan {
            timestamp_ms: e.timestamp_ms,
            source: source,
            dest: file.info.resource.path.clone(),
            display_path: display,
        },
    )
}

} // verus!
