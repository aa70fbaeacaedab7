//! Backup metadata records and the correlation filter.
//!
//! A `CodeHistoryFile` binds one parsed metadata record to the backup-store
//! subdirectory it was found in. Correlation keeps exactly the records whose
//! original file is a plain local file under the working directory.

use vstd::prelude::*;

use crate::paths::check_path_prefix;
use crate::paths::is_path_prefix;
use crate::paths::join_path;
use crate::paths::spec_join;
use crate::paths::str_eq;

verus! {

/// The content of one backup entry as plain values: its id and timestamp.
pub type EntryModel = (Seq<char>, i64);

/// The content of one record as plain values: version, scheme, path, and
/// the entries in stored order.
pub type InfoModel = (u32, Seq<char>, Seq<char>, Seq<EntryModel>);

/// A record's content together with its containing directory.
pub type FileModel = (Seq<char>, InfoModel);

/// The identity of a record's original file: the scheme and path of its URI.
pub struct Uri {
    pub scheme: String,
    pub path: String,
}

/// One timestamped backup: a filename relative to the record's directory
/// and the capture instant in milliseconds since the Unix epoch (UTC).
pub struct CodeHistoryEntry {
    pub id: String,
    pub timestamp_ms: i64,
}

impl CodeHistoryEntry {
    /// The entry's content as plain values.
    pub open spec fn model(self) -> EntryModel {
        (self.id@, self.timestamp_ms)
    }
}

/// One decoded metadata record: format version, original-file identity and
/// the backups in the order the store wrote them (oldest first).
pub struct CodeHistoryInfo {
    pub version: u32,
    pub resource: Uri,
    pub entries: Vec<CodeHistoryEntry>,
}

impl CodeHistoryInfo {
    /// The record's content as plain values.
    pub open spec fn model(self) -> InfoModel {
        (
            self.version,
            self.resource.scheme@,
            self.resource.path@,
            self.entries@.map_values(|e: CodeHistoryEntry| e.model()),
        )
    }
}

/// A record together with the backup-store subdirectory that holds its
/// metadata file and its backup content files.
pub struct CodeHistoryFile {
    pub dir: String,
    pub info: CodeHistoryInfo,
}

impl CodeHistoryFile {
    /// The bound record's content as plain values.
    pub open spec fn model(self) -> FileModel {
        (self.dir@, self.info.model())
    }

    /// The timestamp and absolute backup file path of each entry, in entry
    /// order.
    pub open spec fn spec_backup_files(self) -> Seq<(i64, Seq<char>)> {
        self.info.entries@.map_values(
            |e: CodeHistoryEntry| (e.timestamp_ms, spec_join(self.dir@, e.id@)),
        )
    }

    /// The original file's path, as the record's URI carries it.
    pub fn current_file(&self) -> (r: String)
        ensures
            r@ == self.info.resource.path@,
    {
        self.info.resource.path.clone()
    }

    /// Each backup entry as a (timestamp, absolute path) pair, preserving
    /// the stored order.
    pub fn backup_files(&self) -> (r: Vec<(i64, String)>)
        ensures
            r@.len() == self.spec_backup_files().len(),
            forall|i: int|
                0 <= i < r@.len() ==> (r@[i].0, r@[i].1@) == self.spec_backup_files()[i],
    {
        let mut r: Vec<(i64, String)> = Vec::new();
        let n = self.info.entries.len();
        let mut i: usize = 0;
        while i < n
            invariant
                0 <= i <= n == self.info.entries@.len(),
                r@.len() == i,
                forall|j: int|
                    0 <= j < i ==> (r@[j].0, r@[j].1@) == self.spec_backup_files()[j],
            decreases n - i,
        {
            let e = &self.info.entries[i];
            let p = join_path(self.dir.as_str(), e.id.as_str());
            r.push((e.timestamp_ms, p));
            i += 1;
        }
        r
    }

    /// Whether the record's resource carries the given URI scheme.
    pub fn is_scheme(&self, scheme: &str) -> (r: bool)
        ensures
            r == (self.info.resource.scheme@ == scheme@),
    {
        str_eq(self.info.resource.scheme.as_str(), scheme)
    }
}

/// Whether a record belongs to `current_dir`: its resource is a plain
/// local file (`file` scheme) whose path is `current_dir` or lies below it.
pub open spec fn spec_correlates(file: CodeHistoryFile, current_dir: Seq<char>) -> bool {
    file.info.resource.scheme@ == "file"@ && is_path_prefix(current_dir, file.info.resource.path@)
}

/// The same criterion, over a record's content alone.
pub open spec fn spec_model_correlates(m: FileModel, current_dir: Seq<char>) -> bool {
    m.1.1 == "file"@ && is_path_prefix(current_dir, m.1.2)
}

/// The correlation filter: keeps `file` exactly when its original file is
/// a local file under `current_dir`, and keeps it unchanged.
pub fn correlate(file: CodeHistoryFile, current_dir: &str) -> (r: Option<CodeHistoryFile>)
    ensures
        (r is Some) == spec_correlates(file, current_dir@),
        r matches Some(f) ==> f == file,
{
    if !file.is_scheme("file") {
        return None;
    }
    let p = file.current_file();
    if check_path_prefix(current_dir, p.as_str()) {
        Some(file)
    } else {
        None
    }
}

} // verus!
