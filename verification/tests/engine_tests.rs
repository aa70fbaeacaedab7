use tardis::history::CodeHistoryEntry;
use tardis::history::CodeHistoryFile;
use tardis::history::CodeHistoryInfo;
use tardis::history::Uri;
use tardis::history::correlate;
use tardis::listing::QueryError;
use tardis::listing::list_details_for;
use tardis::listing::list_summaries;
use tardis::listing::list_verbose;
use tardis::listing::restore_plan;
use tardis::parse::collect_records;

fn record(scheme: &str, path: &str, dir: &str, stamps: &[(&str, i64)]) -> CodeHistoryFile {
    CodeHistoryFile {
        dir: String::from(dir),
        info: CodeHistoryInfo {
            version: 1,
            resource: Uri { scheme: String::from(scheme), path: String::from(path) },
            entries: stamps
                .iter()
                .map(|(id, ts)| CodeHistoryEntry { id: String::from(*id), timestamp_ms: *ts })
                .collect(),
        },
    }
}

#[test]
fn scheme_filter_excludes_non_file_schemes() {
    let dir = "/w";
    for scheme in ["http", "untitled"] {
        let f = record(scheme, "/w/f.txt", "/hist/1", &[("a", 1000)]);
        assert!(correlate(f, dir).is_none());
    }
    let f = record("file", "/w/f.txt", "/hist/1", &[("a", 1000)]);
    assert!(correlate(f, dir).is_some());
}

#[test]
fn correlation_is_component_wise() {
    let included = record("file", "/a/b/x.txt", "/hist/1", &[]);
    assert!(correlate(included, "/a/b").is_some());
    let excluded = record("file", "/a/bc/x.txt", "/hist/1", &[]);
    assert!(correlate(excluded, "/a/b").is_none());
}

#[test]
fn backup_files_preserve_entry_order() {
    let f = record("file", "/w/f.txt", "/d", &[("a", 1000), ("b", 2000)]);
    let bf = f.backup_files();
    assert_eq!(bf.len(), 2);
    assert_eq!(bf[0].0, 1000);
    assert_eq!(bf[0].1, "/d/a");
    assert_eq!(bf[1].0, 2000);
    assert_eq!(bf[1].1, "/d/b");
}

#[test]
fn summary_counts_match_verbose_rows() {
    let f = record("file", "/w/f.txt", "/d", &[("a", 1000), ("b", 2000), ("c", 3000)]);
    let details = list_details_for(&f, "/w").unwrap();
    let files = vec![f];
    let summaries = list_summaries(&files, "/w").unwrap();
    assert_eq!(summaries.len(), 1);
    assert_eq!(summaries[0].backup_count, details.len());
    assert_eq!(summaries[0].current_file, "f.txt");
}

#[test]
fn round_trip_lists_and_restores_the_synthetic_record() {
    let text =
        "{\"version\":1,\"resource\":\"file:///w/f.txt\",\"entries\":[{\"id\":\"a\",\"timestamp\":1000},{\"id\":\"b\",\"timestamp\":2000}]}";
    let raw = vec![(String::from("/hist/42"), String::from(text))];
    let found = collect_records(raw, "/w").unwrap();
    assert_eq!(found.len(), 1);

    let rows = list_verbose(&found, "/w").unwrap();
    assert_eq!(rows.len(), 2);
    assert_eq!(rows[0].current_file, "f.txt");
    assert_eq!(rows[0].timestamp_ms, 1000);
    assert_eq!(rows[0].timestamp_text, "1970-01-01T00:00:01+00:00");
    assert_eq!(rows[0].backup_file, "/hist/42/a");
    assert_eq!(rows[1].timestamp_ms, 2000);
    assert_eq!(rows[1].timestamp_text, "1970-01-01T00:00:02+00:00");
    assert_eq!(rows[1].backup_file, "/hist/42/b");

    let plan = restore_plan(&found[0], "/w").unwrap();
    assert_eq!(plan.timestamp_ms, 2000);
    assert_eq!(plan.source, "/hist/42/b");
    assert_eq!(plan.dest, "/w/f.txt");
    assert_eq!(plan.display_path, "f.txt");
}

#[test]
fn fractional_timestamps_keep_their_milliseconds() {
    let f = record("file", "/w/f.txt", "/d", &[("a", 1500)]);
    let details = list_details_for(&f, "/w").unwrap();
    assert_eq!(details[0].timestamp_text, "1970-01-01T00:00:01.500+00:00");
}

#[test]
fn empty_store_lists_nothing() {
    let files: Vec<CodeHistoryFile> = Vec::new();
    let summaries = list_summaries(&files, "/w").unwrap();
    assert!(summaries.is_empty());
    let rows = list_verbose(&files, "/w").unwrap();
    assert!(rows.is_empty());
}

#[test]
fn restore_without_backups_is_not_found() {
    let f = record("file", "/w/f.txt", "/d", &[]);
    assert!(matches!(restore_plan(&f, "/w"), Err(QueryError::NotFound)));
}

#[test]
fn listing_a_foreign_path_is_a_path_error() {
    let f = record("file", "/elsewhere/f.txt", "/d", &[("a", 1000)]);
    let files = vec![f];
    assert!(matches!(list_summaries(&files, "/w"), Err(QueryError::Path)));
    assert!(matches!(list_verbose(&files, "/w"), Err(QueryError::Path)));
}

#[test]
fn out_of_range_timestamp_is_a_timestamp_error() {
    let f = record("file", "/w/f.txt", "/d", &[("a", i64::MAX)]);
    assert!(matches!(list_details_for(&f, "/w"), Err(QueryError::Timestamp)));
}

#[test]
fn restoring_twice_selects_the_same_source() {
    let f = record("file", "/w/f.txt", "/d", &[("a", 1000), ("b", 2000)]);
    let p1 = restore_plan(&f, "/w").unwrap();
    let p2 = restore_plan(&f, "/w").unwrap();
    assert_eq!(p1.timestamp_ms, p2.timestamp_ms);
    assert_eq!(p1.source, p2.source);
    assert_eq!(p1.dest, p2.dest);
    assert_eq!(p1.display_path, p2.display_path);
}

#[test]
fn current_file_and_scheme_read_the_resource() {
    let f = record("file", "/w/f.txt", "/d", &[]);
    assert_eq!(f.current_file(), "/w/f.txt");
    assert!(f.is_scheme("file"));
    assert!(!f.is_scheme("http"));
}

#[test]
fn query_error_messages_name_the_failure() {
    assert_eq!(QueryError::NotFound.message(), "no backup files found");
    assert_eq!(
        QueryError::Path.message(),
        "record path is outside the working directory"
    );
}
