use tardis::parse::ParseError;
use tardis::parse::collect_records;
use tardis::parse::parse_history_file;
use tardis::parse::parse_history_info;

fn good_text() -> String {
    String::from(
        "{\"version\":1,\"resource\":\"file:///w/f.txt\",\"entries\":[{\"id\":\"a\",\"timestamp\":1000},{\"id\":\"b\",\"timestamp\":2000}]}",
    )
}

#[test]
fn parses_a_well_formed_record() {
    let info = parse_history_info(&good_text()).unwrap();
    assert_eq!(info.version, 1);
    assert_eq!(info.resource.scheme, "file");
    assert_eq!(info.resource.path, "/w/f.txt");
    assert_eq!(info.entries.len(), 2);
    assert_eq!(info.entries[0].id, "a");
    assert_eq!(info.entries[0].timestamp_ms, 1000);
    assert_eq!(info.entries[1].id, "b");
    assert_eq!(info.entries[1].timestamp_ms, 2000);
}

#[test]
fn binds_the_record_to_its_directory() {
    let file = parse_history_file(String::from("/hist/42"), &good_text()).unwrap();
    assert_eq!(file.dir, "/hist/42");
    assert_eq!(file.info.entries.len(), 2);
}

#[test]
fn malformed_json_is_rejected() {
    let r = parse_history_info("{not json");
    assert!(matches!(r, Err(ParseError::Json)));
}

#[test]
fn unparseable_timestamp_rejects_the_whole_file() {
    let text =
        "{\"version\":1,\"resource\":\"file:///w/f.txt\",\"entries\":[{\"id\":\"a\",\"timestamp\":\"soon\"}]}";
    let r = parse_history_info(text);
    assert!(matches!(r, Err(ParseError::EntryTimestamp)));
}

#[test]
fn missing_timestamp_rejects_the_whole_file() {
    let text = "{\"version\":1,\"resource\":\"file:///w/f.txt\",\"entries\":[{\"id\":\"a\"}]}";
    let r = parse_history_info(text);
    assert!(matches!(r, Err(ParseError::EntryTimestamp)));
}

#[test]
fn out_of_range_timestamp_rejects_the_whole_file() {
    let text =
        "{\"version\":1,\"resource\":\"file:///w/f.txt\",\"entries\":[{\"id\":\"a\",\"timestamp\":9223372036854775807}]}";
    let r = parse_history_info(text);
    assert!(matches!(r, Err(ParseError::EntryTimestamp)));
}

#[test]
fn missing_id_is_rejected() {
    let text = "{\"version\":1,\"resource\":\"file:///w/f.txt\",\"entries\":[{\"timestamp\":7}]}";
    let r = parse_history_info(text);
    assert!(matches!(r, Err(ParseError::EntryId)));
}

#[test]
fn missing_version_is_rejected() {
    let text = "{\"resource\":\"file:///w/f.txt\",\"entries\":[]}";
    assert!(matches!(parse_history_info(text), Err(ParseError::Version)));
}

#[test]
fn oversized_version_is_rejected() {
    let text = "{\"version\":4294967296,\"resource\":\"file:///w/f.txt\",\"entries\":[]}";
    assert!(matches!(parse_history_info(text), Err(ParseError::Version)));
}

#[test]
fn negative_version_is_rejected() {
    let text = "{\"version\":-1,\"resource\":\"file:///w/f.txt\",\"entries\":[]}";
    assert!(matches!(parse_history_info(text), Err(ParseError::Version)));
}

#[test]
fn missing_resource_is_rejected() {
    let text = "{\"version\":1,\"entries\":[]}";
    assert!(matches!(parse_history_info(text), Err(ParseError::Resource)));
}

#[test]
fn non_string_resource_is_rejected() {
    let text = "{\"version\":1,\"resource\":9,\"entries\":[]}";
    assert!(matches!(parse_history_info(text), Err(ParseError::Resource)));
}

#[test]
fn invalid_uri_is_rejected() {
    let text = "{\"version\":1,\"resource\":\"not a uri\",\"entries\":[]}";
    assert!(matches!(parse_history_info(text), Err(ParseError::BadUri)));
}

#[test]
fn missing_entries_is_rejected() {
    let text = "{\"version\":1,\"resource\":\"file:///w/f.txt\"}";
    assert!(matches!(parse_history_info(text), Err(ParseError::Entries)));
}

#[test]
fn scheme_is_lower_cased_by_the_uri_parser() {
    let text = "{\"version\":1,\"resource\":\"FILE:///w/f.txt\",\"entries\":[]}";
    let info = parse_history_info(text).unwrap();
    assert_eq!(info.resource.scheme, "file");
}

#[test]
fn error_messages_name_the_failure() {
    assert_eq!(ParseError::Json.message(), "metadata file is not valid JSON");
    assert_eq!(
        ParseError::EntryTimestamp.message(),
        "metadata entry has no valid timestamp"
    );
}

#[test]
fn collect_keeps_only_correlated_records() {
    let other =
        "{\"version\":1,\"resource\":\"file:///elsewhere/g.txt\",\"entries\":[]}";
    let http =
        "{\"version\":1,\"resource\":\"http://host/w/f.txt\",\"entries\":[]}";
    let raw = vec![
        (String::from("/hist/1"), good_text()),
        (String::from("/hist/2"), String::from(other)),
        (String::from("/hist/3"), String::from(http)),
    ];
    let found = collect_records(raw, "/w").unwrap();
    assert_eq!(found.len(), 1);
    assert_eq!(found[0].dir, "/hist/1");
}

#[test]
fn empty_scan_collects_nothing() {
    let found = collect_records(Vec::new(), "/w").unwrap();
    assert!(found.is_empty());
}

#[test]
fn collect_aborts_on_one_malformed_record() {
    let raw = vec![
        (String::from("/hist/1"), good_text()),
        (String::from("/hist/2"), String::from("{broken")),
    ];
    assert!(matches!(collect_records(raw, "/w"), Err(ParseError::Json)));
}
