//! Decoding one metadata file's text into a record.
//!
//! The text is handed to serde_json, and the resource URI to the url crate,
//! through trusted wrappers whose results are named: what each call returns
//! is a function of its arguments alone. Every decision about the decoded
//! values (which fields are required, what a recognizable version is, when
//! the whole file is rejected) is made by the verified code here, so the
//! outcome of a decode is pinned down exactly over those names.

use vstd::prelude::*;

use crate::history::CodeHistoryEntry;
use crate::history::CodeHistoryFile;
use crate::history::CodeHistoryInfo;
use crate::history::FileModel;
use crate::history::InfoModel;
use crate::history::Uri;
use crate::history::correlate;
use crate::history::spec_correlates;
use crate::history::spec_model_correlates;
use crate::timefmt::format_timestamp_ms;
use crate::timefmt::ms_in_datetime_range;

verus! {

#[verifier::external_type_specification]
#[verifier::external_body]
pub struct ExJsonValue(serde_json::Value);

#[verifier::external_type_specification]
#[verifier::external_body]
pub struct ExUrl(url::Url);

/// Whether serde_json accepts the text as a JSON document.
pub uninterp spec fn json_parses(text: Seq<char>) -> bool;

/// The JSON document serde_json decodes the text into.
pub uninterp spec fn json_value_of(text: Seq<char>) -> serde_json::Value;

/// The value under `key` when the document is an object with that key.
pub uninterp spec fn json_field_of(v: serde_json::Value, key: Seq<char>) -> Option<
    serde_json::Value,
>;

/// The value as an unsigned integer, when it is one.
pub uninterp spec fn json_u64_of(v: serde_json::Value) -> Option<u64>;

/// The value as a signed integer, when it is one.
pub uninterp spec fn json_i64_of(v: serde_json::Value) -> Option<i64>;

/// The value's text, when it is a string.
pub uninterp spec fn json_str_of(v: serde_json::Value) -> Option<Seq<char>>;

/// The value's elements, when it is an array.
pub uninterp spec fn json_array_of(v: serde_json::Value) -> Option<Seq<serde_json::Value>>;

/// Whether the url crate accepts the text as an absolute URL.
pub uninterp spec fn uri_parses(text: Seq<char>) -> bool;

/// The URL the url crate parses the text into.
pub uninterp spec fn url_of(text: Seq<char>) -> url::Url;

/// The URL's scheme.
pub uninterp spec fn scheme_of(u: url::Url) -> Seq<char>;

/// The URL's path.
pub uninterp spec fn path_of(u: url::Url) -> Seq<char>;

/// Relies on serde_json::from_str for Value: acceptance and the decoded
/// document depend on the text alone.
#[verifier::external_body]
fn json_parse(text: &str) -> (r: Option<serde_json::Value>)
    ensures
        (r is Some) == json_parses(text@),
        r matches Some(v) ==> v == json_value_of(text@),
{
    let v: Result<serde_json::Value, serde_json::Error> = serde_json::from_str(text);
    v.ok()
}

/// Relies on serde_json's Value::get: field lookup by key on an object, a
/// function of the value and key alone.
#[verifier::external_body]
fn json_get<'a>(v: &'a serde_json::Value, key: &str) -> (r: Option<&'a serde_json::Value>)
    ensures
        (r is Some) == (json_field_of(*v, key@) is Some),
        r matches Some(f) ==> json_field_of(*v, key@) == Some(*f),
{
    v.get(key)
}

/// Relies on serde_json's Value::as_u64: the value as a non-negative
/// integer, a function of the value alone.
#[verifier::external_body]
fn json_as_u64(v: &serde_json::Value) -> (r: Option<u64>)
    ensures
        r == json_u64_of(*v),
{
    v.as_u64()
}

/// Relies on serde_json's Value::as_i64: the value as a signed integer, a
/// function of the value alone.
#[verifier::external_body]
fn json_as_i64(v: &serde_json::Value) -> (r: Option<i64>)
    ensures
        r == json_i64_of(*v),
{
    v.as_i64()
}

/// Relies on serde_json's Value::as_str: the value as a string, a function
/// of the value alone.
#[verifier::external_body]
fn json_as_str(v: &serde_json::Value) -> (r: Option<String>)
    ensures
        (r is Some) == (json_str_of(*v) is Some),
        r matches Some(s) ==> json_str_of(*v) == Some(s@),
{
    match v.as_str() {
        Some(s) => Some(s.to_owned()),
        None => None,
    }
}

/// Relies on serde_json's Value::as_array: the value's elements, a
/// function of the value alone.
#[verifier::external_body]
fn json_as_array(v: &serde_json::Value) -> (r: Option<Vec<serde_json::Value>>)
    ensures
        (r is Some) == (json_array_of(*v) is Some),
        r matches Some(a) ==> json_array_of(*v) == Some(a@),
{
    match v.as_array() {
        Some(a) => Some(a.clone()),
        None => None,
    }
}

/// Relies on url::Url::parse: acceptance and the parsed URL depend on the
/// text alone.
#[verifier::external_body]
fn url_parse(s: &str) -> (r: Option<url::Url>)
    ensures
        (r is Some) == uri_parses(s@),
        r matches Some(u) ==> u == url_of(s@),
{
    url::Url::parse(s).ok()
}

/// Relies on url::Url::scheme: the URL's scheme, lower-cased, a function
/// of the URL alone.
#[verifier::external_body]
fn url_scheme(u: &url::Url) -> (r: String)
    ensures
        r@ == scheme_of(*u),
{
    u.scheme().to_owned()
}

/// Relies on url::Url::path: the URL's path, percent-encoded, a function
/// of the URL alone.
#[verifier::external_body]
fn url_path(u: &url::Url) -> (r: String)
    ensures
        r@ == path_of(*u),
{
    u.path().to_owned()
}

/// Why a metadata file was rejected. Any one of these aborts the whole
/// invocation: a record the tool cannot interpret signals a format mismatch.
#[derive(Debug)]
pub enum ParseError {
    /// The text is not a JSON document.
    Json,
    /// The version field is missing or not an integer that fits the format.
    Version,
    /// The resource field is missing or not a string.
    Resource,
    /// The resource string is not a well-formed URI.
    BadUri,
    /// The entries field is missing or not an array.
    Entries,
    /// An entry's id field is missing or not a string.
    EntryId,
    /// An entry's timestamp field is missing, not an integer, or out of
    /// the representable datetime range.
    EntryTimestamp,
}

impl ParseError {
    pub open spec fn spec_message(self) -> Seq<char> {
        match self {
            ParseError::Json => "metadata file is not valid JSON"@,
            ParseError::Version => "metadata file has no recognizable version"@,
            ParseError::Resource => "metadata file has no resource string"@,
            ParseError::BadUri => "metadata resource is not a valid URI"@,
            ParseError::Entries => "metadata file has no entries array"@,
            ParseError::EntryId => "metadata entry has no id string"@,
            ParseError::EntryTimestamp => "metadata entry has no valid timestamp"@,
        }
    }

    /// A human-readable description of the failure.
    pub fn message(&self) -> (r: String)
        ensures
            r@ == self.spec_message(),
    {
        match self {
            ParseError::Json => "metadata file is not valid JSON".to_owned(),
            ParseError::Version => "metadata file has no recognizable version".to_owned(),
            ParseError::Resource => "metadata file has no resource string".to_owned(),
            ParseError::BadUri => "metadata resource is not a valid URI".to_owned(),
            ParseError::Entries => "metadata file has no entries array".to_owned(),
            ParseError::EntryId => "metadata entry has no id string".to_owned(),
            ParseError::EntryTimestamp => "metadata entry has no valid timestamp".to_owned(),
        }
    }
}

/// The document's version field, read as an unsigned integer.
pub open spec fn spec_version(doc: serde_json::Value) -> Option<u64> {
    match json_field_of(doc, "version"@) {
        Some(f) => json_u64_of(f),
        None => None,
    }
}

/// A version is recognized when it is an integer fitting the 32-bit
/// version field.
pub open spec fn spec_version_ok(doc: serde_json::Value) -> bool {
    spec_version(doc) matches Some(x) && x <= u32::MAX
}

/// The document's resource field, read as a string.
pub open spec fn spec_resource(doc: serde_json::Value) -> Option<Seq<char>> {
    match json_field_of(doc, "resource"@) {
        Some(f) => json_str_of(f),
        None => None,
    }
}

/// The resource string, where there is one.
pub open spec fn spec_resource_val(doc: serde_json::Value) -> Seq<char> {
    match spec_resource(doc) {
        Some(s) => s,
        None => Seq::empty(),
    }
}

/// The document's entries field, read as an array.
pub open spec fn spec_entries(doc: serde_json::Value) -> Option<Seq<serde_json::Value>> {
    match json_field_of(doc, "entries"@) {
        Some(f) => json_array_of(f),
        None => None,
    }
}

/// The entry array, where there is one.
pub open spec fn spec_entries_val(doc: serde_json::Value) -> Seq<serde_json::Value> {
    match spec_entries(doc) {
        Some(a) => a,
        None => Seq::empty(),
    }
}

/// One entry's id field, read as a string.
pub open spec fn spec_entry_id(ev: serde_json::Value) -> Option<Seq<char>> {
    match json_field_of(ev, "id"@) {
        Some(f) => json_str_of(f),
        None => None,
    }
}

/// One entry's timestamp field, read as a signed integer.
pub open spec fn spec_entry_ts(ev: serde_json::Value) -> Option<i64> {
    match json_field_of(ev, "timestamp"@) {
        Some(f) => json_i64_of(f),
        None => None,
    }
}

/// An entry's timestamp decodes when it is an integer that chrono can
/// represent.
pub open spec fn spec_entry_ts_ok(ev: serde_json::Value) -> bool {
    spec_entry_ts(ev) matches Some(t) && ms_in_datetime_range(t as int)
}

/// An entry decodes when both its fields do.
pub open spec fn spec_entry_ok(ev: serde_json::Value) -> bool {
    spec_entry_id(ev) is Some && spec_entry_ts_ok(ev)
}

/// One entry's content as plain values.
pub open spec fn spec_entry_model(ev: serde_json::Value) -> (Seq<char>, i64) {
    (
        match spec_entry_id(ev) {
            Some(s) => s,
            None => Seq::empty(),
        },
        match spec_entry_ts(ev) {
            Some(t) => t,
            None => 0,
        },
    )
}

/// The first failure among the entries, scanning in order: a missing or
/// mistyped id is reported before a bad timestamp of the same entry.
pub open spec fn spec_entries_error(evs: Seq<serde_json::Value>) -> Option<ParseError>
    decreases evs.len(),
{
    if evs.len() == 0 {
        None
    } else if !(spec_entry_id(evs[0]) is Some) {
        Some(ParseError::EntryId)
    } else if !spec_entry_ts_ok(evs[0]) {
        Some(ParseError::EntryTimestamp)
    } else {
        spec_entries_error(evs.drop_first())
    }
}

/// Whether the text decodes into a record: a JSON object with a
/// recognized version, a resource string holding a well-formed URI, and an
/// array of entries that all decode.
pub open spec fn spec_decode_ok(text: Seq<char>) -> bool {
    let doc = json_value_of(text);
    &&& json_parses(text)
    &&& spec_version_ok(doc)
    &&& spec_resource(doc) is Some
    &&& uri_parses(spec_resource_val(doc))
    &&& spec_entries(doc) is Some
    &&& spec_entries_error(spec_entries_val(doc)) is None
}

/// The failure a text that does not decode is rejected with, checking the
/// document's parts in decode order.
pub open spec fn spec_parse_error(text: Seq<char>) -> ParseError {
    let doc = json_value_of(text);
    if !json_parses(text) {
        ParseError::Json
    } else if !spec_version_ok(doc) {
        ParseError::Version
    } else if !(spec_resource(doc) is Some) {
        ParseError::Resource
    } else if !uri_parses(spec_resource_val(doc)) {
        ParseError::BadUri
    } else if !(spec_entries(doc) is Some) {
        ParseError::Entries
    } else {
        match spec_entries_error(spec_entries_val(doc)) {
            Some(e) => e,
            // Unreachable when the text does not decode; a decodable text
            // is never rejected.
            None => ParseError::Json,
        }
    }
}

/// The record content a decodable text yields.
pub open spec fn spec_info_model(text: Seq<char>) -> InfoModel {
    let doc = json_value_of(text);
    let rs = spec_resource_val(doc);
    (
        (match spec_version(doc) {
            Some(x) => x,
            None => 0,
        }) as u32,
        scheme_of(url_of(rs)),
        path_of(url_of(rs)),
        spec_entries_val(doc).map_values(|ev: serde_json::Value| spec_entry_model(ev)),
    )
}

/// When the first `i` entries decode, the first failure among all of them
/// is the first failure among those from `i` on.
proof fn lemma_entries_error_skip(evs: Seq<serde_json::Value>, i: int)
    requires
        0 <= i <= evs.len(),
        forall|k: int| 0 <= k < i ==> spec_entry_ok(evs[k]),
    ensures
        spec_entries_error(evs) == spec_entries_error(evs.skip(i)),
    decreases i,
{
    if i > 0 {
        assert(spec_entry_ok(evs[0]));
        let t = evs.drop_first();
        assert(forall|k: int| 0 <= k < i - 1 ==> t[k] == evs[k + 1]);
        lemma_entries_error_skip(t, i - 1);
        assert(t.skip(i - 1) =~= evs.skip(i));
    } else {
        assert(evs.skip(0) =~= evs);
    }
}

/// A version is recognized exactly when it is a non-negative integer that
/// fits the record format's 32-bit version field.
pub fn check_version(v: Option<u64>) -> (r: Result<u32, ParseError>)
    ensures
        (r is Ok) == (v matches Some(x) && x <= u32::MAX),
        r matches Ok(x) ==> v == Some(x as u64),
        r matches Err(e) ==> e == ParseError::Version,
{
    match v {
        Some(x) => {
            if x <= 0xffff_ffff {
                Ok(x as u32)
            } else {
                Err(ParseError::Version)
            }
        },
        None => Err(ParseError::Version),
    }
}

/// Decode one metadata file's text: it succeeds exactly on decodable
/// texts, yields exactly the decoded content, and rejects any other text
/// with the failure of the first part that does not decode.
pub fn parse_history_info(text: &str) -> (r: Result<CodeHistoryInfo, ParseError>)
    ensures
        (r is Ok) == spec_decode_ok(text@),
        r matches Ok(info) ==> info.model() == spec_info_model(text@),
        r matches Err(e) ==> e == spec_parse_error(text@),
{
    let v = match json_parse(text) {
        Some(v) => v,
        None => {
            return Err(ParseError::Json);
        },
    };
    let ghost doc = v;
    let version_opt = match json_get(&v, "version") {
        Some(f) => json_as_u64(f),
        None => None,
    };
    proof {
        assert(version_opt == spec_version(doc));
    }
    let version = match check_version(version_opt) {
        Ok(x) => x,
        Err(e) => {
            return Err(e);
        },
    };
    let resource_opt = match json_get(&v, "resource") {
        Some(f) => json_as_str(f),
        None => None,
    };
    let resource = match resource_opt {
        Some(s) => s,
        None => {
            return Err(ParseError::Resource);
        },
    };
    let u = match url_parse(resource.as_str()) {
        Some(u) => u,
        None => {
            return Err(ParseError::BadUri);
        },
    };
    let uri = Uri { scheme: url_scheme(&u), path: url_path(&u) };
    let entries_opt = match json_get(&v, "entries") {
        Some(f) => json_as_array(f),
        None => None,
    };
    let entries_v = match entries_opt {
        Some(a) => a,
        None => {
            return Err(ParseError::Entries);
        },
    };
    let mut entries: Vec<CodeHistoryEntry> = Vec::new();
    let n = entries_v.len();
    let mut i: usize = 0;
    while i < n
        invariant
            0 <= i <= n == entries_v@.len(),
            doc == json_value_of(text@),
            json_parses(text@),
            spec_version_ok(doc),
            Some(version as u64) == spec_version(doc),
            spec_resource(doc) is Some,
            uri_parses(spec_resource_val(doc)),
            uri.scheme@ == scheme_of(url_of(spec_resource_val(doc))),
            uri.path@ == path_of(url_of(spec_resource_val(doc))),
            spec_entries(doc) == Some(entries_v@),
            entries@.len() == i,
            forall|k: int| 0 <= k < i ==> spec_entry_ok(entries_v@[k]),
            forall|k: int|
                0 <= k < i ==> entries@[k].model() == spec_entry_model(entries_v@[k]),
        decreases n - i,
    {
        let ev = &entries_v[i];
        let id_opt = match json_get(ev, "id") {
            Some(f) => json_as_str(f),
            None => None,
        };
        let id = match id_opt {
            Some(s) => s,
            None => {
                proof {
                    lemma_entries_error_skip(entries_v@, i as int);
                }
                return Err(ParseError::EntryId);
            },
        };
        let ts_opt = match json_get(ev, "timestamp") {
            Some(f) => json_as_i64(f),
            None => None,
        };
        let ts = match ts_opt {
            Some(t) => t,
            None => {
                proof {
                    lemma_entries_error_skip(entries_v@, i as int);
                }
                return Err(ParseError::EntryTimestamp);
            },
        };
        if format_timestamp_ms(ts).is_none() {
            proof {
                lemma_entries_error_skip(entries_v@, i as int);
            }
            return Err(ParseError::EntryTimestamp);
        }
        entries.push(CodeHistoryEntry { id: id, timestamp_ms: ts });
        i += 1;
    }
    proof {
        lemma_entries_error_skip(entries_v@, n as int);
        assert(entries_v@.skip(n as int) =~= Seq::<serde_json::Value>::empty());
        assert(entries@.map_values(|e: CodeHistoryEntry| e.model()) =~~= entries_v@.map_values(
            |ev: serde_json::Value| spec_entry_model(ev),
        ));
    }
    Ok(CodeHistoryInfo { version: version, resource: uri, entries: entries })
}

/// Decode a metadata file found in `dir` into a record bound to `dir`,
/// with the same exact outcome as the decode itself.
pub fn parse_history_file(dir: String, text: &str) -> (r: Result<CodeHistoryFile, ParseError>)
    ensures
        (r is Ok) == spec_decode_ok(text@),
        r matches Ok(f) ==> f.dir == dir && f.info.model() == spec_info_model(text@),
        r matches Err(e) ==> e == spec_parse_error(text@),
{
    match parse_history_info(text) {
        Ok(info) => Ok(CodeHistoryFile { dir: dir, info: info }),
        Err(e) => Err(e),
    }
}

/// The records a scan yields: for each (directory, text) pair whose
/// decoded record correlates to `dir`, its content, in input order.
pub open spec fn spec_collect(raw: Seq<(String, String)>, dir: Seq<char>) -> Seq<FileModel>
    decreases raw.len(),
{
    if raw.len() == 0 {
        Seq::empty()
    } else {
        let rest = spec_collect(raw.drop_last(), dir);
        let m = (raw.last().0@, spec_info_model(raw.last().1@));
        if spec_model_correlates(m, dir) {
            rest + seq![m]
        } else {
            rest
        }
    }
}

/// Decode every discovered metadata file, given as (containing directory,
/// text) pairs, and keep the records that correlate to the working
/// directory. It succeeds exactly when every text decodes — an empty scan
/// yields an empty set, never an error — and then returns exactly the
/// correlating records, in input order; the first undecodable text fails
/// the whole collection with its own decode failure.
pub fn collect_records(raw: Vec<(String, String)>, current_dir: &str) -> (r: Result<
    Vec<CodeHistoryFile>,
    ParseError,
>)
    ensures
        (r is Ok) == (forall|i: int| 0 <= i < raw@.len() ==> spec_decode_ok(raw@[i].1@)),
        r matches Ok(v) ==> v@.map_values(|f: CodeHistoryFile| f.model()) == spec_collect(
            raw@,
            current_dir@,
        ),
        r matches Ok(v) ==> forall|k: int|
            0 <= k < v@.len() ==> spec_correlates(#[trigger] v@[k], current_dir@),
        r matches Err(e) ==> exists|i: int|
            0 <= i < raw@.len() && !spec_decode_ok(#[trigger] raw@[i].1@) && e == spec_parse_error(
                raw@[i].1@,
            ),
{
    let mut out: Vec<CodeHistoryFile> = Vec::new();
    let n = raw.len();
    let mut i: usize = 0;
    while i < n
        invariant
            0 <= i <= n == raw@.len(),
            forall|k: int| 0 <= k < i ==> spec_decode_ok(#[trigger] raw@[k].1@),
            out@.map_values(|f: CodeHistoryFile| f.model()) == spec_collect(
                raw@.take(i as int),
                current_dir@,
            ),
            forall|k: int|
                0 <= k < out@.len() ==> spec_correlates(#[trigger] out@[k], current_dir@),
        decreases n - i,
    {
        let dir = raw[i].0.clone();
        let text = &raw[i].1;
        let ghost m = |f: CodeHistoryFile| f.model();
        match parse_history_file(dir, text.as_str()) {
            Ok(f) => {
                let ghost fm = f.model();
                let ghost old_out = out@;
                match correlate(f, current_dir) {
                    Some(kept) => {
                        out.push(kept);
                        proof {
                            assert(out@.map_values(m) =~~= old_out.map_values(m) + seq![fm]);
                        }
                    },
                    None => {},
                }
                proof {
                    assert(raw@.take(i + 1).drop_last() =~= raw@.take(i as int));
                    assert(raw@.take(i + 1).last() == raw@[i as int]);
                    assert(fm == (raw@[i as int].0@, spec_info_model(raw@[i as int].1@)));
                }
            },
            Err(e) => {
                return Err(e);
            },
        }
        i += 1;
    }
    proof {
        assert(raw@.take(n as int) =~= raw@);
    }
    Ok(out)
}

} // verus!
