//! The pull flow's decisions: extracting the remote record's fields,
//! guarding the target directory, resolving the payload, and assembling the
//! texts of the three files a pull writes. Fetching and file writes happen
//! outside the library; this module plans them and owes an exact answer for
//! every combination of inputs.

use vstd::prelude::*;
use vstd::string::*;
use crate::errors::OrbitError;
use crate::layout::{rel_path, source_file_rel_path};
use crate::text::{blank, is_blank};

verus! {

/// Declares serde_json::Value so signatures and fields can carry it; the
/// value is opaque to the verifier.
#[verifier::external_type_specification]
#[verifier::external_body]
pub struct ExValue(serde_json::Value);

/// Declares serde_json::Error, the failure type of JSON parsing.
#[verifier::external_type_specification]
#[verifier::external_body]
pub struct ExJsonError(serde_json::Error);

/// Declares serde_json::Map, the object representation metadata is built in.
#[verifier::external_type_specification]
#[verifier::external_body]
#[verifier::reject_recursive_types(K)]
#[verifier::reject_recursive_types(V)]
pub struct ExJsonMap<K, V>(serde_json::Map<K, V>);

/// Whether a text parses as JSON: a function of the text alone.
pub uninterp spec fn json_accepts(s: Seq<char>) -> bool;

/// The value a JSON text parses to, on texts that parse: a function of the
/// text alone.
pub uninterp spec fn parsed_json(s: Seq<char>) -> serde_json::Value;

/// The pretty-printed text of a JSON value: a function of the value alone.
pub uninterp spec fn pretty_of(v: serde_json::Value) -> Seq<char>;

/// The JSON string value holding the given text.
pub uninterp spec fn string_value_of(s: Seq<char>) -> serde_json::Value;

/// The JSON object value holding the given entries.
pub uninterp spec fn object_value_of(entries: Map<Seq<char>, serde_json::Value>) -> serde_json::Value;

/// What a serde_json::Map holds: its entries, keyed by their text.
pub uninterp spec fn map_entries(m: serde_json::Map<String, serde_json::Value>) -> Map<
    Seq<char>,
    serde_json::Value,
>;

/// The string-valued fields a JSON value holds: the map from each key whose
/// field is a JSON string to that string's text. Empty for anything but an
/// object.
pub uninterp spec fn string_fields(v: serde_json::Value) -> Map<Seq<char>, Seq<char>>;

/// The keys a JSON value holds. Empty for anything but an object.
pub uninterp spec fn object_keys(v: serde_json::Value) -> Set<Seq<char>>;

/// The entries of the empty JSON object map.
pub open spec fn no_entries() -> Map<Seq<char>, serde_json::Value> {
    Map::empty()
}

/// Relies on serde_json::from_str::<Value>: whether parsing succeeds, and
/// the value an accepted text parses to, depend on the input text alone.
#[verifier::external_body]
pub(crate) fn json_parse(s: &str) -> (r: Result<serde_json::Value, serde_json::Error>)
    ensures
        r is Ok <==> json_accepts(s@),
        r matches Ok(v) ==> v == parsed_json(s@),
{
    serde_json::from_str(s)
}

/// Relies on serde_json::to_string_pretty: a deterministic rendering of the
/// value. Serializing a Value cannot fail, since a Value holds only finite
/// numbers and string-keyed maps, so the fallback arm is never taken.
#[verifier::external_body]
pub(crate) fn json_pretty(v: &serde_json::Value) -> (r: String)
    ensures
        r@ == pretty_of(*v),
{
    serde_json::to_string_pretty(v).unwrap_or_default()
}

/// Relies on the Display rendering of serde_json::Error for the
/// operator-facing parse-failure text.
#[verifier::external_body]
pub(crate) fn json_error_message(e: &serde_json::Error) -> (r: String) {
    e.to_string()
}

/// Relies on serde_json::Value::get and Value::as_str: the text under the
/// given key when that field is a JSON string, copied out; None for a
/// missing key, a non-string field, or a non-object.
#[verifier::external_body]
pub(crate) fn value_str_field(v: &serde_json::Value, key: &str) -> (r: Option<String>)
    ensures
        match r {
            Some(s) => string_fields(*v).contains_key(key@) && s@ == string_fields(*v)[key@],
            None => !string_fields(*v).contains_key(key@),
        },
{
    v.get(key).and_then(|f| f.as_str()).map(|s| s.to_string())
}

/// Relies on serde_json::Value::get: whether an object holds the given key.
#[verifier::external_body]
pub(crate) fn value_has_key(v: &serde_json::Value, key: &str) -> (r: bool)
    ensures
        r == object_keys(*v).contains(key@),
{
    v.get(key).is_some()
}

/// Relies on serde_json::Map::new: the empty JSON object map.
#[verifier::external_body]
pub(crate) fn json_map_new() -> (r: serde_json::Map<String, serde_json::Value>)
    ensures
        map_entries(r) == no_entries(),
{
    serde_json::Map::new()
}

/// Relies on serde_json::Map::insert: sets one key of a JSON object map,
/// replacing any previous value under it.
#[verifier::external_body]
pub(crate) fn json_map_insert(
    m: &mut serde_json::Map<String, serde_json::Value>,
    key: &str,
    value: serde_json::Value,
)
    ensures
        map_entries(*final(m)) == map_entries(*old(m)).insert(key@, value),
{
    m.insert(key.to_string(), value);
}

/// Relies on the serde_json::Value::String constructor.
#[verifier::external_body]
pub(crate) fn json_string_value(s: &str) -> (r: serde_json::Value)
    ensures
        r == string_value_of(s@),
{
    serde_json::Value::String(s.to_string())
}

/// Relies on the serde_json::Value::Object constructor: the object is
/// determined by the map's entries, and an empty object pretty-prints as
/// the two braces alone.
#[verifier::external_body]
pub(crate) fn json_object_value(m: serde_json::Map<String, serde_json::Value>) -> (r:
    serde_json::Value)
    ensures
        r == object_value_of(map_entries(m)),
        map_entries(m) == no_entries() ==> pretty_of(r) == "{}"@,
{
    serde_json::Value::Object(m)
}

/// Relies on Clone for serde_json::Value: the clone equals the original.
#[verifier::external_body]
pub(crate) fn json_value_clone(v: &serde_json::Value) -> (r: serde_json::Value)
    ensures
        r == *v,
{
    v.clone()
}

/// Relies on the serde_json::Value::Null constructor.
#[verifier::external_body]
pub(crate) fn json_null() -> (r: serde_json::Value) {
    serde_json::Value::Null
}

/// The string under the record's "runtime" key, if that field is a string.
pub fn record_runtime_field(record: &serde_json::Value) -> (r: Option<String>)
    ensures
        match r {
            Some(s) => string_fields(*record).contains_key("runtime"@) && s@ == string_fields(
                *record,
            )["runtime"@],
            None => !string_fields(*record).contains_key("runtime"@),
        },
{
    value_str_field(record, "runtime")
}

/// The string under the record's "handler" key, if that field is a string.
pub fn record_handler_field(record: &serde_json::Value) -> (r: Option<String>)
    ensures
        match r {
            Some(s) => string_fields(*record).contains_key("handler"@) && s@ == string_fields(
                *record,
            )["handler"@],
            None => !string_fields(*record).contains_key("handler"@),
        },
{
    value_str_field(record, "handler")
}

/// The source text of a code response: read from the "source_code" field
/// when that key is present, else from the "code" field; the text of
/// whichever was chosen, if it is a string.
pub fn code_source_field(code_info: &serde_json::Value) -> (r: Option<String>)
    ensures
        object_keys(*code_info).contains("source_code"@) ==> (match r {
            Some(s) => string_fields(*code_info).contains_key("source_code"@) && s@
                == string_fields(*code_info)["source_code"@],
            None => !string_fields(*code_info).contains_key("source_code"@),
        }),
        !object_keys(*code_info).contains("source_code"@) ==> (match r {
            Some(s) => string_fields(*code_info).contains_key("code"@) && s@ == string_fields(
                *code_info,
            )["code"@],
            None => !string_fields(*code_info).contains_key("code"@),
        }),
{
    if value_has_key(code_info, "source_code") {
        value_str_field(code_info, "source_code")
    } else {
        value_str_field(code_info, "code")
    }
}

/// The runtime recorded for a pull: the record's field, or "unknown".
pub open spec fn resolved_runtime(field: Option<String>) -> Seq<char> {
    match field {
        Some(s) => s@,
        None => "unknown"@,
    }
}

/// The handler recorded for a pull: the record's field, or "handler".
pub open spec fn resolved_handler(field: Option<String>) -> Seq<char> {
    match field {
        Some(s) => s@,
        None => "handler"@,
    }
}

/// The source text of a pull: the extracted field, or empty.
pub open spec fn resolved_source(field: Option<String>) -> Seq<char> {
    match field {
        Some(s) => s@,
        None => ""@,
    }
}

/// Two path components joined with '/': a trailing separator on the left
/// part is kept single, and an empty left part yields the right part alone.
pub open spec fn joined(a: Seq<char>, b: Seq<char>) -> Seq<char> {
    if a.len() == 0 {
        b
    } else if a[a.len() - 1] == '/' {
        a + b
    } else {
        a + "/"@ + b
    }
}

/// Joins two path components with '/'.
pub fn path_join(a: &str, b: &str) -> (r: String)
    ensures
        r@ == joined(a@, b@),
{
    let alen = a.unicode_len();
    if alen == 0 {
        return b.to_owned();
    }
    let mut out = a.to_owned();
    if a.get_char(alen - 1) != '/' {
        out.append("/");
    }
    out.append(b);
    out
}

/// The failure message of a pull whose remote source is empty or blank.
pub open spec fn no_source_text(name: Seq<char>) -> Seq<char> {
    "Function '"@ + name + "' does not have source code in control plane."@
}

/// The failure message of a pull into an existing directory without the
/// overwrite flag.
pub open spec fn dir_exists_text(dir: Seq<char>) -> Seq<char> {
    "Directory '"@ + dir + "' already exists. Use --force to overwrite."@
}

/// The failure message of an unreadable local payload file.
pub open spec fn cannot_read_file_text(path: Seq<char>, err: Seq<char>) -> Seq<char> {
    "Cannot read file "@ + path + ": "@ + err
}

/// Builds the unreadable-file message from the path and the reported error.
pub fn cannot_read_file_message(path: &str, err: &str) -> (r: String)
    ensures
        r@ == cannot_read_file_text(path@, err@),
{
    let mut out = "Cannot read file ".to_owned();
    out.append(path);
    out.append(": ");
    out.append(err);
    out
}

fn no_source_message(name: &str) -> (r: String)
    ensures
        r@ == no_source_text(name@),
{
    let mut out = "Function '".to_owned();
    out.append(name);
    out.append("' does not have source code in control plane.");
    out
}

fn dir_exists_message(dir: &str) -> (r: String)
    ensures
        r@ == dir_exists_text(dir@),
{
    let mut out = "Directory '".to_owned();
    out.append(dir);
    out.append("' already exists. Use --force to overwrite.");
    out
}

/// The metadata object a pull writes: function name, resolved runtime and
/// handler, the layout-derived source path, the payload file's name, and
/// the full fetched record.
pub open spec fn metadata_value(
    name: Seq<char>,
    rt: Seq<char>,
    hd: Seq<char>,
    record: serde_json::Value,
) -> serde_json::Value {
    object_value_of(
        no_entries().insert("name"@, string_value_of(name)).insert(
            "runtime"@,
            string_value_of(rt),
        ).insert("handler"@, string_value_of(hd)).insert(
            "source_file"@,
            string_value_of(rel_path(rt, hd)),
        ).insert("payload_file"@, string_value_of("payload.json"@)).insert("function"@, record),
    )
}

/// Everything a successful pull writes and reports: the resolved runtime
/// and handler, the target directory, and the paths and texts of the three
/// files, source, payload and metadata, in the order they are written.
pub struct PullPlan {
    pub runtime: String,
    pub handler: String,
    pub directory: String,
    pub source_rel_path: String,
    pub source_path: String,
    pub source_text: String,
    pub payload_path: String,
    pub payload_text: String,
    pub metadata_path: String,
    pub metadata_text: String,
}

/// Plans a pull from the fetched record's extracted fields and the local
/// state, terminal on the first failure:
/// - a blank or missing remote source is an input error, before anything
///   else is considered;
/// - an existing target directory without the overwrite flag is an input
///   error naming the directory;
/// - an inline payload takes precedence over a payload file; whichever is
///   given must parse as JSON, else the pull fails with an input error;
///   with neither, the payload defaults to the empty object;
/// - otherwise the pull succeeds, and the plan fixes the resolved runtime
///   and handler, the layout-derived source path, the fetched source text
///   unmodified, the pretty-printed payload text, and the metadata
///   object's text.
pub fn plan_pull(
    name: &str,
    output_dir: &str,
    force: bool,
    dir_exists: bool,
    runtime_field: Option<String>,
    handler_field: Option<String>,
    source_field: Option<String>,
    payload: Option<String>,
    payload_file_text: Option<String>,
    record: &serde_json::Value,
) -> (r: Result<PullPlan, OrbitError>)
    ensures
        blank(resolved_source(source_field)) ==> (r matches Err(OrbitError::Input(m)) && m@
            == no_source_text(name@)),
        !blank(resolved_source(source_field)) && dir_exists && !force ==> (r matches Err(
            OrbitError::Input(m),
        ) && m@ == dir_exists_text(joined(output_dir@, name@))),
        ({
            &&& !blank(resolved_source(source_field))
            &&& !(dir_exists && !force)
            &&& payload matches Some(p) && !json_accepts(p@)
        }) ==> (r matches Err(OrbitError::Input(m)) && m@.subrange(
            0,
            "Invalid JSON payload: "@.len() as int,
        ) == "Invalid JSON payload: "@),
        ({
            &&& !blank(resolved_source(source_field))
            &&& !(dir_exists && !force)
            &&& payload is None
            &&& payload_file_text matches Some(t) && !json_accepts(t@)
        }) ==> (r matches Err(OrbitError::Input(m)) && m@.subrange(
            0,
            "Invalid JSON in file: "@.len() as int,
        ) == "Invalid JSON in file: "@),
        ({
            &&& !blank(resolved_source(source_field))
            &&& !(dir_exists && !force)
            &&& payload matches Some(p) ==> json_accepts(p@)
            &&& payload is None ==> (payload_file_text matches Some(t) ==> json_accepts(t@))
        }) ==> (r matches Ok(plan) && {
            let rt = resolved_runtime(runtime_field);
            let hd = resolved_handler(handler_field);
            let dir = joined(output_dir@, name@);
            &&& plan.runtime@ == rt
            &&& plan.handler@ == hd
            &&& plan.directory@ == dir
            &&& plan.source_rel_path@ == rel_path(rt, hd)
            &&& plan.source_path@ == joined(dir, rel_path(rt, hd))
            &&& plan.source_text@ == resolved_source(source_field)
            &&& plan.payload_path@ == joined(dir, "payload.json"@)
            &&& plan.metadata_path@ == joined(dir, "function.meta.json"@)
            &&& (payload matches Some(p) ==> plan.payload_text@ == pretty_of(parsed_json(p@)))
            &&& (payload is None ==> (payload_file_text matches Some(t) ==> plan.payload_text@
                == pretty_of(parsed_json(t@))))
            &&& (payload is None && payload_file_text is None ==> plan.payload_text@ == "{}"@)
            &&& plan.metadata_text@ == pretty_of(metadata_value(name@, rt, hd, *record))
        }),
{
    let ghost rt_spec = resolved_runtime(runtime_field);
    let ghost hd_spec = resolved_handler(handler_field);
    let ghost src_spec = resolved_source(source_field);
    let runtime = match runtime_field {
        Some(s) => s,
        None => "unknown".to_owned(),
    };
    let handler = match handler_field {
        Some(s) => s,
        None => "handler".to_owned(),
    };
    let source_text = match source_field {
        Some(s) => s,
        None => String::new(),
    };
    proof {
        reveal_strlit("");
        assert(""@ =~= Seq::<char>::empty());
        assert(runtime@ == rt_spec);
        assert(handler@ == hd_spec);
        assert(source_text@ == src_spec);
    }
    if is_blank(source_text.as_str()) {
        return Err(OrbitError::Input(no_source_message(name)));
    }
    let directory = path_join(output_dir, name);
    if dir_exists && !force {
        return Err(OrbitError::Input(dir_exists_message(directory.as_str())));
    }
    let payload_value: serde_json::Value = match (payload, payload_file_text) {
        (Some(p), _) => match json_parse(p.as_str()) {
            Ok(v) => v,
            Err(e) => {
                let mut m = "Invalid JSON payload: ".to_owned();
                m.append(json_error_message(&e).as_str());
                proof {
                    assert(m@.subrange(0, "Invalid JSON payload: "@.len() as int) =~= "Invalid JSON payload: "@);
                }
                return Err(OrbitError::Input(m));
            },
        },
        (None, Some(t)) => match json_parse(t.as_str()) {
            Ok(v) => v,
            Err(e) => {
                let mut m = "Invalid JSON in file: ".to_owned();
                m.append(json_error_message(&e).as_str());
                proof {
                    assert(m@.subrange(0, "Invalid JSON in file: "@.len() as int) =~= "Invalid JSON in file: "@);
                }
                return Err(OrbitError::Input(m));
            },
        },
        (None, None) => json_object_value(json_map_new()),
    };
    let payload_text = json_pretty(&payload_value);
    let source_rel_path = source_file_rel_path(runtime.as_str(), handler.as_str());
    let source_path = path_join(directory.as_str(), source_rel_path.as_str());
    let payload_path = path_join(directory.as_str(), "payload.json");
    let metadata_path = path_join(directory.as_str(), "function.meta.json");
    let mut meta = json_map_new();
    json_map_insert(&mut meta, "name", json_string_value(name));
    json_map_insert(&mut meta, "runtime", json_string_value(runtime.as_str()));
    json_map_insert(&mut meta, "handler", json_string_value(handler.as_str()));
    json_map_insert(&mut meta, "source_file", json_string_value(source_rel_path.as_str()));
    json_map_insert(&mut meta, "payload_file", json_string_value("payload.json"));
    json_map_insert(&mut meta, "function", json_value_clone(record));
    let metadata_text = json_pretty(&json_object_value(meta));
    Ok(
        PullPlan {
            runtime,
            handler,
            directory,
            source_rel_path,
            source_path,
            source_text,
            payload_path,
            payload_text,
            metadata_path,
            metadata_text,
        },
    )
}

/// The summary record a finished pull hands to the caller for rendering.
pub struct PullSummary {
    pub name: String,
    pub runtime: String,
    pub handler: String,
    pub directory: String,
    pub source_file: String,
    pub payload_file: String,
    pub metadata_file: String,
    pub local_test: String,
}

/// Assembles the summary of a finished pull from its plan and the local
/// test's status label.
pub fn pull_summary(name: &str, plan: &PullPlan, local_test: &str) -> (s: PullSummary)
    ensures
        s.name@ == name@,
        s.runtime@ == plan.runtime@,
        s.handler@ == plan.handler@,
        s.directory@ == plan.directory@,
        s.source_file@ == plan.source_path@,
        s.payload_file@ == plan.payload_path@,
        s.metadata_file@ == plan.metadata_path@,
        s.local_test@ == local_test@,
{
    PullSummary {
        name: name.to_owned(),
        runtime: plan.runtime.clone(),
        handler: plan.handler.clone(),
        directory: plan.directory.clone(),
        source_file: plan.source_path.clone(),
        payload_file: plan.payload_path.clone(),
        metadata_file: plan.metadata_path.clone(),
        local_test: local_test.to_owned(),
    }
}

} // verus!
