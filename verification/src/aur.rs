//! The community-repository side: the metadata lookup's request URL and
//! response handling, the clone URL, and the clone and build invocations.
//!
//! The metadata service answers with a JSON document holding a `results`
//! list; the lookup takes the first entry or reports "no results". The JSON
//! text itself is parsed by serde_json; what this module verifies is every
//! decision taken over the parsed document.

use vstd::prelude::*;
use vstd::string::StringExecFns;
use crate::cmd::CommandSpec;
use crate::name::PackageName;

verus! {

/// Metadata for one community-repository package, as the metadata service
/// reports it.
pub struct AurPackage {
    pub name: String,
    pub version: String,
    pub description: String,
}

/// The mathematical shape of a JSON document: what the schema-reading code
/// reasons over. Numbers carry no payload here; the schema this library
/// consumes never reads one.
pub enum JsonRep {
    Null,
    Boolean(bool),
    Number,
    Text(Seq<char>),
    Array(Seq<JsonRep>),
    Object(Map<Seq<char>, JsonRep>),
}

/// serde_json's dynamic JSON value, carried opaquely between the trusted
/// parse and the trusted accessors.
#[verifier::external_type_specification]
#[verifier::external_body]
pub struct ExJsonValue(serde_json::Value);

/// The document a given text parses to, if it is JSON at all. serde_json's
/// parse is a function of the text alone.
pub uninterp spec fn json_parse(s: Seq<char>) -> Option<JsonRep>;

/// The content of a parsed serde_json value.
pub uninterp spec fn json_rep(v: serde_json::Value) -> JsonRep;

/// Relies on serde_json::from_str: whether a text is JSON, and what document
/// it parses to, depend on the text alone. A failure is reported as the
/// parser's message.
#[verifier::external_body]
fn parse_json(s: &str) -> (r: Result<serde_json::Value, String>)
    ensures
        (r is Ok <==> json_parse(s@) is Some),
        (r matches Ok(v) ==> json_rep(v) == json_parse(s@)->0),
{
    serde_json::from_str::<serde_json::Value>(s).map_err(|e| e.to_string())
}

/// Relies on serde_json::Value::get: on an object, member lookup by key; on
/// any other value, `None`.
#[verifier::external_body]
fn json_member<'a>(v: &'a serde_json::Value, key: &str) -> (r: Option<&'a serde_json::Value>)
    ensures
        (r is Some <==> (json_rep(*v) is Object && json_rep(*v)->Object_0.contains_key(key@))),
        (r matches Some(f) ==> json_rep(*f) == json_rep(*v)->Object_0[key@]),
{
    v.get(key)
}

/// Relies on serde_json::Value::as_array: `Some` exactly on arrays, exposing
/// the elements in order.
#[verifier::external_body]
fn json_array<'a>(v: &'a serde_json::Value) -> (r: Option<&'a Vec<serde_json::Value>>)
    ensures
        (r is Some <==> json_rep(*v) is Array),
        r matches Some(a) ==> a@.len() == json_rep(*v)->Array_0.len() && (forall|i: int|
            0 <= i < a@.len() ==> json_rep(a@[i]) == json_rep(*v)->Array_0[i]),
{
    v.as_array()
}

/// Relies on serde_json::Value::as_str: `Some` exactly on strings, exposing
/// the text.
#[verifier::external_body]
fn json_text<'a>(v: &'a serde_json::Value) -> (r: Option<&'a str>)
    ensures
        (r is Some <==> json_rep(*v) is Text),
        (r matches Some(t) ==> t@ == json_rep(*v)->Text_0),
{
    v.as_str()
}

/// The text member of a document under a key: defined when the document is
/// an object, has the member, and the member is a string.
pub open spec fn text_member(j: JsonRep, key: Seq<char>) -> Option<Seq<char>> {
    match j {
        JsonRep::Object(m) => if m.contains_key(key) {
            match m[key] {
                JsonRep::Text(t) => Some(t),
                _ => None,
            }
        } else {
            None
        },
        _ => None,
    }
}

/// The `results` list of a response document: defined when the document is
/// an object whose `results` member is an array.
pub open spec fn results_of(j: JsonRep) -> Option<Seq<JsonRep>> {
    match j {
        JsonRep::Object(m) => if m.contains_key("results"@) {
            match m["results"@] {
                JsonRep::Array(a) => Some(a),
                _ => None,
            }
        } else {
            None
        },
        _ => None,
    }
}

/// The package fields of one result entry: its `name`, `version` and
/// `description` string members, all three required.
pub open spec fn entry_package(j: JsonRep) -> Option<(Seq<char>, Seq<char>, Seq<char>)> {
    if text_member(j, "name"@) is Some && text_member(j, "version"@) is Some && text_member(
        j,
        "description"@,
    ) is Some {
        Some(
            (text_member(j, "name"@)->0, text_member(j, "version"@)->0, text_member(
                j,
                "description"@,
            )->0),
        )
    } else {
        None
    }
}

/// What the lookup yields for a response body: the first result entry, or
/// `None` for a legitimately empty result list, or an error for any body
/// that does not match the expected schema.
pub open spec fn lookup_spec(body: Seq<char>) -> Result<Option<(Seq<char>, Seq<char>, Seq<char>)>, ()> {
    match json_parse(body) {
        None => Err(()),
        Some(j) => match results_of(j) {
            None => Err(()),
            Some(rs) => if rs.len() == 0 {
                Ok(None)
            } else {
                match entry_package(rs[0]) {
                    None => Err(()),
                    Some(p) => Ok(Some(p)),
                }
            },
        },
    }
}

/// Why a metadata lookup failed: the transport failed, or the response did
/// not match the expected schema. A lookup that cleanly finds nothing is not
/// an error.
#[derive(Debug)]
pub enum LookupError {
    Network { reason: String },
    Protocol { reason: String },
}

/// The text member of a parsed value under a key, through the trusted
/// accessors.
fn text_field<'a>(v: &'a serde_json::Value, key: &str) -> (r: Option<&'a str>)
    ensures
        (r is Some <==> text_member(json_rep(*v), key@) is Some),
        (r matches Some(t) ==> t@ == text_member(json_rep(*v), key@)->0),
{
    match json_member(v, key) {
        Some(f) => json_text(f),
        None => None,
    }
}

/// The response half of the Remote Metadata Client: reads the service's
/// response body. Returns the first result entry, `Ok(None)` when the
/// result list is empty, and a protocol error exactly when the body does not
/// match the expected schema.
pub fn parse_package_info(body: &str) -> (r: Result<Option<AurPackage>, LookupError>)
    ensures
        (r is Ok <==> lookup_spec(body@) is Ok),
        r matches Ok(opt) ==> ({
            let found = lookup_spec(body@)->Ok_0;
            &&& opt is Some <==> found is Some
            &&& opt matches Some(p) ==> p.name@ == (found->0).0 && p.version@ == (found->0).1
                && p.description@ == (found->0).2
        }),
        (r matches Err(e) ==> e is Protocol),
{
    let parsed = parse_json(body);
    let v = match parsed {
        Ok(v) => v,
        Err(reason) => {
            return Err(LookupError::Protocol { reason });
        },
    };
    let results = match json_member(&v, "results") {
        Some(r) => r,
        None => {
            return Err(LookupError::Protocol { reason: String::from_str("response has no results list") });
        },
    };
    let arr = match json_array(results) {
        Some(a) => a,
        None => {
            return Err(LookupError::Protocol { reason: String::from_str("results is not a list") });
        },
    };
    if arr.len() == 0 {
        return Ok(None);
    }
    let entry = &arr[0];
    let nm = match text_field(entry, "name") {
        Some(t) => t,
        None => {
            return Err(LookupError::Protocol { reason: String::from_str("entry has no name") });
        },
    };
    let ver = match text_field(entry, "version") {
        Some(t) => t,
        None => {
            return Err(LookupError::Protocol { reason: String::from_str("entry has no version") });
        },
    };
    let desc = match text_field(entry, "description") {
        Some(t) => t,
        None => {
            return Err(LookupError::Protocol { reason: String::from_str("entry has no description") });
        },
    };
    Ok(
        Some(
            AurPackage {
                name: String::from_str(nm),
                version: String::from_str(ver),
                description: String::from_str(desc),
            },
        ),
    )
}

/// The whole Remote Metadata Client outcome for one attempt, given how the
/// transport ended: a transport failure is a network error with the
/// transport's reason; otherwise the response body alone decides, as in
/// [`parse_package_info`].
pub fn lookup_outcome(response: Result<String, String>) -> (r: Result<
    Option<AurPackage>,
    LookupError,
>)
    ensures
        (response matches Err(t) ==> (r matches Err(e) && e matches LookupError::Network {
            reason,
        } && reason@ == t@)),
        (response matches Ok(body) ==> (r is Ok <==> lookup_spec(body@) is Ok)),
        (response matches Ok(body) ==> (r matches Err(e) ==> e is Protocol)),
        (response matches Ok(body) ==> (r matches Ok(opt) ==> ({
            let found = lookup_spec(body@)->Ok_0;
            &&& (opt is Some <==> found is Some)
            &&& (opt matches Some(p) ==> p.name@ == (found->0).0 && p.version@ == (found->0).1
                && p.description@ == (found->0).2)
        }))),
{
    match response {
        Ok(body) => parse_package_info(body.as_str()),
        Err(reason) => Err(LookupError::Network { reason }),
    }
}

/// The metadata service's fixed query URL for a name: protocol version 5,
/// operation "info", and the name as the argument.
pub open spec fn info_url_spec(name: Seq<char>) -> Seq<char> {
    "https://aur.archlinux.org/rpc/?v=5&type=info&arg="@ + name
}

/// The request half of the Remote Metadata Client: the URL the lookup asks.
pub fn package_info_url(name: &PackageName) -> (r: String)
    ensures
        r@ == info_url_spec(name@),
{
    let mut s = String::from_str("https://aur.archlinux.org/rpc/?v=5&type=info&arg=");
    s.append(name.as_str());
    s
}

/// The fixed clone URL of a package's build recipe.
pub open spec fn clone_url_spec(name: Seq<char>) -> Seq<char> {
    "https://aur.archlinux.org/"@ + name + ".git"@
}

/// The version-control URL the fetch clones from.
pub fn clone_source_url(name: &PackageName) -> (r: String)
    ensures
        r@ == clone_url_spec(name@),
{
    let mut s = String::from_str("https://aur.archlinux.org/");
    s.append(name.as_str());
    s.append(".git");
    s
}

/// The version-control clone invocation for a package into a destination.
pub fn clone_command(name: &PackageName, dest: &str) -> (r: CommandSpec)
    ensures
        r.program@ == "git"@,
        r.args@.len() == 3,
        r.args@[0]@ == "clone"@,
        r.args@[1]@ == clone_url_spec(name@),
        r.args@[2]@ == dest@,
        (r.cwd is None),
{
    let mut args: Vec<String> = Vec::new();
    args.push(String::from_str("clone"));
    args.push(clone_source_url(name));
    args.push(String::from_str(dest));
    CommandSpec { program: String::from_str("git"), args, cwd: None }
}

/// The native build tool's "build, install, resolve dependencies,
/// non-interactive" invocation, run inside the fetched source directory.
pub fn build_command(dir: &str) -> (r: CommandSpec)
    ensures
        r.program@ == "makepkg"@,
        r.args@.len() == 2,
        r.args@[0]@ == "-si"@,
        r.args@[1]@ == "--noconfirm"@,
        (r.cwd matches Some(d) && d@ == dir@),
{
    let mut args: Vec<String> = Vec::new();
    args.push(String::from_str("-si"));
    args.push(String::from_str("--noconfirm"));
    CommandSpec { program: String::from_str("makepkg"), args, cwd: Some(String::from_str(dir)) }
}

} // verus!
