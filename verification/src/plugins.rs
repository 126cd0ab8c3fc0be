//! Plugin manifests: validation of `plugin.json` contents, the entry that a
//! plugin is loaded from, and confinement of that entry to the plugins
//! directory.

use vstd::prelude::*;
use vstd::string::StringExecFns;

use crate::text::{blank, is_blank, is_valid_plugin_id, is_white_space, valid_plugin_id};

verus! {

/// Manifest as reported to the frontend. `error` is set (and the other
/// fields are best-effort, possibly empty) when `plugin.json` is missing,
/// malformed, or lacks a required field.
pub struct PluginManifest {
    pub id: String,
    pub name: String,
    pub version: String,
    pub entry: String,
    pub surfaces: Vec<String>,
    pub description: Option<String>,
    pub error: Option<String>,
}

/// The fields of `plugin.json` as they were read, each of them optional, so
/// that a manifest lacking a required field is reported rather than dropped.
pub struct RawPluginManifest {
    pub name: Option<String>,
    pub version: Option<String>,
    pub entry: Option<String>,
    pub surfaces: Vec<String>,
    pub description: Option<String>,
}

pub struct PluginManifestView {
    pub id: Seq<char>,
    pub name: Seq<char>,
    pub version: Seq<char>,
    pub entry: Seq<char>,
    pub surfaces: Seq<Seq<char>>,
    pub description: Option<Seq<char>>,
    pub error: Option<Seq<char>>,
}

pub struct RawPluginManifestView {
    pub name: Option<Seq<char>>,
    pub version: Option<Seq<char>>,
    pub entry: Option<Seq<char>>,
    pub surfaces: Seq<Seq<char>>,
    pub description: Option<Seq<char>>,
}

pub open spec fn opt_view(s: Option<String>) -> Option<Seq<char>> {
    match s {
        Some(v) => Some(v@),
        None => None,
    }
}

impl View for PluginManifest {
    type V = PluginManifestView;

    open spec fn view(&self) -> PluginManifestView {
        PluginManifestView {
            id: self.id@,
            name: self.name@,
            version: self.version@,
            entry: self.entry@,
            surfaces: self.surfaces.deep_view(),
            description: opt_view(self.description),
            error: opt_view(self.error),
        }
    }
}

impl View for RawPluginManifest {
    type V = RawPluginManifestView;

    open spec fn view(&self) -> RawPluginManifestView {
        RawPluginManifestView {
            name: opt_view(self.name),
            version: opt_view(self.version),
            entry: opt_view(self.entry),
            surfaces: self.surfaces.deep_view(),
            description: opt_view(self.description),
        }
    }
}

/// A field counts as present only when it holds something besides white space.
pub open spec fn present(field: Option<Seq<char>>) -> Option<Seq<char>> {
    match field {
        Some(v) => if is_blank(v) { None } else { Some(v) },
        None => None,
    }
}

pub open spec fn or_empty(field: Option<Seq<char>>) -> Seq<char> {
    match field {
        Some(v) => v,
        None => Seq::empty(),
    }
}

/// The items of `list` with `sep` between each two of them.
pub open spec fn join(list: Seq<Seq<char>>, sep: Seq<char>) -> Seq<char>
    decreases list.len(),
{
    if list.len() == 0 {
        Seq::empty()
    } else if list.len() == 1 {
        list[0]
    } else {
        join(list.drop_last(), sep) + sep + list.last()
    }
}

/// The names of the required fields that are not present, in the order
/// name, version, entry.
pub open spec fn missing_fields(raw: RawPluginManifestView) -> Seq<Seq<char>> {
    (if present(raw.name) is None { seq!["name"@] } else { Seq::empty() })
        + (if present(raw.version) is None { seq!["version"@] } else { Seq::empty() })
        + (if present(raw.entry) is None { seq!["entry"@] } else { Seq::empty() })
}

pub open spec fn missing_fields_message(missing: Seq<Seq<char>>) -> Seq<char> {
    "plugin.json missing required field(s): "@ + join(missing, ", "@)
}

/// The manifest reported for directory `dir` whose `plugin.json` held `raw`.
pub open spec fn built_manifest(dir: Seq<char>, raw: RawPluginManifestView) -> PluginManifestView {
    let missing = missing_fields(raw);
    PluginManifestView {
        id: dir,
        name: or_empty(present(raw.name)),
        version: or_empty(present(raw.version)),
        entry: or_empty(present(raw.entry)),
        surfaces: raw.surfaces,
        description: raw.description,
        error: if missing.len() == 0 { None } else { Some(missing_fields_message(missing)) },
    }
}

/// The manifest reported for directory `dir` when nothing could be read from
/// its `plugin.json`.
pub open spec fn error_manifest(dir: Seq<char>, message: Seq<char>) -> PluginManifestView {
    PluginManifestView {
        id: dir,
        name: Seq::empty(),
        version: Seq::empty(),
        entry: Seq::empty(),
        surfaces: Seq::empty(),
        description: None,
        error: Some(message),
    }
}

fn string_of(s: &str) -> (r: String)
    ensures
        r@ == s@,
{
    String::from_str(s)
}

/// Keeps a field only when it holds something besides white space.
pub fn non_empty(s: Option<String>) -> (r: Option<String>)
    ensures
        opt_view(r) == present(opt_view(s)),
        s is None ==> r is None,
        (s is Some && exists|i: int|
            0 <= i < s->Some_0@.len() && !is_white_space(#[trigger] s->Some_0@[i])) ==> r == s,
        (s is Some && forall|i: int|
            0 <= i < s->Some_0@.len() ==> is_white_space(#[trigger] s->Some_0@[i])) ==> r is None,
{
    match s {
        Some(v) => if blank(v.as_str()) { None } else { Some(v) },
        None => None,
    }
}

/// Joins `list` with `sep` between each two items.
fn join_strs(list: &Vec<&str>, sep: &str) -> (r: String)
    ensures
        r@ == join(list@.map_values(|s: &str| s@), sep@),
{
    let ghost views = list@.map_values(|s: &str| s@);
    let mut r = String::new();
    let mut i: usize = 0;
    while i < list.len()
        invariant
            i <= list.len(),
            views == list@.map_values(|s: &str| s@),
            r@ == join(views.take(i as int), sep@),
        decreases list.len() - i,
    {
        assert(views.take(i + 1).drop_last() =~= views.take(i as int));
        if i != 0 {
            r.append(sep);
        }
        r.append(list[i]);
        i = i + 1;
    }
    assert(views.take(list.len() as int) =~= views);
    r
}

/// Builds the validated manifest of plugin directory `dir_name`. The id is
/// always the directory name, whatever `plugin.json` claims, since that is
/// what addresses the plugin on disk.
pub fn build_manifest(dir_name: &str, raw: RawPluginManifest) -> (m: PluginManifest)
    ensures
        m@ == built_manifest(dir_name@, raw@),
        m.id@ == dir_name@,
        m.surfaces == raw.surfaces,
        m.description == raw.description,
        (raw.name is Some && exists|i: int|
            0 <= i < raw.name->Some_0@.len() && !is_white_space(#[trigger] raw.name->Some_0@[i]))
            ==> m.name == raw.name->Some_0,
        (raw.version is Some && exists|i: int|
            0 <= i < raw.version->Some_0@.len() && !is_white_space(
                #[trigger] raw.version->Some_0@[i],
            )) ==> m.version == raw.version->Some_0,
        (raw.entry is Some && exists|i: int|
            0 <= i < raw.entry->Some_0@.len() && !is_white_space(#[trigger] raw.entry->Some_0@[i]))
            ==> m.entry == raw.entry->Some_0,
{
    let ghost raw_view = raw@;
    let name = non_empty(raw.name);
    let version = non_empty(raw.version);
    let entry = non_empty(raw.entry);

    let mut missing: Vec<&str> = Vec::new();
    if name.is_none() {
        missing.push("name");
    }
    if version.is_none() {
        missing.push("version");
    }
    if entry.is_none() {
        missing.push("entry");
    }
    assert(missing@.map_values(|s: &str| s@) =~= missing_fields(raw_view));

    let error = if missing.len() == 0 {
        None
    } else {
        let mut message = string_of("plugin.json missing required field(s): ");
        let fields = join_strs(&missing, ", ");
        message.append(fields.as_str());
        Some(message)
    };

    PluginManifest {
        id: string_of(dir_name),
        name: match name { Some(v) => v, None => String::new() },
        version: match version { Some(v) => v, None => String::new() },
        entry: match entry { Some(v) => v, None => String::new() },
        surfaces: raw.surfaces,
        description: raw.description,
        error,
    }
}

/// The manifest of plugin directory `dir_name` whose `plugin.json` could not
/// be used at all; `message` says why.
pub fn invalid_manifest(dir_name: &str, message: String) -> (m: PluginManifest)
    ensures
        m@ == error_manifest(dir_name@, message@),
{
    let surfaces: Vec<String> = Vec::new();
    assert(surfaces.deep_view() =~= Seq::<Seq<char>>::empty());
    PluginManifest {
        id: string_of(dir_name),
        name: String::new(),
        version: String::new(),
        entry: String::new(),
        surfaces,
        description: None,
        error: Some(message),
    }
}

/// The manifest of plugin directory `dir_name` from the outcome of parsing
/// its `plugin.json` text: the fields read, or the parser's error message.
pub fn manifest_from_parse(dir_name: &str, parsed: Result<RawPluginManifest, String>) -> (m:
    PluginManifest)
    ensures
        m@ == match parsed {
            Ok(raw) => built_manifest(dir_name@, raw@),
            Err(e) => error_manifest(dir_name@, "Invalid plugin.json: "@ + e@),
        },
{
    match parsed {
        Ok(raw) => build_manifest(dir_name, raw),
        Err(e) => {
            let mut message = string_of("Invalid plugin.json: ");
            message.append(e.as_str());
            invalid_manifest(dir_name, message)
        },
    }
}

/// The manifest of plugin directory `dir_name` whose `plugin.json` could not
/// be read; `reason` is the read error.
pub fn unreadable_manifest(dir_name: &str, reason: String) -> (m: PluginManifest)
    ensures
        m@ == error_manifest(dir_name@, "Missing or unreadable plugin.json: "@ + reason@),
{
    let mut message = string_of("Missing or unreadable plugin.json: ");
    message.append(reason.as_str());
    invalid_manifest(dir_name, message)
}

/// The plugin directory name of an entry of the plugins directory: only
/// directories whose name is known and non-empty are plugins.
pub fn plugin_dir_name(is_dir: bool, file_name: Option<String>) -> (r: Option<String>)
    ensures
        opt_view(r) == (if is_dir && opt_view(file_name) is Some && or_empty(opt_view(file_name)).len() > 0 {
            opt_view(file_name)
        } else {
            None
        }),
{
    if !is_dir {
        return None;
    }
    match file_name {
        Some(n) => if n.as_str().is_empty() { None } else { Some(n) },
        None => None,
    }
}

/// The entry that a plugin is loaded from.
pub open spec fn required_entry_of(raw: RawPluginManifestView) -> Result<Seq<char>, Seq<char>> {
    match present(raw.entry) {
        Some(e) => Ok(e),
        None => Err("plugin.json missing 'entry' field"@),
    }
}

pub open spec fn result_view(r: Result<String, String>) -> Result<Seq<char>, Seq<char>> {
    match r {
        Ok(v) => Ok(v@),
        Err(e) => Err(e@),
    }
}

/// The entry file named by a plugin's manifest, which must not be blank.
pub fn required_entry(raw: RawPluginManifest) -> (r: Result<String, String>)
    ensures
        result_view(r) == required_entry_of(raw@),
        (raw.entry is Some && exists|i: int|
            0 <= i < raw.entry->Some_0@.len() && !is_white_space(#[trigger] raw.entry->Some_0@[i]))
            ==> r == Ok::<String, String>(raw.entry->Some_0),
{
    match non_empty(raw.entry) {
        Some(e) => Ok(e),
        None => Err(string_of("plugin.json missing 'entry' field")),
    }
}

/// Refuses a plugin id that is empty or holds `/`, `\` or `..`, before it is
/// used to address anything on disk.
pub fn check_plugin_id(plugin_id: &str) -> (r: Result<(), String>)
    ensures
        r is Ok <==> is_valid_plugin_id(plugin_id@),
        r matches Err(e) ==> e@ == "Invalid plugin id"@,
{
    if valid_plugin_id(plugin_id) {
        Ok(())
    } else {
        Err(string_of("Invalid plugin id"))
    }
}

/// The path that `Path::join` makes of `base` and `part`, as text: `base`
/// extended by `part`, or `part` alone where it is absolute, in the path
/// syntax of the platform the library is built for.
pub uninterp spec fn path_joined(base: Seq<char>, part: Seq<char>) -> Seq<char>;

/// Whether `Path::starts_with` finds the whole components of `base` to be a
/// prefix of those of `path`, both taken as text, in the path syntax of the
/// platform the library is built for.
pub uninterp spec fn path_has_prefix(path: Seq<char>, base: Seq<char>) -> bool;

/// Holds of a path and an outcome when canonicalizing that path reported
/// that outcome: the canonical path, or the filesystem's error as text. It
/// says nothing of which outcome a path gets; that depends on what is on
/// disk, and two calls on one path may report different outcomes.
pub uninterp spec fn canonicalization_reported(path: Seq<char>, outcome: Result<
    Seq<char>,
    Seq<char>,
>) -> bool;

/// `Path::canonicalize` on the path `path`: its absolute form with every
/// link and `.`/`..` component resolved, as text, or the filesystem's error
/// as text (a canonical path that is not text is reported as an error). What
/// comes back depends on the disk: all that is stated is that it is the
/// outcome reported for `path`.
#[verifier::external_body]
fn canonicalize(path: &str) -> (r: Result<String, String>)
    ensures
        canonicalization_reported(path@, result_view(r)),
{
    match std::path::Path::new(path).canonicalize() {
        Ok(p) => match p.into_os_string().into_string() {
            Ok(text) => Ok(text),
            Err(raw) => Err(format!("canonical path is not valid UTF-8: {:?}", raw)),
        },
        Err(e) => Err(e.to_string()),
    }
}

/// `Path::join` on the paths `base` and `part`, as text. Text joined to text
/// with a separator is text, so the conversion back loses nothing.
#[verifier::external_body]
fn join_path(base: &str, part: &str) -> (r: String)
    ensures
        r@ == path_joined(base@, part@),
{
    std::path::Path::new(base).join(part).to_string_lossy().into_owned()
}

/// `Path::starts_with` on the paths `path` and `base`, as text.
#[verifier::external_body]
fn path_starts_with(path: &str, base: &str) -> (r: bool)
    ensures
        r == path_has_prefix(path@, base@),
{
    std::path::Path::new(path).starts_with(base)
}

/// The path of a plugin's entry file before it is canonicalized:
/// `<plugins_dir>/<plugin_id>/<entry>`.
pub open spec fn entry_candidate_of(plugins_dir: Seq<char>, plugin_id: Seq<char>, entry: Seq<
    char,
>) -> Seq<char> {
    path_joined(path_joined(plugins_dir, plugin_id), entry)
}

/// Builds `<plugins_dir>/<plugin_id>/<entry>`.
pub fn entry_candidate(plugins_dir: &str, plugin_id: &str, entry: &str) -> (r: String)
    ensures
        r@ == entry_candidate_of(plugins_dir@, plugin_id@, entry@),
{
    let plugin_dir = join_path(plugins_dir, plugin_id);
    join_path(plugin_dir.as_str(), entry)
}

/// The answer to an entry request from the outcomes of canonicalizing the
/// plugins directory and the entry candidate: the canonical entry path only
/// where its components begin with those of the canonical plugins directory.
/// Where the plugins directory could not be canonicalized, the candidate's
/// outcome plays no part.
pub open spec fn entry_answer(
    canonical_dir: Result<Seq<char>, Seq<char>>,
    canonical_entry: Result<Seq<char>, Seq<char>>,
) -> Result<Seq<char>, Seq<char>> {
    match canonical_dir {
        Err(e) => Err("Cannot resolve plugins directory: "@ + e),
        Ok(dir) => match canonical_entry {
            Err(e) => Err("Entry file not found: "@ + e),
            Ok(path) => if path_has_prefix(path, dir) {
                Ok(path)
            } else {
                Err("Access denied: entry path escapes the plugins directory"@)
            },
        },
    }
}

/// Answers an entry request from the outcomes of canonicalizing the plugins
/// directory and the entry candidate.
pub fn decide_entry(canonical_dir: Result<String, String>, canonical_entry: Result<String, String>) -> (r:
    Result<String, String>)
    ensures
        result_view(r) == entry_answer(result_view(canonical_dir), result_view(canonical_entry)),
        (canonical_dir is Ok && canonical_entry is Ok && path_has_prefix(
            canonical_entry->Ok_0@,
            canonical_dir->Ok_0@,
        )) ==> r == canonical_entry,
        (canonical_dir is Ok && canonical_entry is Ok && !path_has_prefix(
            canonical_entry->Ok_0@,
            canonical_dir->Ok_0@,
        )) ==> r is Err,
{
    match canonical_dir {
        Err(e) => {
            let mut message = string_of("Cannot resolve plugins directory: ");
            message.append(e.as_str());
            Err(message)
        },
        Ok(dir) => match canonical_entry {
            Err(e) => {
                let mut message = string_of("Entry file not found: ");
                message.append(e.as_str());
                Err(message)
            },
            Ok(path) => if path_starts_with(path.as_str(), dir.as_str()) {
                Ok(path)
            } else {
                Err(string_of("Access denied: entry path escapes the plugins directory"))
            },
        },
    }
}

/// The answers that an entry request for a valid plugin id may get: the
/// answer for some outcome reported for canonicalizing the plugins directory
/// and, where that succeeded, some outcome reported for canonicalizing the
/// entry candidate.
pub open spec fn is_entry_answer(
    plugins_dir: Seq<char>,
    plugin_id: Seq<char>,
    entry: Seq<char>,
    answer: Result<Seq<char>, Seq<char>>,
) -> bool {
    exists|canonical_dir: Result<Seq<char>, Seq<char>>, canonical_entry: Result<Seq<char>, Seq<char>>|
        {
            &&& #[trigger] canonicalization_reported(plugins_dir, canonical_dir)
            &&& canonical_dir is Ok ==> canonicalization_reported(
                entry_candidate_of(plugins_dir, plugin_id, entry),
                canonical_entry,
            )
            &&& answer == #[trigger] entry_answer(canonical_dir, canonical_entry)
        }
}

/// Resolves `<plugins_dir>/<plugin_id>/<entry>` and requires the canonical
/// result to lie under the canonical plugins directory. An invalid plugin id
/// is refused before the filesystem is consulted. Otherwise the plugins
/// directory is canonicalized, then (where that succeeded) the entry
/// candidate, and the answer is `entry_answer` of what they reported.
pub fn resolve_entry_path(plugins_dir: &str, plugin_id: &str, entry: &str) -> (r: Result<
    String,
    String,
>)
    ensures
        !is_valid_plugin_id(plugin_id@) ==> result_view(r) == Err::<Seq<char>, Seq<char>>(
            "Invalid plugin id"@,
        ),
        is_valid_plugin_id(plugin_id@) ==> is_entry_answer(
            plugins_dir@,
            plugin_id@,
            entry@,
            result_view(r),
        ),
{
    if let Err(e) = check_plugin_id(plugin_id) {
        return Err(e);
    }
    let canonical_dir = canonicalize(plugins_dir);
    if canonical_dir.is_err() {
        // The entry is not looked up when the plugins directory is unknown.
        let not_looked_up: Result<String, String> = Err(String::new());
        return decide_entry(canonical_dir, not_looked_up);
    }
    let candidate = entry_candidate(plugins_dir, plugin_id, entry);
    let canonical_entry = canonicalize(candidate.as_str());
    decide_entry(canonical_dir, canonical_entry)
}

} // verus!
