//! Laws of plugin manifests and entry resolution.

use vstd::prelude::*;

use crate::text::{has_dot_dot, is_valid_plugin_id, is_white_space};
use crate::plugins::{
    built_manifest, error_manifest, join, missing_fields, missing_fields_message, present,
    required_entry_of, entry_answer, path_has_prefix, RawPluginManifestView,
};

verus! {

/// `word` occurs in `text` as a contiguous run.
pub open spec fn mentions(text: Seq<char>, word: Seq<char>) -> bool {
    exists|i: int|
        0 <= i && i + word.len() <= text.len() && #[trigger] text.subrange(i, i + word.len())
            == word
}

proof fn lemma_mentions_in_prefix(a: Seq<char>, b: Seq<char>, word: Seq<char>)
    requires
        mentions(a, word),
    ensures
        mentions(a + b, word),
{
    let i = choose|i: int|
        0 <= i && i + word.len() <= a.len() && #[trigger] a.subrange(i, i + word.len()) == word;
    assert((a + b).subrange(i, i + word.len()) =~= a.subrange(i, i + word.len()));
}

proof fn lemma_mentions_in_suffix(a: Seq<char>, b: Seq<char>, word: Seq<char>)
    requires
        mentions(b, word),
    ensures
        mentions(a + b, word),
{
    let i = choose|i: int|
        0 <= i && i + word.len() <= b.len() && #[trigger] b.subrange(i, i + word.len()) == word;
    let j = a.len() + i;
    assert((a + b).subrange(j, j + word.len()) =~= b.subrange(i, i + word.len()));
}

proof fn lemma_mentions_itself(word: Seq<char>)
    ensures
        mentions(word, word),
{
    let i: int = 0;
    assert(word.subrange(i, i + word.len()) =~= word);
}

/// Every item of a joined list occurs in the joined text.
proof fn lemma_join_mentions(list: Seq<Seq<char>>, sep: Seq<char>, k: int)
    requires
        0 <= k < list.len(),
    ensures
        mentions(join(list, sep), list[k]),
    decreases list.len(),
{
    if list.len() == 1 {
        lemma_mentions_itself(list[0]);
    } else if k == list.len() - 1 {
        lemma_mentions_itself(list.last());
        lemma_mentions_in_suffix(join(list.drop_last(), sep) + sep, list.last(), list[k]);
    } else {
        lemma_join_mentions(list.drop_last(), sep, k);
        assert(list.drop_last()[k] == list[k]);
        lemma_mentions_in_prefix(join(list.drop_last(), sep), sep, list[k]);
        lemma_mentions_in_prefix(join(list.drop_last(), sep) + sep, list.last(), list[k]);
    }
}

proof fn lemma_message_mentions(raw: RawPluginManifestView, k: int)
    requires
        0 <= k < missing_fields(raw).len(),
    ensures
        mentions(missing_fields_message(missing_fields(raw)), missing_fields(raw)[k]),
{
    let missing = missing_fields(raw);
    lemma_join_mentions(missing, ", "@, k);
    lemma_mentions_in_suffix("plugin.json missing required field(s): "@, join(missing, ", "@), missing[k]);
}

/// A manifest is reported without error exactly when its name, version and
/// entry are all present and not blank.
pub proof fn lemma_error_iff_required_field_missing(dir: Seq<char>, raw: RawPluginManifestView)
    ensures
        built_manifest(dir, raw).error is None <==> (present(raw.name) is Some && present(
            raw.version,
        ) is Some && present(raw.entry) is Some),
{
}

/// A manifest lacking a required field, or holding only white space in it, is
/// reported with an error that names each such field.
pub proof fn lemma_error_names_missing_fields(dir: Seq<char>, raw: RawPluginManifestView)
    ensures
        present(raw.name) is None ==> (built_manifest(dir, raw).error is Some && mentions(
            built_manifest(dir, raw).error.unwrap(),
            "name"@,
        )),
        present(raw.version) is None ==> (built_manifest(dir, raw).error is Some && mentions(
            built_manifest(dir, raw).error.unwrap(),
            "version"@,
        )),
        present(raw.entry) is None ==> (built_manifest(dir, raw).error is Some && mentions(
            built_manifest(dir, raw).error.unwrap(),
            "entry"@,
        )),
{
    let missing = missing_fields(raw);
    let n: int = if present(raw.name) is None { 1 } else { 0 };
    let v: int = if present(raw.version) is None { 1 } else { 0 };
    if present(raw.name) is None {
        assert(missing[0] == "name"@);
        lemma_message_mentions(raw, 0);
    }
    if present(raw.version) is None {
        assert(missing[n] == "version"@);
        lemma_message_mentions(raw, n);
    }
    if present(raw.entry) is None {
        assert(missing[n + v] == "entry"@);
        lemma_message_mentions(raw, n + v);
    }
}

/// A plugin's id is the name of its directory, whatever its `plugin.json`
/// holds and whether or not it could be read.
pub proof fn lemma_id_is_directory_name(
    dir: Seq<char>,
    raw: RawPluginManifestView,
    message: Seq<char>,
)
    ensures
        built_manifest(dir, raw).id == dir,
        error_manifest(dir, message).id == dir,
{
}

/// The entry that a plugin is loaded from is the entry its listed manifest
/// reports, whenever that manifest is valid.
pub proof fn lemma_loaded_entry_is_listed_entry(dir: Seq<char>, raw: RawPluginManifestView)
    ensures
        built_manifest(dir, raw).error is None ==> required_entry_of(raw) == Ok::<
            Seq<char>,
            Seq<char>,
        >(built_manifest(dir, raw).entry),
{
}

/// An entry request is answered with a path only when the plugins directory
/// and the entry were both canonicalized, the path is the entry's canonical
/// path, and its components begin with those of the canonical plugins
/// directory.
pub proof fn lemma_answered_entry_lies_inside(
    canonical_dir: Result<Seq<char>, Seq<char>>,
    canonical_entry: Result<Seq<char>, Seq<char>>,
)
    ensures
        entry_answer(canonical_dir, canonical_entry) is Ok ==> (canonical_dir is Ok
            && canonical_entry == entry_answer(canonical_dir, canonical_entry) && path_has_prefix(
            canonical_entry->Ok_0,
            canonical_dir->Ok_0,
        )),
{
}

/// An entry whose canonical path lies under the canonical plugins directory
/// is answered with that path, never refused; one that does not is refused.
pub proof fn lemma_entry_under_plugins_dir_is_answered(dir: Seq<char>, path: Seq<char>)
    ensures
        path_has_prefix(path, dir) ==> entry_answer(Ok(dir), Ok(path)) == Ok::<
            Seq<char>,
            Seq<char>,
        >(path),
        !path_has_prefix(path, dir) ==> entry_answer(Ok(dir), Ok(path)) == Err::<
            Seq<char>,
            Seq<char>,
        >("Access denied: entry path escapes the plugins directory"@),
{
}

/// The listed manifest passes the surfaces and the description of
/// `plugin.json` through unchanged, and takes its id from the directory.
pub proof fn lemma_manifest_keeps_listed_fields(dir: Seq<char>, raw: RawPluginManifestView)
    ensures
        built_manifest(dir, raw).surfaces == raw.surfaces,
        built_manifest(dir, raw).description == raw.description,
        built_manifest(dir, raw).id == dir,
{
}

/// A plugin id is valid exactly when it is non-empty and holds no `/`, no
/// `\` and no two consecutive dots; any other character is allowed.
pub proof fn lemma_plugin_id_validity(id: Seq<char>)
    ensures
        is_valid_plugin_id(id) <==> (id.len() > 0 && (forall|i: int|
            0 <= i < id.len() ==> #[trigger] id[i] != '/' && id[i] != '\\') && (forall|i: int|
            0 <= i && i + 1 < id.len() ==> !(#[trigger] id[i] == '.' && id[i + 1] == '.'))),
{
    if is_valid_plugin_id(id) {
        assert forall|i: int| 0 <= i < id.len() implies #[trigger] id[i] != '/' && id[i] != '\\'
            by {
            if id[i] == '/' {
                assert(id.contains('/'));
            }
            if id[i] == '\\' {
                assert(id.contains('\\'));
            }
        }
    }
    if !has_dot_dot(id) {
    } else {
        let k = choose|k: int| 0 <= k && k + 1 < id.len() && #[trigger] id[k] == '.' && id[k + 1] == '.';
        assert(id[k] == '.' && id[k + 1] == '.');
    }
}

/// A field holding any character besides white space is present, unchanged;
/// a field of white space only is missing.
pub proof fn lemma_field_presence(v: Seq<char>)
    ensures
        (exists|i: int| 0 <= i < v.len() && !is_white_space(#[trigger] v[i])) ==> present(Some(v))
            == Some(v),
        (forall|i: int| 0 <= i < v.len() ==> is_white_space(#[trigger] v[i])) ==> present(Some(v))
            is None,
        present(None) is None,
{
}

/// The entry a plugin is loaded from, and the entry its manifest lists, is
/// the text of `plugin.json`'s entry, unchanged, whenever that holds any
/// character besides white space. The same holds of the listed name and
/// version.
pub proof fn lemma_fields_are_taken_unchanged(dir: Seq<char>, raw: RawPluginManifestView)
    ensures
        (raw.entry is Some && exists|i: int|
            0 <= i < raw.entry->Some_0.len() && !is_white_space(#[trigger] raw.entry->Some_0[i]))
            ==> (required_entry_of(raw) == Ok::<Seq<char>, Seq<char>>(raw.entry->Some_0)
            && built_manifest(dir, raw).entry == raw.entry->Some_0),
        (raw.name is Some && exists|i: int|
            0 <= i < raw.name->Some_0.len() && !is_white_space(#[trigger] raw.name->Some_0[i]))
            ==> built_manifest(dir, raw).name == raw.name->Some_0,
        (raw.version is Some && exists|i: int|
            0 <= i < raw.version->Some_0.len() && !is_white_space(#[trigger] raw.version->Some_0[i]))
            ==> built_manifest(dir, raw).version == raw.version->Some_0,
{
}

} // verus!
