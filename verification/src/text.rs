//! Character-level predicates on plugin ids and manifest fields.

use vstd::prelude::*;

verus! {

/// The Unicode `White_Space` property: the characters that `char::is_whitespace`
/// accepts and that `str::trim` removes.
pub open spec fn is_white_space(c: char) -> bool {
    let n = c as u32;
    ||| 0x09 <= n <= 0x0d
    ||| n == 0x20
    ||| n == 0x85
    ||| n == 0xa0
    ||| n == 0x1680
    ||| 0x2000 <= n <= 0x200a
    ||| n == 0x2028
    ||| n == 0x2029
    ||| n == 0x202f
    ||| n == 0x205f
    ||| n == 0x3000
}

/// A text is blank when trimming its white space leaves nothing.
pub open spec fn is_blank(s: Seq<char>) -> bool {
    forall|i: int| 0 <= i < s.len() ==> is_white_space(#[trigger] s[i])
}

/// Two consecutive dots occur somewhere in `s`.
pub open spec fn has_dot_dot(s: Seq<char>) -> bool {
    exists|i: int| 0 <= i && i + 1 < s.len() && #[trigger] s[i] == '.' && s[i + 1] == '.'
}

/// Whether `c` has the Unicode `White_Space` property.
pub fn white_space(c: char) -> (r: bool)
    ensures
        r == is_white_space(c),
{
    let n = c as u32;
    (0x09 <= n && n <= 0x0d) || n == 0x20 || n == 0x85 || n == 0xa0 || n == 0x1680
        || (0x2000 <= n && n <= 0x200a) || n == 0x2028 || n == 0x2029 || n == 0x202f
        || n == 0x205f || n == 0x3000
}

/// Whether `s` holds nothing but white space (`s.trim().is_empty()`).
pub fn blank(s: &str) -> (r: bool)
    ensures
        r == is_blank(s@),
{
    for c in it: s.chars()
        invariant
            it.seq() == s@,
            forall|j: int| 0 <= j < it.index() ==> is_white_space(#[trigger] s@[j]),
    {
        if !white_space(c) {
            return false;
        }
    }
    true
}

/// A plugin id may address exactly one directory below the plugins root:
/// it is non-empty, holds no path separator and no `..`.
pub open spec fn is_valid_plugin_id(id: Seq<char>) -> bool {
    &&& id.len() > 0
    &&& !id.contains('/')
    &&& !id.contains('\\')
    &&& !has_dot_dot(id)
}

/// Whether `id` is a valid plugin id.
pub fn valid_plugin_id(id: &str) -> (r: bool)
    ensures
        r == is_valid_plugin_id(id@),
        r <==> (id@.len() > 0 && (forall|i: int|
            0 <= i < id@.len() ==> #[trigger] id@[i] != '/' && id@[i] != '\\') && (forall|i: int|
            0 <= i && i + 1 < id@.len() ==> !(#[trigger] id@[i] == '.' && id@[i + 1] == '.'))),
{
    if id.is_empty() {
        return false;
    }
    let mut prev_dot = false;
    for c in it: id.chars()
        invariant
            it.seq() == id@,
            prev_dot == (it.index() > 0 && id@[it.index() - 1] == '.'),
            forall|j: int| 0 <= j < it.index() ==> #[trigger] id@[j] != '/' && id@[j] != '\\',
            forall|j: int|
                0 <= j && j + 1 < it.index() ==> !(#[trigger] id@[j] == '.' && id@[j + 1] == '.'),
    {
        if c == '/' || c == '\\' {
            return false;
        }
        if c == '.' && prev_dot {
            assert(id@[it.index() - 1] == '.' && id@[it.index() as int] == '.');
            return false;
        }
        prev_dot = c == '.';
    }
    true
}

} // verus!
