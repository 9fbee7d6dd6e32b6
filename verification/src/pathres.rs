//! The path resolver: expand a leading `~` and `$VAR`/`${VAR}` references,
//! then absolutize, without requiring the target to exist. Either step may
//! fail (an undefined variable, an unreadable working directory); the
//! resolver then degrades to returning the original input unchanged — it
//! never fails the program.

use path_absolutize::Absolutize;
use vstd::prelude::*;

verus! {

/// `s` begins with the path separator.
pub open spec fn spec_is_absolute(s: Seq<char>) -> bool {
    s.len() > 0 && s[0] == '/'
}

/// `c` could continue a `$` into a variable reference: a second `$` (the
/// escape), an opening brace, or a name character. Variable names take
/// alphanumeric characters and `_`; every character outside ASCII is
/// counted as a possible name character, to stay on the safe side.
pub open spec fn spec_could_start_name(c: char) -> bool {
    c == '$' || c == '{' || c == '_' || ('0' <= c && c <= '9') || ('a' <= c && c <= 'z') || ('A'
        <= c && c <= 'Z') || c > '\u{7f}'
}

/// The `$` at position `i` of `s` is active: what follows it could make it
/// a variable reference or an escape. A `$` at the end of the string, or
/// one followed by a separator or other plain punctuation, is inert text
/// that expansion copies through.
pub open spec fn spec_active_dollar_at(s: Seq<char>, i: int) -> bool {
    s[i] == '$' && i + 1 < s.len() && spec_could_start_name(s[i + 1])
}

/// `s` holds an active `$` somewhere, so variable expansion could touch it.
pub open spec fn spec_has_active_dollar(s: Seq<char>) -> bool {
    exists|i: int| 0 <= i < s.len() && spec_active_dollar_at(s, i)
}

/// `s` is free of expansion references: it does not begin with `~` and
/// holds no active `$`.
pub open spec fn spec_no_expansion_refs(s: Seq<char>) -> bool {
    !(s.len() > 0 && s[0] == '~') && !spec_has_active_dollar(s)
}

/// Position `i` of `s` carries a `.` path segment: a dot with a separator
/// (or an end of the string) on both sides.
pub open spec fn spec_dot_segment_at(s: Seq<char>, i: int) -> bool {
    s[i] == '.' && (i == 0 || s[i - 1] == '/') && (i + 1 == s.len() || s[i + 1] == '/')
}

/// Position `i` of `s` starts a `..` path segment.
pub open spec fn spec_dotdot_segment_at(s: Seq<char>, i: int) -> bool {
    i + 1 < s.len() && s[i] == '.' && s[i + 1] == '.' && (i == 0 || s[i - 1] == '/') && (i + 2
        == s.len() || s[i + 2] == '/')
}

/// `s` is an absolute path in normal form: it begins with `/`, has no empty
/// segment (no `//`), no trailing separator unless it is the root itself,
/// and no `.` or `..` segment. Such a string is exactly one the absolutizer
/// passes through unchanged.
pub open spec fn spec_is_normal_absolute(s: Seq<char>) -> bool {
    spec_is_absolute(s)
    && (s.len() == 1 || s[s.len() - 1] != '/')
    && (forall|i: int| 0 <= i < s.len() - 1 ==> !(#[trigger] s[i] == '/' && s[i + 1] == '/'))
    && (forall|i: int| 0 <= i < s.len() ==> !spec_dot_segment_at(s, i))
    && (forall|i: int| 0 <= i < s.len() ==> !spec_dotdot_segment_at(s, i))
}

/// What expansion guarantees: an input free of expansion references comes
/// back unchanged and without error; an input with no active `$` never
/// fails at all, since only variable lookups can error; and such an input
/// beginning `~/` keeps everything after the `~` — only the tilde itself
/// is replaced (by the home directory, or by nothing when none is known).
pub open spec fn spec_expansion_contract(path: Seq<char>, r: Option<String>) -> bool {
    &&& spec_no_expansion_refs(path) ==> (r matches Some(e) && e@ == path)
    &&& !spec_has_active_dollar(path) ==> r is Some
    &&& (!spec_has_active_dollar(path) && path.len() >= 2 && path[0] == '~' && path[1] == '/')
        ==> (r matches Some(e) && (exists|h: Seq<char>| e@ == h + path.skip(1)))
}

/// Relies on `shellexpand::full`: tilde expansion applies only to a leading
/// `~` and never errors (an unknown home directory leaves the input as it
/// is); variable expansion looks a name up only where a `$` is followed by
/// a name character or a brace, copies an inert `$` through, and a failed
/// lookup is the only error. So an input with no active `$` always comes
/// back `Ok`, unchanged when it has no leading `~`, and with only the `~`
/// of a `~/` prefix replaced otherwise.
#[verifier::external_body]
fn expand_full(path: &str) -> (r: Option<String>)
    ensures
        spec_expansion_contract(path@, r),
{
    match shellexpand::full(path) {
        Ok(expanded) => Some(expanded.into_owned()),
        Err(_) => None,
    }
}

/// What absolutization guarantees: an input already in normal form comes
/// back unchanged; an absolute input always succeeds, yields a normal
/// absolute path, and holds an active `$` only where the input did; and
/// every successful result, for any input, is absolute.
pub open spec fn spec_absolutize_contract(s: Seq<char>, r: Option<String>) -> bool {
    &&& spec_is_normal_absolute(s) ==> (r matches Some(t) && t@ == s)
    &&& spec_is_absolute(s) ==> (r matches Some(t) && spec_is_normal_absolute(t@) && (
    !spec_has_active_dollar(s) ==> !spec_has_active_dollar(t@)))
    &&& r matches Some(t) ==> spec_is_absolute(t@)
}

/// Relies on `path_absolutize::Absolutize::absolutize` for `Path`: an
/// absolute input never consults the working directory and cannot fail;
/// the output for an absolute input is rebuilt from the input's own normal
/// segments joined by single separators, so it is a normal absolute path
/// and an input already in normal form comes back unchanged. Each segment
/// is copied verbatim and is followed by a separator or the end, so a `$`
/// in the output has the successor it had in the input, or a separator, or
/// none — no inert `$` turns active. A relative input is prefixed with the
/// working directory, which the standard library reports as an absolute
/// path, so every successful result is absolute.
#[verifier::external_body]
fn absolutize_path(s: &str) -> (r: Option<String>)
    ensures
        spec_absolutize_contract(s@, r),
{
    match std::path::Path::new(s).absolutize() {
        Ok(absolute) => match absolute.to_str() {
            Some(text) => Some(text.to_owned()),
            None => None,
        },
        Err(_) => None,
    }
}

/// Finish resolution once expansion has been attempted: a failed expansion
/// falls back to the original input, and so does a failed absolutization;
/// whatever happens, the result is that fallback or an absolute path.
pub fn finish_resolution(path: &str, expanded: Option<String>) -> (r: String)
    ensures
        expanded is None ==> r@ == path@,
        expanded matches Some(e) ==> spec_is_normal_absolute(e@) ==> r@ == e@,
        expanded matches Some(e) ==> spec_is_absolute(e@) ==> (spec_is_normal_absolute(r@) && (
        !spec_has_active_dollar(e@) ==> !spec_has_active_dollar(r@))),
        r@ == path@ || spec_is_absolute(r@),
{
    match expanded {
        None => path.to_owned(),
        Some(e) => match absolutize_path(e.as_str()) {
            None => path.to_owned(),
            Some(absolute) => absolute,
        },
    }
}

/// Resolve a possibly user-shorthand path: expand `~` and environment
/// references, then absolutize; on any failure return the input unchanged,
/// so the result is always the original input or an absolute path. An
/// absolute input free of expansion references resolves to a normal
/// absolute path still free of them, and resolves to itself when already
/// in normal form; a dollar-free input never falls back on the expansion
/// step, only on absolutization.
pub fn get_absolute_path(path: &str) -> (r: String)
    ensures
        (spec_no_expansion_refs(path@) && spec_is_normal_absolute(path@)) ==> r@ == path@,
        (spec_no_expansion_refs(path@) && spec_is_absolute(path@)) ==> (spec_is_normal_absolute(
            r@,
        ) && spec_no_expansion_refs(r@)),
        r@ == path@ || spec_is_absolute(r@),
{
    let expanded = expand_full(path);
    finish_resolution(path, expanded)
}

/// Law: resolution is idempotent on absolute paths free of `~` and
/// environment references — resolving twice yields the same string as
/// resolving once. The pair holds the first and the second result.
pub fn get_absolute_path_twice(path: &str) -> (r: (String, String))
    ensures
        (spec_no_expansion_refs(path@) && spec_is_absolute(path@)) ==> r.1@ == r.0@,
{
    let once = get_absolute_path(path);
    let twice = get_absolute_path(once.as_str());
    (once, twice)
}

} // verus!
