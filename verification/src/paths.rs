//! Paths are carried as text (`String`); the few `std::path` operations the
//! planner needs are called through the wrappers below, and the file stem
//! and extension test are computed from the file name.
use vstd::prelude::*;

verus! {

/// The characters of an optional string.
pub open spec fn opt_view(o: Option<String>) -> Option<Seq<char>> {
    match o {
        Some(s) => Some(s@),
        None => None,
    }
}

/// What `Path::file_name` returns for a path given as text.
pub uninterp spec fn spec_file_name(p: Seq<char>) -> Option<Seq<char>>;

/// What `Path::join` returns for a base path and a path to append.
pub uninterp spec fn spec_join(base: Seq<char>, p: Seq<char>) -> Seq<char>;

/// What `Path::parent` returns for a path given as text.
pub uninterp spec fn spec_parent(p: Seq<char>) -> Option<Seq<char>>;

/// Calls `Path::file_name` on `p`: the final component, or `None` when the
/// path ends in `..` or has no final component. The contract only names the
/// result; the text of a component of a UTF-8 path converts back unchanged.
#[verifier::external_body]
pub(crate) fn file_name(p: &str) -> (r: Option<String>)
    ensures
        opt_view(r) == spec_file_name(p@),
{
    match std::path::Path::new(p).file_name() {
        Some(name) => Some(name.to_string_lossy().into_owned()),
        None => None,
    }
}

/// Calls `Path::join`; the contract only names the result.
#[verifier::external_body]
pub(crate) fn join(base: &str, p: &str) -> (r: String)
    ensures
        r@ == spec_join(base@, p@),
{
    std::path::Path::new(base).join(p).to_string_lossy().into_owned()
}

/// Calls `Path::parent`; the contract only names the result.
#[verifier::external_body]
pub(crate) fn parent(p: &str) -> (r: Option<String>)
    ensures
        opt_view(r) == spec_parent(p@),
{
    match std::path::Path::new(p).parent() {
        Some(dir) => Some(dir.to_string_lossy().into_owned()),
        None => None,
    }
}

/// Index of the last `.` in `s`, or -1 when there is none.
pub open spec fn spec_last_dot(s: Seq<char>) -> int
    decreases s.len(),
{
    if s.len() == 0 {
        -1
    } else if s.last() == '.' {
        s.len() - 1
    } else {
        spec_last_dot(s.drop_last())
    }
}

/// The stem of a file name as `Path::file_stem` documents it: the whole name
/// when it has no `.`, or when its only `.` is the leading one; otherwise
/// the part before the final `.`.
pub open spec fn spec_stem_of(name: Seq<char>) -> Seq<char> {
    if spec_last_dot(name) <= 0 {
        name
    } else {
        name.take(spec_last_dot(name))
    }
}

/// Index of the last `.` in `s`, or `None` when there is none.
pub fn last_dot(s: &str) -> (r: Option<usize>)
    ensures
        match r {
            Some(i) => i as int == spec_last_dot(s@) && i < s@.len() && s@[i as int] == '.',
            None => spec_last_dot(s@) == -1,
        },
{
    let n = s.unicode_len();
    let mut i: usize = n;
    assert(s@.take(n as int) =~= s@);
    while i > 0
        invariant
            n == s@.len(),
            i <= n,
            spec_last_dot(s@) == spec_last_dot(s@.take(i as int)),
        decreases i,
    {
        let ghost t = s@.take(i as int);
        assert(t.drop_last() =~= s@.take(i - 1));
        if s.get_char(i - 1) == '.' {
            return Some(i - 1);
        }
        i = i - 1;
    }
    assert(s@.take(0) =~= Seq::<char>::empty());
    None
}

/// The stem of the path's file name, as `Path::file_stem` documents it:
/// none without a file name, otherwise the stem described at `spec_stem_of`.
pub fn file_stem(p: &str) -> (r: Option<String>)
    ensures
        opt_view(r) == match spec_file_name(p@) {
            Some(name) => Some(spec_stem_of(name)),
            None => None,
        },
{
    match file_name(p) {
        Some(name) => match last_dot(name.as_str()) {
            Some(i) => if i > 0 {
                Some(String::from_str(name.as_str().substring_char(0, i)))
            } else {
                Some(name)
            },
            None => Some(name),
        },
        None => None,
    }
}

/// Whether the path has an extension, as `Path::extension` documents it:
/// exactly when the file name has a `.` other than a leading one.
pub fn has_extension(p: &str) -> (r: bool)
    ensures
        r == (spec_file_name(p@) matches Some(name) && spec_last_dot(name) > 0),
{
    match file_name(p) {
        Some(name) => match last_dot(name.as_str()) {
            Some(i) => i > 0,
            None => false,
        },
        None => false,
    }
}

/// A path with a leading `~` replaced by the home directory, when one is known.
pub open spec fn spec_expand_home(path: Seq<char>, home: Option<Seq<char>>) -> Seq<char> {
    if path.len() > 0 && path[0] == '~' && home is Some {
        home.unwrap() + path.skip(1)
    } else {
        path
    }
}

/// Replaces a leading `~` in `path` by `home`, when `home` is known.
pub fn expand_home(path: &str, home: &Option<String>) -> (r: String)
    ensures
        r@ == spec_expand_home(path@, opt_view(*home)),
{
    let n = path.unicode_len();
    if n > 0 && path.get_char(0) == '~' {
        match home {
            Some(h) => {
                let rest = path.substring_char(1, n);
                let out = h.clone().concat(rest);
                assert(rest@ =~= path@.skip(1));
                out
            },
            None => String::from_str(path),
        }
    } else {
        String::from_str(path)
    }
}

} // verus!
