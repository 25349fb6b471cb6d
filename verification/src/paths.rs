//! Paths as text.

use vstd::prelude::*;

verus! {

/// Whether `c` may separate path components on some platform.
pub open spec fn is_slash(c: char) -> bool {
    c == '/' || c == '\\'
}

/// A name with neither a root nor a prefix on any platform: empty, or not
/// starting with a separator and holding no `:`.
pub open spec fn relative_name(name: Seq<char>) -> bool {
    name.len() == 0 || (!is_slash(name[0]) && !name.contains(':'))
}

/// A single plain path component: not empty, no separator or `:`, and
/// neither `.` nor `..`.
pub open spec fn plain_component(name: Seq<char>) -> bool {
    &&& name.len() > 0
    &&& !name.contains('/')
    &&& !name.contains('\\')
    &&& !name.contains(':')
    &&& name != seq!['.']
    &&& name != seq!['.', '.']
}

/// Whether `base` may carry a Windows verbatim prefix (`\\?\`), after which
/// joining normalizes the path.
pub open spec fn may_be_verbatim(base: Seq<char>) -> bool {
    base.len() >= 3 && is_slash(base[0]) && is_slash(base[1]) && base[2] == '?'
}

/// Whether `s` ends with `tail`.
pub open spec fn ends_with(s: Seq<char>, tail: Seq<char>) -> bool {
    tail.len() <= s.len() && s.skip(s.len() - tail.len()) == tail
}

/// What is known on every platform of `r`, the text of `base` joined with
/// `name`. When `base` has no verbatim prefix and `name` is relative:
/// onto an empty base the result is `name`; onto a base that ends in `/` it
/// is `base` then `name`; onto a base that ends in neither separator and
/// holds no `:` (so is no bare drive), one separator goes between them; in
/// every other case at most one does. A name that starts with a separator
/// ends the result when `base` has no verbatim prefix, and a single plain
/// component always ends it.
pub open spec fn joined_onto(base: Seq<char>, name: Seq<char>, r: Seq<char>) -> bool {
    &&& relative_name(name) && !may_be_verbatim(base) ==> {
        &&& r == base + name || r == base.push('/') + name || r == base.push('\\') + name
        &&& base.len() == 0 ==> r == name
        &&& base.len() > 0 && base.last() == '/' ==> r == base + name
        &&& base.len() > 0 && !is_slash(base.last()) && !base.contains(':') ==> (r == base.push(
            '/',
        ) + name || r == base.push('\\') + name)
    }
    &&& name.len() > 0 && is_slash(name[0]) && !may_be_verbatim(base) ==> ends_with(r, name)
    &&& plain_component(name) ==> ends_with(r, name)
}

/// `name` joined onto `base` by std's `Path::join`, as text.
///
/// Trusted: the body makes that one call, which vstd does not specify. The
/// contract claims what `PathBuf::push` does on every platform: a path with
/// no root and no prefix extends `base`, with a separator between them where
/// `base` is not empty, does not already end in one and is no bare drive
/// (`C:`); a name with a root replaces at most what precedes it, so it ends
/// the result; and after a verbatim prefix the components of a plain name
/// are still added at the end. Which of `/` and `\` is put between, and the
/// rest of what happens to a name with a root or a prefix, follow the
/// platform's rules and are left unsaid.
#[verifier::external_body]
pub(crate) fn path_join(base: &str, name: &str) -> (r: String)
    ensures
        joined_onto(base@, name@, r@),
{
    std::path::Path::new(base).join(name).to_string_lossy().into_owned()
}

} // verus!
