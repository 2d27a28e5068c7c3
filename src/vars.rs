use vstd::prelude::*;
use vstd::string::*;
use crate::text::{find_char, index_from, replace_all, replace_str};

verus! {

/// Why a path variable could not be resolved.
#[derive(Debug, Clone, PartialEq, Eq)]
pub enum VarError {
    /// A `%NAME%` other than `%ROOT%`; holds the name.
    Unresolved(String),
    /// A lone `%`; holds the text after substitution.
    InvalidSyntax(String),
}

/// The text after `%ROOT%` is replaced by the root, written with forward
/// slashes.
pub open spec fn substituted(input: Seq<char>, root: Seq<char>) -> Seq<char> {
    replace_all(input, "%ROOT%"@, replace_all(root, "\\"@, "/"@))
}

/// Whether `r` is what resolving `input` against `root` gives: the
/// substituted text where no `%` is left; otherwise the name between the
/// first two `%`, or the whole text where only one is left.
pub open spec fn resolves_to(r: Result<String, VarError>, input: Seq<char>, root: Seq<char>) -> bool {
    let t = substituted(input, root);
    match index_from(t, '%', 0) {
        None => r is Ok && r->Ok_0@ == t,
        Some(a) => match index_from(t, '%', a + 1) {
            Some(b) => r is Err && r->Err_0 is Unresolved && r->Err_0->Unresolved_0@ == t.subrange(a + 1, b),
            None => r is Err && r->Err_0 is InvalidSyntax && r->Err_0->InvalidSyntax_0@ == t,
        },
    }
}

/// Resolves the path variables of `input`; `%ROOT%` is the only one known.
pub fn resolve_vars(input: &str, root: &str) -> (r: Result<String, VarError>)
    ensures
        resolves_to(r, input@, root@),
{
    proof {
        reveal_strlit("\\");
        reveal_strlit("%ROOT%");
    }
    let root_str = replace_str(root, "\\", "/");
    let result = replace_str(input, "%ROOT%", root_str.as_str());
    let t = result.as_str();
    match find_char(t, '%', 0) {
        None => Ok(result),
        Some(a) => match find_char(t, '%', a + 1) {
            Some(b) => Err(VarError::Unresolved(String::from_str(t.substring_char(a + 1, b)))),
            None => Err(VarError::InvalidSyntax(result)),
        },
    }
}

} // verus!
