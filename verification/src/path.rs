//! Endpoint paths and the rules they must keep.
//!
//! A path is checked once, when a function is described, and never again
//! per request: a path that breaks a rule stops the program at startup.

use crate::text::{chars_of, contains_pair, first_index, has_pair, lemma_first_index};
use vstd::prelude::*;

verus! {

/// The rule an endpoint path breaks.
#[derive(Debug, Clone, Copy, PartialEq, Eq, Structural)]
pub enum PathError {
    /// The path does not start with `/`.
    MissingLeadingSlash,
    /// The path holds `..`.
    Traversal,
    /// The path holds `//`.
    DoubleSlash,
    /// The path holds this character, which is neither an ASCII letter or
    /// digit nor one of `-`, `_`, `/`.
    InvalidCharacter(char),
    /// The path is longer than `/` and ends with `/`.
    TrailingSlash,
}

/// Whether `c` may stand in an endpoint path.
pub open spec fn is_path_char(c: char) -> bool {
    ('a' <= c <= 'z') || ('A' <= c <= 'Z') || ('0' <= c <= '9') || c == '-' || c == '_' || c
        == '/'
}

/// The first rule that `path` breaks, in the order in which the rules are
/// tried, or `None` for a path that keeps them all.
pub open spec fn path_problem(path: Seq<char>) -> Option<PathError> {
    let bad = first_index(path, |c: char| !is_path_char(c), 0);
    if path.len() == 0 || path[0] != '/' {
        Some(PathError::MissingLeadingSlash)
    } else if has_pair(path, '.', '.') {
        Some(PathError::Traversal)
    } else if has_pair(path, '/', '/') {
        Some(PathError::DoubleSlash)
    } else if bad < path.len() {
        Some(PathError::InvalidCharacter(path[bad]))
    } else if path.len() > 1 && path.last() == '/' {
        Some(PathError::TrailingSlash)
    } else {
        None
    }
}

/// A path that keeps every rule: it starts with `/`, holds neither `..` nor
/// `//`, is made of ASCII letters, digits, `-`, `_` and `/` alone, and does
/// not end with `/` unless it is `/` itself.
pub open spec fn is_valid_path(path: Seq<char>) -> bool {
    &&& path.len() > 0
    &&& path[0] == '/'
    &&& forall|i: int| 0 <= i < path.len() ==> is_path_char(#[trigger] path[i])
    &&& forall|i: int| 0 <= i < path.len() - 1 ==> !(#[trigger] path[i] == '/' && path[i + 1] == '/')
    &&& (path.len() == 1 || path.last() != '/')
}

/// `path_problem` finds nothing exactly in the valid paths.
pub proof fn lemma_no_problem_is_valid(path: Seq<char>)
    ensures
        path_problem(path).is_none() <==> is_valid_path(path),
{
    let unfit = |c: char| !is_path_char(c);
    crate::text::lemma_first_index_found(path, unfit, 0);
    if is_valid_path(path) {
        if has_pair(path, '.', '.') {
            let i = choose|i: int| 0 <= i < path.len() - 1 && #[trigger] path[i] == '.' && path[i + 1] == '.';
            assert(is_path_char(path[i]));
        }
        let bad = first_index(path, unfit, 0);
        if bad < path.len() {
            assert(is_path_char(path[bad]));
        }
    }
    if path_problem(path).is_none() {
        assert forall|i: int| 0 <= i < path.len() implies is_path_char(#[trigger] path[i]) by {
            if !is_path_char(path[i]) {
                assert(unfit(path[i]));
            }
        }
    }
}

/// Whether `c` may stand in an endpoint path.
pub fn path_char_allowed(c: char) -> (allowed: bool)
    ensures
        allowed == is_path_char(c),
{
    ('a' <= c && c <= 'z') || ('A' <= c && c <= 'Z') || ('0' <= c && c <= '9') || c == '-' || c
        == '_' || c == '/'
}

/// Checks an endpoint path against the rules and names the first one it
/// breaks.
pub fn validate_api_path(path: &str) -> (checked: Result<(), PathError>)
    ensures
        checked == match path_problem(path@) {
            Some(problem) => Err::<(), PathError>(problem),
            None => Ok(()),
        },
        checked.is_ok() <==> is_valid_path(path@),
{
    let chars = chars_of(path);
    proof {
        lemma_no_problem_is_valid(path@);
    }
    validate_path_chars(&chars)
}

/// The check of `validate_api_path`, on the characters of the path.
pub fn validate_path_chars(chars: &Vec<char>) -> (checked: Result<(), PathError>)
    ensures
        checked == match path_problem(chars@) {
            Some(problem) => Err::<(), PathError>(problem),
            None => Ok(()),
        },
{
    if chars.len() == 0 || chars[0] != '/' {
        return Err(PathError::MissingLeadingSlash);
    }
    if contains_pair(chars, '.', '.') {
        return Err(PathError::Traversal);
    }
    if contains_pair(chars, '/', '/') {
        return Err(PathError::DoubleSlash);
    }
    let mut i: usize = 0;
    while i < chars.len()
        invariant
            i <= chars.len(),
            chars.len() > 0 && chars@[0] == '/',
            !has_pair(chars@, '.', '.'),
            !has_pair(chars@, '/', '/'),
            forall|j: int| 0 <= j < i ==> is_path_char(#[trigger] chars@[j]),
        decreases chars.len() - i,
    {
        if !path_char_allowed(chars[i]) {
            proof {
                lemma_first_index(chars@, |c: char| !is_path_char(c), 0, i as int);
            }
            return Err(PathError::InvalidCharacter(chars[i]));
        }
        i = i + 1;
    }
    proof {
        lemma_first_index(chars@, |c: char| !is_path_char(c), 0, chars.len() as int);
    }
    if chars.len() > 1 && chars[chars.len() - 1] == '/' {
        return Err(PathError::TrailingSlash);
    }
    Ok(())
}

} // verus!
