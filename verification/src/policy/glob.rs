//! Glob patterns that match one literal path.

use crate::error::{SandboxError, SandboxErrorModel};
use crate::native::{chars_of, NativePath, NativeString, NativeText};
use vstd::prelude::*;
use vstd::string::*;

verus! {

/// Whether a character has a meaning of its own in a glob pattern.
pub open spec fn is_glob_special(ch: char) -> bool {
    ch == '\\' || ch == '*' || ch == '?' || ch == '[' || ch == ']' || ch == '{' || ch == '}'
}

/// The text with a backslash before every special character.
pub open spec fn glob_escaped(text: Seq<char>) -> Seq<char>
    decreases text.len(),
{
    if text.len() == 0 {
        Seq::empty()
    } else if is_glob_special(text.first()) {
        seq!['\\', text.first()] + glob_escaped(text.drop_first())
    } else {
        seq![text.first()] + glob_escaped(text.drop_first())
    }
}

/// The text with every backslash removed that stands before another character.
pub open spec fn glob_unescaped(pattern: Seq<char>) -> Seq<char>
    decreases pattern.len(),
{
    if pattern.len() == 0 {
        Seq::empty()
    } else if pattern.first() == '\\' && pattern.len() > 1 {
        seq![pattern[1]] + glob_unescaped(pattern.skip(2))
    } else {
        seq![pattern.first()] + glob_unescaped(pattern.drop_first())
    }
}

/// Escaping loses nothing: the pattern stands for the path and for no other one.
pub proof fn glob_escape_is_reversible(text: Seq<char>)
    ensures
        glob_unescaped(glob_escaped(text)) == text,
    decreases text.len(),
{
    if text.len() > 0 {
        let rest = glob_escaped(text.drop_first());
        glob_escape_is_reversible(text.drop_first());
        let pattern = glob_escaped(text);
        if is_glob_special(text.first()) {
            assert(pattern.skip(2) =~= rest);
            assert(pattern[1] == text.first());
        } else {
            assert(pattern.drop_first() =~= rest);
        }
        assert(seq![text.first()] + text.drop_first() =~= text);
    }
}

/// A pattern that matches the path literally.
pub fn escape_literal_glob(path: &NativePath) -> (result: Result<String, SandboxError>)
    ensures
        match path@.text {
            NativeText::Unicode(text) => result matches Ok(pattern) && pattern@ == glob_escaped(text),
            _ => result matches Err(error) && error@ == (SandboxErrorModel::InvalidPath {
                path: path@,
                message: "Seatbelt policy paths must be valid UTF-8"@,
            }),
        },
{
    match &path.text {
        NativeString::Unicode(text) => Ok(escape_text(text.as_str())),
        _ => Err(
            SandboxError::InvalidPath {
                path: path.clone(),
                message: "Seatbelt policy paths must be valid UTF-8".to_owned(),
            },
        ),
    }
}

fn escape_text(text: &str) -> (result: String)
    ensures
        result@ == glob_escaped(text@),
{
    let chars = chars_of(text);
    let mut escaped = String::new();
    assert(chars@.skip(0) =~= text@);
    assert(escaped@ + glob_escaped(text@) =~= glob_escaped(text@));
    for index in 0..chars.len()
        invariant
            chars@ == text@,
            escaped@ + glob_escaped(chars@.skip(index as int)) == glob_escaped(text@),
    {
        let character = chars[index];
        let ghost before = escaped@;
        let ghost rest = chars@.skip(index as int);
        assert(rest.drop_first() =~= chars@.skip(index + 1));
        if matches!(character, '\\' | '*' | '?' | '[' | ']' | '{' | '}') {
            escaped.push('\\');
            escaped.push(character);
            assert(escaped@ =~= before + seq!['\\', character]);
        } else {
            escaped.push(character);
            assert(escaped@ =~= before + seq![character]);
        }
        assert(escaped@ + glob_escaped(rest.drop_first()) =~= before + glob_escaped(rest));
    }
    assert(chars@.skip(chars@.len() as int) =~= Seq::empty());
    assert(escaped@ + Seq::<char>::empty() =~= escaped@);
    escaped
}

/// What a glob pattern matches where it matches a single text: a backslash takes away the
/// meaning of the character that it precedes, and any other character that has a meaning
/// makes the pattern match more than one text.
pub open spec fn only_match(pattern: Seq<char>) -> Option<Seq<char>>
    decreases pattern.len(),
{
    if pattern.len() == 0 {
        Some(Seq::empty())
    } else if pattern[0] == '\\' {
        if pattern.len() == 1 {
            None
        } else {
            match only_match(pattern.skip(2)) {
                Some(rest) => Some(seq![pattern[1]] + rest),
                None => None,
            }
        }
    } else if pattern[0] == '*' || pattern[0] == '?' || pattern[0] == '[' || pattern[0] == ']' || pattern[0] == '{'
        || pattern[0] == '}' {
        None
    } else {
        match only_match(pattern.skip(1)) {
            Some(rest) => Some(seq![pattern[0]] + rest),
            None => None,
        }
    }
}

/// An escaped path matches itself and nothing else.
pub proof fn escaped_paths_match_themselves_only(text: Seq<char>)
    ensures
        only_match(glob_escaped(text)) == Some(text),
    decreases text.len(),
{
    if text.len() > 0 {
        let rest = glob_escaped(text.drop_first());
        escaped_paths_match_themselves_only(text.drop_first());
        assert(glob_escaped(text).skip(1) =~= if is_glob_special(text.first()) {
            seq![text.first()] + rest
        } else {
            rest
        });
        assert(is_glob_special(text.first()) ==> glob_escaped(text).skip(2) =~= rest);
        assert(seq![text.first()] + text.drop_first() =~= text);
    }
}

} // verus!
