//! Syntactic validity of an identifier: whether an enum member's display name
//! can be used as a bare binding name in the lowered enum body.
//!
//! The model is deliberately ASCII-only: a name is identifier-valid when it is
//! non-empty, opens with `[A-Za-z_$]`, continues with `[A-Za-z0-9_$]`, and is
//! not a reserved word. Names using the wider Unicode identifier classes are
//! treated as not identifier-valid; for them the lowering falls back to the
//! always-correct bracketed member access and omits the `const` binding.

use vstd::prelude::*;
use vstd::string::StrSliceExecFns;

verus! {

/// A character that may open an identifier.
pub open spec fn is_id_start_char(c: char) -> bool {
    c == '_' || c == '$' || (97 <= c as u32 && c as u32 <= 122) || (65 <= c as u32 && c as u32
        <= 90)
}

/// A character that may continue an identifier.
pub open spec fn is_id_continue_char(c: char) -> bool {
    is_id_start_char(c) || (48 <= c as u32 && c as u32 <= 57)
}

/// The reserved words of the ECMAScript grammar, which are not identifiers:
/// the keywords, the future reserved words (including the strict-mode set),
/// and the `null`, `true` and `false` literals.
pub open spec fn is_reserved_word_seq(s: Seq<char>) -> bool {
    ||| s == "await"@
    ||| s == "break"@
    ||| s == "case"@
    ||| s == "catch"@
    ||| s == "class"@
    ||| s == "const"@
    ||| s == "continue"@
    ||| s == "debugger"@
    ||| s == "default"@
    ||| s == "delete"@
    ||| s == "do"@
    ||| s == "else"@
    ||| s == "enum"@
    ||| s == "export"@
    ||| s == "extends"@
    ||| s == "false"@
    ||| s == "finally"@
    ||| s == "for"@
    ||| s == "function"@
    ||| s == "if"@
    ||| s == "implements"@
    ||| s == "import"@
    ||| s == "in"@
    ||| s == "instanceof"@
    ||| s == "interface"@
    ||| s == "let"@
    ||| s == "new"@
    ||| s == "null"@
    ||| s == "package"@
    ||| s == "private"@
    ||| s == "protected"@
    ||| s == "public"@
    ||| s == "return"@
    ||| s == "static"@
    ||| s == "super"@
    ||| s == "switch"@
    ||| s == "this"@
    ||| s == "throw"@
    ||| s == "true"@
    ||| s == "try"@
    ||| s == "typeof"@
    ||| s == "var"@
    ||| s == "void"@
    ||| s == "while"@
    ||| s == "with"@
    ||| s == "yield"@
}

/// A non-empty name that opens with a start character, continues with
/// continue characters, and is not a reserved word.
pub open spec fn is_valid_identifier_seq(s: Seq<char>) -> bool {
    s.len() > 0 && is_id_start_char(s[0]) && (forall|j: int|
        1 <= j < s.len() ==> is_id_continue_char(s[j])) && !is_reserved_word_seq(s)
}

fn id_start(c: char) -> (r: bool)
    ensures
        r == is_id_start_char(c),
{
    c == '_' || c == '$' || (97 <= c as u32 && c as u32 <= 122) || (65 <= c as u32 && c as u32
        <= 90)
}

fn id_continue(c: char) -> (r: bool)
    ensures
        r == is_id_continue_char(c),
{
    id_start(c) || (48 <= c as u32 && c as u32 <= 57)
}

/// Character-by-character string equality.
pub fn str_eq(a: &str, b: &str) -> (r: bool)
    ensures
        r == (a@ == b@),
{
    let n: usize = a.unicode_len();
    let m: usize = b.unicode_len();
    if n != m {
        return false;
    }
    let mut i: usize = 0;
    while i < n
        invariant
            0 <= i <= n,
            n == a@.len(),
            n == b@.len(),
            forall|j: int| 0 <= j < i ==> a@[j] == b@[j],
        decreases n - i,
    {
        if a.get_char(i) != b.get_char(i) {
            return false;
        }
        i = i + 1;
    }
    proof {
        assert(a@ =~= b@);
    }
    true
}

/// Whether the name is one of the reserved words.
pub fn is_reserved_word(name: &str) -> (r: bool)
    ensures
        r == is_reserved_word_seq(name@),
{
    str_eq(name, "await") || str_eq(name, "break") || str_eq(name, "case") || str_eq(name, "catch")
        || str_eq(name, "class") || str_eq(name, "const") || str_eq(name, "continue") || str_eq(
        name,
        "debugger",
    ) || str_eq(name, "default") || str_eq(name, "delete") || str_eq(name, "do") || str_eq(
        name,
        "else",
    ) || str_eq(name, "enum") || str_eq(name, "export") || str_eq(name, "extends") || str_eq(
        name,
        "false",
    ) || str_eq(name, "finally") || str_eq(name, "for") || str_eq(name, "function") || str_eq(
        name,
        "if",
    ) || str_eq(name, "implements") || str_eq(name, "import") || str_eq(name, "in") || str_eq(
        name,
        "instanceof",
    ) || str_eq(name, "interface") || str_eq(name, "let") || str_eq(name, "new") || str_eq(
        name,
        "null",
    ) || str_eq(name, "package") || str_eq(name, "private") || str_eq(name, "protected") || str_eq(
        name,
        "public",
    ) || str_eq(name, "return") || str_eq(name, "static") || str_eq(name, "super") || str_eq(
        name,
        "switch",
    ) || str_eq(name, "this") || str_eq(name, "throw") || str_eq(name, "true") || str_eq(
        name,
        "try",
    ) || str_eq(name, "typeof") || str_eq(name, "var") || str_eq(name, "void") || str_eq(
        name,
        "while",
    ) || str_eq(name, "with") || str_eq(name, "yield")
}

/// Whether `name` is a syntactically valid identifier.
pub fn is_valid_identifier(name: &str) -> (r: bool)
    ensures
        r == is_valid_identifier_seq(name@),
{
    let len: usize = name.unicode_len();
    if len == 0 {
        return false;
    }
    if !id_start(name.get_char(0)) {
        return false;
    }
    let mut i: usize = 1;
    while i < len
        invariant
            1 <= i <= len,
            len == name@.len(),
            is_id_start_char(name@[0]),
            forall|j: int| 1 <= j < i ==> is_id_continue_char(name@[j]),
        decreases len - i,
    {
        if !id_continue(name.get_char(i)) {
            return false;
        }
        i = i + 1;
    }
    !is_reserved_word(name)
}

} // verus!
