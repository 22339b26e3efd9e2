//! How a name in the database becomes a name in Rust.

use vstd::prelude::*;
use vstd::string::StringExecFns;
use crate::codec::str_eq;

verus! {

/// Whether `name` is a word that Rust keeps for itself, now or for later.
pub open spec fn reserved(name: Seq<char>) -> bool {
    ||| name == "abstract"@
    ||| name == "alignof"@
    ||| name == "as"@
    ||| name == "become"@
    ||| name == "box"@
    ||| name == "break"@
    ||| name == "const"@
    ||| name == "continue"@
    ||| name == "crate"@
    ||| name == "do"@
    ||| name == "else"@
    ||| name == "enum"@
    ||| name == "extern"@
    ||| name == "false"@
    ||| name == "final"@
    ||| name == "fn"@
    ||| name == "for"@
    ||| name == "if"@
    ||| name == "impl"@
    ||| name == "in"@
    ||| name == "let"@
    ||| name == "loop"@
    ||| name == "macro"@
    ||| name == "match"@
    ||| name == "mod"@
    ||| name == "move"@
    ||| name == "mut"@
    ||| name == "offsetof"@
    ||| name == "override"@
    ||| name == "priv"@
    ||| name == "proc"@
    ||| name == "pub"@
    ||| name == "pure"@
    ||| name == "ref"@
    ||| name == "return"@
    ||| name == "Self"@
    ||| name == "self"@
    ||| name == "sizeof"@
    ||| name == "static"@
    ||| name == "struct"@
    ||| name == "super"@
    ||| name == "trait"@
    ||| name == "true"@
    ||| name == "type"@
    ||| name == "typeof"@
    ||| name == "unsafe"@
    ||| name == "unsized"@
    ||| name == "use"@
    ||| name == "virtual"@
    ||| name == "where"@
    ||| name == "while"@
    ||| name == "yield"@
}

/// The Rust name for the SQL name `sql_name`: the name itself, with an
/// underscore behind it where Rust keeps the word for itself.
pub open spec fn rust_name_of(sql_name: Seq<char>) -> Seq<char> {
    if reserved(sql_name) {
        sql_name + "_"@
    } else {
        sql_name
    }
}

/// Whether `name` is a word that Rust keeps for itself.
pub fn is_reserved(name: &str) -> (kept: bool)
    ensures
        kept == reserved(name@),
{
    str_eq(name, "abstract") || str_eq(name, "alignof") || str_eq(name, "as") ||
        str_eq(name, "become") || str_eq(name, "box") || str_eq(name, "break") ||
        str_eq(name, "const") || str_eq(name, "continue") || str_eq(name, "crate") ||
        str_eq(name, "do") || str_eq(name, "else") || str_eq(name, "enum") ||
        str_eq(name, "extern") || str_eq(name, "false") || str_eq(name, "final") ||
        str_eq(name, "fn") || str_eq(name, "for") || str_eq(name, "if") || str_eq(name, "impl") ||
        str_eq(name, "in") || str_eq(name, "let") || str_eq(name, "loop") ||
        str_eq(name, "macro") || str_eq(name, "match") || str_eq(name, "mod") ||
        str_eq(name, "move") || str_eq(name, "mut") || str_eq(name, "offsetof") ||
        str_eq(name, "override") || str_eq(name, "priv") || str_eq(name, "proc") ||
        str_eq(name, "pub") || str_eq(name, "pure") || str_eq(name, "ref") ||
        str_eq(name, "return") || str_eq(name, "Self") || str_eq(name, "self") ||
        str_eq(name, "sizeof") || str_eq(name, "static") || str_eq(name, "struct") ||
        str_eq(name, "super") || str_eq(name, "trait") || str_eq(name, "true") ||
        str_eq(name, "type") || str_eq(name, "typeof") || str_eq(name, "unsafe") ||
        str_eq(name, "unsized") || str_eq(name, "use") || str_eq(name, "virtual") ||
        str_eq(name, "where") || str_eq(name, "while") || str_eq(name, "yield")
}

/// The Rust name for the SQL name `sql_name`.
pub fn rust_name_for_sql_name(sql_name: &str) -> (rust_name: String)
    ensures
        rust_name@ == rust_name_of(sql_name@),
{
    if is_reserved(sql_name) {
        String::from_str(sql_name).concat("_")
    } else {
        String::from_str(sql_name)
    }
}

} // verus!
