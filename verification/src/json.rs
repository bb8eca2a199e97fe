//! JSON text made with `serde_json`.

use vstd::prelude::*;

verus! {

/// The lowercase hexadecimal digit for `n`, where `n < 16`.
pub open spec fn hex_digit(n: int) -> char {
    if n < 10 {
        (n + 48) as char
    } else {
        (n + 87) as char
    }
}

/// How a JSON string literal writes the character `c`: a quote and a
/// backslash are preceded by a backslash, the control characters that JSON
/// names are written `\b`, `\t`, `\n`, `\f`, `\r`, the other characters
/// below U+0020 as `\u00` and two lowercase hexadecimal digits, and every
/// other character as itself.
pub open spec fn json_char_escape(c: char) -> Seq<char> {
    let n = c as int;
    if c == '"' {
        seq!['\\', '"']
    } else if c == '\\' {
        seq!['\\', '\\']
    } else if n == 8 {
        seq!['\\', 'b']
    } else if n == 9 {
        seq!['\\', 't']
    } else if n == 10 {
        seq!['\\', 'n']
    } else if n == 12 {
        seq!['\\', 'f']
    } else if n == 13 {
        seq!['\\', 'r']
    } else if n < 32 {
        seq!['\\', 'u', '0', '0', hex_digit(n / 16), hex_digit(n % 16)]
    } else {
        seq![c]
    }
}

/// The characters of `s`, each written as a JSON string literal writes it.
pub open spec fn json_escaped(s: Seq<char>) -> Seq<char>
    decreases s.len(),
{
    if s.len() == 0 {
        Seq::empty()
    } else {
        json_escaped(s.drop_last()) + json_char_escape(s.last())
    }
}

/// `s` as a JSON string literal.
pub open spec fn json_string(s: Seq<char>) -> Seq<char> {
    seq!['"'] + json_escaped(s) + seq!['"']
}

/// A pretty-printed JSON object with the single string member `name: value`:
/// the opening brace, a line holding the member indented by two spaces,
/// and the closing brace on a line of its own.
pub open spec fn pretty_single_entry_object(name: Seq<char>, value: Seq<char>) -> Seq<char> {
    seq!['{', '\n', ' ', ' '] + json_string(name) + seq![':', ' '] + json_string(value) + seq![
        '\n',
        '}',
    ]
}

/// A string that JSON writes as itself: no quote, no backslash and no
/// character below U+0020.
pub open spec fn is_json_plain(s: Seq<char>) -> bool {
    forall|i: int| 0 <= i < s.len() ==> s[i] != '"' && s[i] != '\\' && (s[i] as int) >= 32
}

/// A string without quotes, backslashes and control characters is written
/// inside a JSON string literal unchanged.
pub proof fn lemma_json_escaped_plain(s: Seq<char>)
    requires
        is_json_plain(s),
    ensures
        json_escaped(s) == s,
    decreases s.len(),
{
    if s.len() > 0 {
        let init = s.drop_last();
        assert(is_json_plain(init)) by {
            assert forall|i: int| 0 <= i < init.len() implies init[i] != '"' && init[i] != '\\'
                && (init[i] as int) >= 32 by {
                assert(init[i] == s[i]);
            }
        }
        lemma_json_escaped_plain(init);
        assert(s.last() == s[s.len() - 1]);
        assert(init + seq![s.last()] =~= s);
    }
}

/// Calls `serde_json::to_string_pretty` on the JSON object `{name: value}`,
/// both strings. Claimed, as `serde_json`'s `PrettyFormatter` and its escape
/// table write it: the text is `{`, a newline, two spaces, the quoted and
/// escaped name, `: `, the quoted and escaped value, a newline and `}`.
/// `serde_json` reports an error only for a failing `Serialize` impl or a
/// map key that is not a string, neither of which this object has, and
/// writing into memory does not fail; so the empty string that the body
/// puts in place of an error does not come back.
#[verifier::external_body]
pub fn to_pretty_json_single_entry(name: &str, value: &str) -> (r: String)
    ensures
        r@ == pretty_single_entry_object(name@, value@),
{
    let mut object = serde_json::Map::new();
    object.insert(name.to_string(), serde_json::Value::String(value.to_string()));
    serde_json::to_string_pretty(&serde_json::Value::Object(object)).unwrap_or_default()
}

} // verus!
