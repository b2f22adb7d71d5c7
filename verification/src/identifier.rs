//! Validation of the schema and object names that go into catalog
//! queries and maintenance statements.

use vstd::prelude::*;
use vstd::string::*;

verus! {

/// A character allowed in a schema or object name: an ASCII letter or
/// digit, `_` or `-`.
pub open spec fn is_name_char(c: char) -> bool {
    let v = c as u32;
    ||| 0x30 <= v <= 0x39
    ||| 0x41 <= v <= 0x5a
    ||| 0x61 <= v <= 0x7a
    ||| c == '_'
    ||| c == '-'
}

/// A valid schema or object name: not empty, and only allowed characters.
pub open spec fn is_valid_name(s: Seq<char>) -> bool {
    s.len() > 0 && forall|i: int| 0 <= i < s.len() ==> is_name_char(#[trigger] s[i])
}

/// Whether `c` may appear in a schema or object name.
pub fn is_name_character(c: char) -> (r: bool)
    ensures
        r == is_name_char(c),
{
    let v = c as u32;
    (0x30 <= v && v <= 0x39) || (0x41 <= v && v <= 0x5a) || (0x61 <= v && v <= 0x7a) || c == '_'
        || c == '-'
}

/// Whether `s` is a non-empty name of ASCII letters, digits, `_` and `-`.
pub fn is_valid_object_name(s: &str) -> (r: bool)
    ensures
        r == is_valid_name(s@),
{
    let mut ok = true;
    for c in it: s.chars()
        invariant
            it.seq() == s@,
            ok == forall|k: int| 0 <= k < it.index() ==> is_name_char(#[trigger] s@[k]),
    {
        if !is_name_character(c) {
            ok = false;
        }
    }
    ok && !s.is_empty()
}

/// A schema or object name that was refused; it holds the refused text.
pub enum NameError {
    /// The schema name is empty or holds a character that is not allowed.
    IllegalSchema(String),
    /// The object name is empty or holds a character that is not allowed.
    IllegalName(String),
}

/// The message for a refused schema name.
pub open spec fn schema_message(s: Seq<char>) -> Seq<char> {
    "Illegal character in tabschema "@ + s
        + " (only ASCII alphanumerics, '_', '-', allowed): Aborting."@
}

/// The message for a refused object name.
pub open spec fn name_message(s: Seq<char>) -> Seq<char> {
    "Illegal character in tabname "@ + s
        + " (only ASCII alphanumerics, '_', '-', allowed). Aborting."@
}

impl NameError {
    /// The message that reports the refusal.
    pub fn message(&self) -> (r: String)
        ensures
            self matches NameError::IllegalSchema(s) ==> r@ == schema_message(s@),
            self matches NameError::IllegalName(s) ==> r@ == name_message(s@),
    {
        match self {
            NameError::IllegalSchema(s) => {
                let mut r = "Illegal character in tabschema ".to_owned();
                r.append(s.as_str());
                r.append(" (only ASCII alphanumerics, '_', '-', allowed): Aborting.");
                r
            },
            NameError::IllegalName(s) => {
                let mut r = "Illegal character in tabname ".to_owned();
                r.append(s.as_str());
                r.append(" (only ASCII alphanumerics, '_', '-', allowed). Aborting.");
                r
            },
        }
    }
}

/// Checks a schema name and then an object name; the first that is not
/// valid is refused.
pub fn check_object_names(schema: &str, name: &str) -> (r: Result<(), NameError>)
    ensures
        r is Ok <==> is_valid_name(schema@) && is_valid_name(name@),
        !is_valid_name(schema@) ==> (r matches Err(NameError::IllegalSchema(s)) && s@ == schema@),
        is_valid_name(schema@) && !is_valid_name(name@) ==> (r matches Err(
            NameError::IllegalName(s),
        ) && s@ == name@),
{
    if !is_valid_object_name(schema) {
        return Err(NameError::IllegalSchema(schema.to_owned()));
    }
    if !is_valid_object_name(name) {
        return Err(NameError::IllegalName(name.to_owned()));
    }
    Ok(())
}

/// The characters allowed in names are exactly the ASCII digits `0`-`9`,
/// the ASCII letters `a`-`z` and `A`-`Z`, `_` and `-`.
pub proof fn name_characters_are_ascii_alphanumerics_underscore_dash(c: char)
    ensures
        is_name_char(c) <==> (('0' <= c && c <= '9') || ('a' <= c && c <= 'z') || ('A' <= c
            && c <= 'Z') || c == '_' || c == '-'),
{
}

/// Any one allowed character is a valid name, and a valid name stays
/// valid when an allowed character is appended: names have no length
/// limit.
pub proof fn valid_names_have_no_length_limit(s: Seq<char>, c: char)
    requires
        ('0' <= c && c <= '9') || ('a' <= c && c <= 'z') || ('A' <= c && c <= 'Z') || c == '_'
            || c == '-',
    ensures
        is_valid_name(seq![c]),
        is_valid_name(s) ==> is_valid_name(s.push(c)),
{
    assert(seq![c][0] == c);
    if is_valid_name(s) {
        assert forall|i: int| 0 <= i < s.push(c).len() implies is_name_char(#[trigger] s.push(c)[i]) by {
            if i < s.len() {
                assert(s.push(c)[i] == s[i]);
            }
        }
    }
}

/// Two valid names joined, directly or around `_` or `-`, make a valid
/// name; the empty text is not one.
pub proof fn valid_names_concatenate(a: Seq<char>, b: Seq<char>)
    requires
        is_valid_name(a),
        is_valid_name(b),
    ensures
        is_valid_name(a + b),
        is_valid_name(a + seq!['_'] + b),
        is_valid_name(a + seq!['-'] + b),
        !is_valid_name(Seq::<char>::empty()),
{
    assert forall|i: int| 0 <= i < (a + b).len() implies is_name_char(#[trigger] (a + b)[i]) by {
        if i < a.len() {
            assert((a + b)[i] == a[i]);
        } else {
            assert((a + b)[i] == b[i - a.len()]);
        }
    }
    let u = a + seq!['_'] + b;
    assert forall|i: int| 0 <= i < u.len() implies is_name_char(#[trigger] u[i]) by {
        if i < a.len() {
            assert(u[i] == a[i]);
        } else if i > a.len() {
            assert(u[i] == b[i - a.len() - 1]);
        }
    }
    let d = a + seq!['-'] + b;
    assert forall|i: int| 0 <= i < d.len() implies is_name_char(#[trigger] d[i]) by {
        if i < a.len() {
            assert(d[i] == a[i]);
        } else if i > a.len() {
            assert(d[i] == b[i - a.len() - 1]);
        }
    }
}

} // verus!
