//! Log-safe rendering of DSN and ODBC connection strings.

use vstd::prelude::*;
use vstd::string::*;
use crate::text::{
    lemma_index_of, lemma_index_of_props, lemma_join_chars, lemma_join_split, lemma_split_chars,
    lemma_split_join, lemma_split_pieces, lemma_trim_chars, lemma_trim_idempotent, chars_equal, chars_of, contains_char, find_char, index_of, join_chars, join_with, split_chars, split_on,
    trim, trim_range, views,
};
use crate::conversions::{string_from_chars, to_uppercase, uppercase_of};

verus! {

/// The upper-cased keys whose values are credentials.
pub open spec fn is_credential_key_text(k: Seq<char>) -> bool {
    ||| k == seq!['P', 'W', 'D']
    ||| k == seq!['P', 'A', 'S', 'S', 'W', 'O', 'R', 'D']
    ||| k == seq!['U', 'I', 'D']
    ||| k == seq!['U', 'S', 'E', 'R']
}

/// The key of a `key=value` item: the trimmed text before its first `=`.
pub open spec fn item_key(item: Seq<char>) -> Seq<char> {
    trim(item.take(index_of(item, '=')))
}

/// Whether a `key=value` item carries a credential.
pub open spec fn is_credential_item(item: Seq<char>) -> bool {
    index_of(item, '=') < item.len() && is_credential_key_text(uppercase_of(item_key(item)))
}

/// One `;`-separated item, redacted: a credential item becomes its trimmed
/// key followed by `=***`; every other item is kept as it is.
pub open spec fn redact_item(item: Seq<char>) -> Seq<char> {
    if is_credential_item(item) {
        item_key(item) + seq!['=', '*', '*', '*']
    } else {
        item
    }
}

/// Each item redacted.
pub open spec fn redact_items(items: Seq<Seq<char>>) -> Seq<Seq<char>> {
    items.map_values(|item: Seq<char>| redact_item(item))
}

/// The redacted DSN: a plain DSN (no `=`) is kept; a connection string
/// is split on `;`, each item redacted, and the items joined with `;`.
pub open spec fn redacted_dsn(dsn: Seq<char>) -> Seq<char> {
    if !dsn.contains('=') {
        dsn
    } else {
        join_with(redact_items(split_on(dsn, ';')), ';')
    }
}

/// Whether an upper-cased key names a credential: `PWD`, `PASSWORD`,
/// `UID` or `USER`.
pub fn is_credential_key(upper: &str) -> (r: bool)
    ensures
        r == is_credential_key_text(upper@),
{
    let v = chars_of(upper);
    let pwd: [char; 3] = ['P', 'W', 'D'];
    let password: [char; 8] = ['P', 'A', 'S', 'S', 'W', 'O', 'R', 'D'];
    let uid: [char; 3] = ['U', 'I', 'D'];
    let user: [char; 4] = ['U', 'S', 'E', 'R'];
    assert(pwd@ =~= seq!['P', 'W', 'D']);
    assert(password@ =~= seq!['P', 'A', 'S', 'S', 'W', 'O', 'R', 'D']);
    assert(uid@ =~= seq!['U', 'I', 'D']);
    assert(user@ =~= seq!['U', 'S', 'E', 'R']);
    chars_equal(&v, &pwd) || chars_equal(&v, &password) || chars_equal(&v, &uid) || chars_equal(
        &v,
        &user,
    )
}

/// One `;`-separated item, redacted.
fn redact_one(item: &Vec<char>) -> (r: Vec<char>)
    ensures
        r@ == redact_item(item@),
{
    let i = find_char(item, '=');
    if i < item.len() {
        let key = trim_range(item, 0, i);
        assert(item@.subrange(0, i as int) =~= item@.take(i as int));
        let key_text = string_from_chars(&key);
        let upper = to_uppercase(key_text.as_str());
        if is_credential_key(upper.as_str()) {
            let mut r = key;
            r.push('=');
            r.push('*');
            r.push('*');
            r.push('*');
            assert(r@ =~= item_key(item@) + seq!['=', '*', '*', '*']);
            return r;
        }
    }
    item.clone()
}

/// Returns a copy of `dsn` that is safe to write to logs. A plain named
/// DSN comes back unchanged; in a `key=value;...` connection string the
/// value of every `PWD`, `PASSWORD`, `UID` and `USER` item (keys compared
/// after trimming and upper-casing) is replaced by `***`, and the key is
/// written trimmed.
pub fn redact_dsn(dsn: &str) -> (r: String)
    ensures
        r@ == redacted_dsn(dsn@),
{
    let cs = chars_of(dsn);
    if !contains_char(&cs, '=') {
        return dsn.to_owned();
    }
    let items = split_chars(&cs, ';');
    let mut out: Vec<Vec<char>> = Vec::new();
    let n = items.len();
    for i in 0..n
        invariant
            n == items@.len(),
            out@.len() == i,
            forall|k: int| 0 <= k < i ==> (#[trigger] out@[k])@ == redact_item(items@[k]@),
    {
        out.push(redact_one(&items[i]));
    }
    assert(views(out@) =~= redact_items(views(items@)));
    let joined = join_chars(&out, ';');
    string_from_chars(&joined)
}

/// The message of a failed connection attempt, naming the redacted DSN.
pub fn connect_failure_message(dsn: &str) -> (r: String)
    ensures
        r@ == "Failed to connect to DB2 (DSN: "@ + redacted_dsn(dsn@) + ")"@,
{
    let mut r = "Failed to connect to DB2 (DSN: ".to_owned();
    let red = redact_dsn(dsn);
    r.append(red.as_str());
    r.append(")");
    r
}


/// What redaction does to one item that holds no `;`.
proof fn lemma_redact_item(p: Seq<char>)
    requires
        !p.contains(';'),
    ensures
        !redact_item(p).contains(';'),
        p.contains('=') ==> redact_item(p).contains('='),
        redact_item(redact_item(p)) == redact_item(p),
        is_credential_item(redact_item(p)) ==> redact_item(p).skip(
            index_of(redact_item(p), '=') + 1,
        ) == seq!['*', '*', '*'],
{
    let j = index_of(p, '=');
    lemma_index_of_props(p, '=');
    if is_credential_item(p) {
        let key = item_key(p);
        let rp = key + seq!['=', '*', '*', '*'];
        assert(redact_item(p) == rp);
        assert forall|c: char| key.contains(c) implies p.take(j).contains(c) && p.contains(c) by {
            lemma_trim_chars(p.take(j), c);
            let k = choose|k: int| 0 <= k < p.take(j).len() && p.take(j)[k] == c;
            assert(p[k] == c);
        }
        assert(!key.contains('=')) by {
            if key.contains('=') {
                let k = choose|k: int| 0 <= k < p.take(j).len() && p.take(j)[k] == '=';
                assert(p[k] == '=');
            }
        }
        assert(!rp.contains(';')) by {
            if rp.contains(';') {
                let k = choose|k: int| 0 <= k < rp.len() && rp[k] == ';';
                if k < key.len() {
                    assert(key[k] == ';');
                    assert(key.contains(';'));
                }
            }
        }
        assert(rp[key.len() as int] == '=');
        assert forall|k: int| 0 <= k < key.len() implies rp[k] != '=' by {
            assert(rp[k] == key[k]);
            if key[k] == '=' {
                assert(key.contains('='));
            }
        }
        lemma_index_of(rp, '=', key.len() as int);
        assert(rp.take(key.len() as int) =~= key);
        lemma_trim_idempotent(p.take(j));
        assert(item_key(rp) == key);
        assert(is_credential_item(rp));
        assert(rp.skip(key.len() as int + 1) =~= seq!['*', '*', '*']);
    }
}

/// A DSN without `=` is a plain named DSN: redaction keeps it as it is.
pub proof fn plain_dsn_is_kept(dsn: Seq<char>)
    requires
        !dsn.contains('='),
    ensures
        redacted_dsn(dsn) == dsn,
{
}

/// The items of a connection string whose `=` separates a credential key.
proof fn lemma_redacted_items(dsn: Seq<char>)
    requires
        dsn.contains('='),
    ensures
        split_on(redacted_dsn(dsn), ';') == redact_items(split_on(dsn, ';')),
        redacted_dsn(dsn).contains('='),
        forall|k: int| 0 <= k < split_on(dsn, ';').len() ==> !(#[trigger] split_on(dsn, ';')[k]).contains(';'),
{
    let items = split_on(dsn, ';');
    let red = redact_items(items);
    lemma_split_pieces(dsn, ';');
    assert forall|k: int| 0 <= k < red.len() implies !(#[trigger] red[k]).contains(';') by {
        lemma_redact_item(items[k]);
    }
    lemma_split_join(red, ';');
    lemma_join_split(dsn, ';');
    lemma_join_chars(items, ';', '=');
    let i = choose|i: int| 0 <= i < items.len() && (#[trigger] items[i]).contains('=');
    lemma_redact_item(items[i]);
    assert(red[i].contains('='));
    lemma_join_chars(red, ';', '=');
}

/// Redaction masks every credential: in the redacted text, each item whose
/// trimmed, upper-cased key is `PWD`, `PASSWORD`, `UID` or `USER` has the
/// value `***`, whatever the value was before.
pub proof fn credentials_are_masked(dsn: Seq<char>, i: int)
    requires
        0 <= i < split_on(redacted_dsn(dsn), ';').len(),
        is_credential_item(split_on(redacted_dsn(dsn), ';')[i]),
    ensures
        ({
            let item = split_on(redacted_dsn(dsn), ';')[i];
            item.skip(index_of(item, '=') + 1) == seq!['*', '*', '*']
        }),
{
    let item = split_on(redacted_dsn(dsn), ';')[i];
    if !dsn.contains('=') {
        lemma_index_of_props(item, '=');
        assert(item.contains('='));
        lemma_split_chars(dsn, ';', i, '=');
        assert(false);
    } else {
        lemma_redacted_items(dsn);
        let p = split_on(dsn, ';')[i];
        lemma_redact_item(p);
        lemma_index_of_props(p, '=');
        assert(item == redact_item(p));
    }
}

/// Redaction keeps the items of a DSN in place, one output item for each
/// input item; an item whose trimmed, upper-cased key (the text before its
/// first `=`) is not `PWD`, `PASSWORD`, `UID` or `USER` (such as
/// `DATABASE` or `HOSTNAME`), or that has no `=`, comes out verbatim.
pub proof fn other_items_are_kept(dsn: Seq<char>, i: int)
    requires
        0 <= i < split_on(dsn, ';').len(),
        ({
            let item = split_on(dsn, ';')[i];
({
                let k = uppercase_of(trim(item.take(index_of(item, '='))));
                k != seq!['P', 'W', 'D'] && k != seq!['P', 'A', 'S', 'S', 'W', 'O', 'R', 'D'] && k
                    != seq!['U', 'I', 'D'] && k != seq!['U', 'S', 'E', 'R']
            })
                || index_of(item, '=') == item.len()
        }),
    ensures
        split_on(redacted_dsn(dsn), ';').len() == split_on(dsn, ';').len(),
        split_on(redacted_dsn(dsn), ';')[i] == split_on(dsn, ';')[i],
{
    if dsn.contains('=') {
        lemma_redacted_items(dsn);
    }
}

/// An item whose trimmed, upper-cased key is `PWD`, `PASSWORD`, `UID` or
/// `USER` comes out, in its place, as the trimmed key followed by `=***`.
pub proof fn listed_credentials_are_masked(dsn: Seq<char>, i: int)
    requires
        0 <= i < split_on(dsn, ';').len(),
        ({
            let item = split_on(dsn, ';')[i];
            let k = uppercase_of(trim(item.take(index_of(item, '='))));
            &&& index_of(item, '=') < item.len()
            &&& (k == seq!['P', 'W', 'D'] || k == seq!['P', 'A', 'S', 'S', 'W', 'O', 'R', 'D'] || k
                == seq!['U', 'I', 'D'] || k == seq!['U', 'S', 'E', 'R'])
        }),
    ensures
        ({
            let item = split_on(dsn, ';')[i];
            split_on(redacted_dsn(dsn), ';')[i] == trim(item.take(index_of(item, '=')))
                + seq!['=', '*', '*', '*']
        }),
{
    let item = split_on(dsn, ';')[i];
    lemma_index_of_props(item, '=');
    assert(item.contains('='));
    lemma_split_chars(dsn, ';', i, '=');
    lemma_redacted_items(dsn);
}

/// Redacting a redacted DSN changes nothing.
pub proof fn redaction_is_idempotent(dsn: Seq<char>)
    ensures
        redacted_dsn(redacted_dsn(dsn)) == redacted_dsn(dsn),
{
    if dsn.contains('=') {
        lemma_redacted_items(dsn);
        let items = split_on(dsn, ';');
        let red = redact_items(items);
        assert forall|k: int| 0 <= k < red.len() implies redact_item(#[trigger] red[k]) == red[k] by {
            lemma_redact_item(items[k]);
        }
        assert(redact_items(red) =~= red);
        lemma_split_pieces(redacted_dsn(dsn), ';');
        lemma_split_join(red, ';');
    }
}

} // verus!
