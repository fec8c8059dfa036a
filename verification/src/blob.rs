//! The embedded-blob format: a key and its stored text glued into one string,
//! `<key><NUL><content>`, with the NUL code point as the delimiter.

use vstd::prelude::*;
use vstd::string::*;

verus! {

/// The code point that separates the fields of an embedded blob.
pub open spec fn delimiter() -> char {
    '\0'
}

/// The length of the first field of `s`: the number of characters that stand
/// before the first delimiter, or the whole length when there is none.
pub open spec fn field_len(s: Seq<char>) -> int
    decreases s.len(),
{
    if s.len() == 0 || s[0] == delimiter() {
        0
    } else {
        1 + field_len(s.skip(1))
    }
}

/// The key and the stored text that a blob holds: the first two fields of the
/// blob split at each delimiter. A blob without a delimiter holds neither.
pub open spec fn split_blob(blob: Seq<char>) -> Option<(Seq<char>, Seq<char>)> {
    let k = field_len(blob);
    if k == blob.len() {
        None
    } else {
        let rest = blob.skip(k + 1);
        Some((blob.take(k), rest.take(field_len(rest))))
    }
}

/// Whether a blob holds a key and a stored text.
pub open spec fn well_formed(blob: Seq<char>) -> bool {
    split_blob(blob) is Some
}

/// `field_len` is the position of the first delimiter: it lies within the
/// sequence, nothing before it is a delimiter, and it is either the end or a
/// delimiter.
pub proof fn lemma_field_len(s: Seq<char>)
    ensures
        0 <= field_len(s) <= s.len(),
        forall|i: int| 0 <= i < field_len(s) ==> s[i] != delimiter(),
        field_len(s) < s.len() ==> s[field_len(s)] == delimiter(),
    decreases s.len(),
{
    if s.len() == 0 || s[0] == delimiter() {
    } else {
        let t = s.skip(1);
        lemma_field_len(t);
        assert forall|i: int| 0 <= i < field_len(s) implies s[i] != delimiter() by {
            if i > 0 {
                assert(s[i] == t[i - 1]);
            }
        }
        if field_len(s) < s.len() {
            assert(s[field_len(s)] == t[field_len(t)]);
        }
    }
}

/// A position with no delimiter before it that is the end or a delimiter is
/// the length of the first field.
pub proof fn lemma_field_len_unique(s: Seq<char>, n: int)
    requires
        0 <= n <= s.len(),
        forall|i: int| 0 <= i < n ==> s[i] != delimiter(),
        n < s.len() ==> s[n] == delimiter(),
    ensures
        field_len(s) == n,
{
    lemma_field_len(s);
    let m = field_len(s);
    if m < n {
        assert(s[m] != delimiter());
    } else if n < m {
        assert(s[n] == delimiter());
    }
}

/// A blob glued together from a key without a delimiter, a delimiter and a
/// stored text splits back into that key and the first field of that text;
/// where the text holds no delimiter either, into the key and the text.
pub proof fn lemma_split_joined(key: Seq<char>, content: Seq<char>)
    requires
        !key.contains(delimiter()),
    ensures
        split_blob(key + seq![delimiter()] + content) == Some(
            (key, content.take(field_len(content))),
        ),
        !content.contains(delimiter()) ==> split_blob(key + seq![delimiter()] + content) == Some(
            (key, content),
        ),
{
    let blob = key + seq![delimiter()] + content;
    assert forall|i: int| 0 <= i < key.len() implies blob[i] != delimiter() by {
        assert(key.contains(blob[i]));
    }
    lemma_field_len_unique(blob, key.len() as int);
    assert(blob.take(key.len() as int) =~= key);
    assert(blob.skip(key.len() as int + 1) =~= content);
    lemma_field_len(content);
    if !content.contains(delimiter()) {
        if field_len(content) < content.len() {
            assert(content.contains(content[field_len(content)]));
        }
        assert(content.take(content.len() as int) =~= content);
    }
}

/// A blob holds a key and a stored text exactly when it holds a delimiter.
pub proof fn lemma_well_formed(blob: Seq<char>)
    ensures
        well_formed(blob) <==> blob.contains(delimiter()),
{
    lemma_field_len(blob);
    if blob.contains(delimiter()) {
        let i = choose|i: int| 0 <= i < blob.len() && blob[i] == delimiter();
        if field_len(blob) == blob.len() {
            assert(blob[i] != delimiter());
        }
    } else if field_len(blob) < blob.len() {
        assert(blob.contains(blob[field_len(blob)]));
    }
}

/// Counts the characters of `s` that stand before its first delimiter.
pub fn first_field_len(s: &str) -> (n: usize)
    ensures
        n == field_len(s@),
{
    let total = s.unicode_len();
    let mut n: usize = 0;
    for c in it: s.chars()
        invariant
            n == it.index(),
            it.seq() == s@,
            total == s@.len(),
            forall|i: int| 0 <= i < n ==> s@[i] != delimiter(),
    {
        if c == '\0' {
            proof {
                lemma_field_len_unique(s@, n as int);
            }
            return n;
        }
        n += 1;
    }
    proof {
        lemma_field_len_unique(s@, n as int);
    }
    n
}

/// Splits an embedded blob into its key and its stored text. The key is what
/// stands before the first delimiter; the stored text is what stands between
/// the first delimiter and the second, or the end; anything after a second
/// delimiter is ignored. A blob without a delimiter is malformed.
pub fn split_embedded(blob: &str) -> (parts: Option<(String, String)>)
    ensures
        parts is Some <==> well_formed(blob@),
        parts matches Some((key, content)) ==> split_blob(blob@) == Some((key@, content@)),
{
    let total = blob.unicode_len();
    let k = first_field_len(blob);
    proof {
        lemma_field_len(blob@);
    }
    if k == total {
        return None;
    }
    let key = blob.substring_char(0, k);
    let rest = blob.substring_char(k + 1, total);
    let c = first_field_len(rest);
    proof {
        lemma_field_len(rest@);
    }
    let content = rest.substring_char(0, c);
    Some((key.to_owned(), content.to_owned()))
}

} // verus!
