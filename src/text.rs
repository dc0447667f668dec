//! Character classes and small helpers over the characters of a text.
use vstd::prelude::*;

verus! {

/// Unicode's White_Space property, as PropList.txt lists it: the ASCII
/// tab, line feed, vertical tab, form feed, carriage return and space, the
/// next line and no-break space, the Ogham space mark, the spaces from
/// en quad to hair space, the line and paragraph separators, the narrow
/// no-break space, the medium mathematical space and the ideographic space.
pub open spec fn unicode_white_space(c: char) -> bool {
    let u = c as u32;
    ||| 0x9 <= u <= 0xD
    ||| u == 0x20
    ||| u == 0x85
    ||| u == 0xA0
    ||| u == 0x1680
    ||| 0x2000 <= u <= 0x200A
    ||| u == 0x2028
    ||| u == 0x2029
    ||| u == 0x202F
    ||| u == 0x205F
    ||| u == 0x3000
}

/// Relies on `char::is_whitespace`, which reports Unicode's White_Space
/// property.
#[verifier::external_body]
pub(crate) fn is_white_space(c: char) -> (r: bool)
    ensures
        r == unicode_white_space(c),
{
    c.is_whitespace()
}

pub open spec fn is_ascii_alnum(c: char) -> bool {
    ('0' <= c && c <= '9') || ('a' <= c && c <= 'z') || ('A' <= c && c <= 'Z')
}

/// The base58 alphabet: ASCII letters and digits without `0`, `O`, `I` and `l`.
pub open spec fn is_base58(c: char) -> bool {
    is_ascii_alnum(c) && c != '0' && c != 'O' && c != 'I' && c != 'l'
}

pub open spec fn is_hex_digit(c: char) -> bool {
    ('0' <= c && c <= '9') || ('a' <= c && c <= 'f') || ('A' <= c && c <= 'F')
}

pub fn ascii_alnum(c: char) -> (r: bool)
    ensures
        r == is_ascii_alnum(c),
{
    ('0' <= c && c <= '9') || ('a' <= c && c <= 'z') || ('A' <= c && c <= 'Z')
}

pub fn base58_char(c: char) -> (r: bool)
    ensures
        r == is_base58(c),
{
    ascii_alnum(c) && c != '0' && c != 'O' && c != 'I' && c != 'l'
}

pub fn hex_digit(c: char) -> (r: bool)
    ensures
        r == is_hex_digit(c),
{
    ('0' <= c && c <= '9') || ('a' <= c && c <= 'f') || ('A' <= c && c <= 'F')
}

/// The characters of `s`, one by one.
pub fn chars_of(s: &str) -> (r: Vec<char>)
    ensures
        r@ == s@,
{
    let mut out: Vec<char> = Vec::new();
    for c in it: s.chars()
        invariant
            it.seq() == s@,
            out@ == it.seq().subrange(0, it.index() as int),
    {
        out.push(c);
    }
    out
}

/// `t` holds `p` just before position `i`.
pub open spec fn has_suffix_at(t: Seq<char>, i: int, p: Seq<char>) -> bool {
    p.len() <= i <= t.len() && t.subrange(i - p.len(), i) == p
}

pub fn ends_with_at(t: &Vec<char>, i: usize, p: &str) -> (r: bool)
    requires
        i <= t@.len(),
    ensures
        r == has_suffix_at(t@, i as int, p@),
{
    let n: usize = p.unicode_len();
    if n > i {
        return false;
    }
    let start: usize = i - n;
    let mut k: usize = 0;
    while k < n
        invariant
            n == p@.len(),
            start + n == i,
            i <= t@.len(),
            k <= n,
            forall|m: int| 0 <= m < k ==> t@[start + m] == p@[m],
        decreases n - k,
    {
        if t[start + k] != p.get_char(k) {
            assert(t@.subrange(start as int, i as int)[k as int] != p@[k as int]);
            return false;
        }
        k += 1;
    }
    assert(t@.subrange(start as int, i as int) =~= p@);
    true
}

/// End of the run of ASCII letters and digits that starts at `i`.
pub open spec fn word_end(t: Seq<char>, i: int) -> int
    decreases t.len() - i,
{
    if 0 <= i < t.len() && is_ascii_alnum(t[i]) {
        word_end(t, i + 1)
    } else {
        i
    }
}

/// Start of the run of ASCII letters and digits that ends at `j`.
pub open spec fn word_start(t: Seq<char>, j: int) -> int
    decreases j,
{
    if 0 < j <= t.len() && is_ascii_alnum(t[j - 1]) {
        word_start(t, j - 1)
    } else {
        j
    }
}

pub proof fn lemma_word_end_bounds(t: Seq<char>, i: int)
    requires
        0 <= i <= t.len(),
    ensures
        i <= word_end(t, i) <= t.len(),
        forall|k: int| i <= k < word_end(t, i) ==> is_ascii_alnum(#[trigger] t[k]),
    decreases t.len() - i,
{
    if i < t.len() && is_ascii_alnum(t[i]) {
        lemma_word_end_bounds(t, i + 1);
    }
}

pub fn word_end_of(t: &Vec<char>, i: usize) -> (j: usize)
    requires
        i <= t@.len(),
    ensures
        j == word_end(t@, i as int),
        i <= j <= t@.len(),
{
    let mut j: usize = i;
    while j < t.len() && ascii_alnum(t[j])
        invariant
            i <= j <= t@.len(),
            word_end(t@, j as int) == word_end(t@, i as int),
        decreases t@.len() - j,
    {
        j += 1;
    }
    j
}

pub fn word_start_of(t: &Vec<char>, j: usize) -> (s: usize)
    requires
        j <= t@.len(),
    ensures
        s == word_start(t@, j as int),
        s <= j,
{
    let mut s: usize = j;
    while s > 0 && ascii_alnum(t[s - 1])
        invariant
            s <= j <= t@.len(),
            word_start(t@, s as int) == word_start(t@, j as int),
        decreases s,
    {
        s -= 1;
    }
    s
}

} // verus!
