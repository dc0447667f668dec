//! Recognition of contract addresses in free-form text, one grammar per
//! chain family.
use vstd::prelude::*;
use crate::text::{
    ascii_alnum, base58_char, chars_of, ends_with_at, hex_digit, is_ascii_alnum, is_base58,
    is_hex_digit, is_white_space, has_suffix_at, lemma_word_end_bounds,
    unicode_white_space, word_end, word_end_of, word_start, word_start_of,
};

verus! {

/// A group of blockchains that share one address grammar.
#[derive(Clone, Copy, Debug, PartialEq, Eq, Structural)]
pub enum ChainFamily {
    Solana,
    Evm,
}

/// A base58 address of 32 to 44 characters.
pub open spec fn is_solana_address(w: Seq<char>) -> bool {
    32 <= w.len() <= 44 && forall|k: int| 0 <= k < w.len() ==> is_base58(#[trigger] w[k])
}

/// `0x` followed by exactly 40 hexadecimal digits.
pub open spec fn is_evm_address(w: Seq<char>) -> bool {
    w.len() == 42 && w[0] == '0' && w[1] == 'x' && forall|k: int|
        2 <= k < 42 ==> is_hex_digit(#[trigger] w[k])
}

pub open spec fn has_address_shape(f: ChainFamily, w: Seq<char>) -> bool {
    match f {
        ChainFamily::Solana => is_solana_address(w),
        ChainFamily::Evm => is_evm_address(w),
    }
}

/// A share link that names the token right after its path.
pub open spec fn share_link_before(f: ChainFamily, t: Seq<char>, i: int) -> bool {
    match f {
        ChainFamily::Solana => has_suffix_at(t, i, "https://gmgn.ai/sol/token/"@)
            || has_suffix_at(t, i, "https://jup.ag/tokens/"@),
        ChainFamily::Evm => has_suffix_at(t, i, "https://gmgn.ai/bsc/token/"@)
            || has_suffix_at(t, i, "https://gmgn.ai/base/token/"@),
    }
}

/// A share link whose path may carry a pool id of 4 to 10 letters or digits
/// and `_` before the token.
pub open spec fn pool_link_before(f: ChainFamily, t: Seq<char>, i: int) -> bool {
    match f {
        ChainFamily::Solana => has_suffix_at(t, i, "https://gmgn.ai/sol/token/"@),
        ChainFamily::Evm => has_suffix_at(t, i, "https://gmgn.ai/bsc/token/"@)
            || has_suffix_at(t, i, "https://gmgn.ai/base/token/"@),
    }
}

/// What may stand right before an address: the start of the text, a white
/// space (a line break among them), or a share link.
pub open spec fn lead_ok(f: ChainFamily, t: Seq<char>, i: int) -> bool {
    ||| i == 0
    ||| unicode_white_space(t[i - 1])
    ||| share_link_before(f, t, i)
    ||| (t[i - 1] == '_' && {
        let s = word_start(t, i - 1);
        4 <= i - 1 - s <= 10 && pool_link_before(f, t, s)
    })
}

/// An address of family `f` starts at `i`: a whole run of ASCII letters and
/// digits begins there, has the family's shape, and has an accepted lead.
pub open spec fn address_at(f: ChainFamily, t: Seq<char>, i: int) -> bool {
    &&& 0 <= i < t.len()
    &&& (i == 0 || !is_ascii_alnum(t[i - 1]))
    &&& has_address_shape(f, t.subrange(i, word_end(t, i)))
    &&& lead_ok(f, t, i)
}

/// Every address of family `f` from position `i` on, left to right.
pub open spec fn mentions_from(f: ChainFamily, t: Seq<char>, i: int) -> Seq<Seq<char>>
    decreases t.len() - i,
{
    if i < 0 || i >= t.len() {
        Seq::empty()
    } else if address_at(f, t, i) {
        seq![t.subrange(i, word_end(t, i))].add(mentions_from(f, t, i + 1))
    } else {
        mentions_from(f, t, i + 1)
    }
}

/// `s` with every repeated element dropped after its first appearance.
pub open spec fn first_occurrences<A>(s: Seq<A>) -> Seq<A>
    decreases s.len(),
{
    if s.len() == 0 {
        s
    } else {
        let d = first_occurrences(s.drop_last());
        if d.contains(s.last()) {
            d
        } else {
            d.push(s.last())
        }
    }
}

/// The distinct addresses of family `f` in `t`, in order of first appearance.
pub open spec fn addresses_in(f: ChainFamily, t: Seq<char>) -> Seq<Seq<char>> {
    first_occurrences(mentions_from(f, t, 0))
}

/// Extracts the addresses of one chain family from message texts.
pub struct AddressExtractor {
    pub family: ChainFamily,
}

/// The extractor for Solana-family addresses.
pub fn init_solana_token_ca_regex() -> (r: AddressExtractor)
    ensures
        r.family == ChainFamily::Solana,
{
    AddressExtractor { family: ChainFamily::Solana }
}

/// The extractor for EVM-family addresses.
pub fn init_evm_token_ca_regex() -> (r: AddressExtractor)
    ensures
        r.family == ChainFamily::Evm,
{
    AddressExtractor { family: ChainFamily::Evm }
}

impl AddressExtractor {
    pub fn extract(&self, text: &str) -> (r: Vec<String>)
        ensures
            r@.map_values(|s: String| s@) == addresses_in(self.family, text@),
    {
        extract_addresses(text, self.family)
    }
}

fn shape_ok(f: ChainFamily, t: &Vec<char>, i: usize, j: usize) -> (r: bool)
    requires
        i <= j <= t@.len(),
    ensures
        r == has_address_shape(f, t@.subrange(i as int, j as int)),
{
    let ghost w = t@.subrange(i as int, j as int);
    match f {
        ChainFamily::Solana => {
            if j - i < 32 || j - i > 44 {
                return false;
            }
            let mut k: usize = i;
            while k < j
                invariant
                    i <= k <= j <= t@.len(),
                    f == ChainFamily::Solana,
                    w == t@.subrange(i as int, j as int),
                    forall|m: int| 0 <= m < k - i ==> is_base58(#[trigger] w[m]),
                decreases j - k,
            {
                if !base58_char(t[k]) {
                    assert(w[(k - i) as int] == t@[k as int]);
                    assert(!is_base58(w[(k - i) as int]));
                    return false;
                }
                k += 1;
            }
            true
        },
        ChainFamily::Evm => {
            if j - i != 42 || t[i] != '0' || t[i + 1] != 'x' {
                return false;
            }
            let mut k: usize = i + 2;
            while k < j
                invariant
                    i + 2 <= k <= j <= t@.len(),
                    j == i + 42,
                    f == ChainFamily::Evm,
                    w == t@.subrange(i as int, j as int),
                    forall|m: int| 2 <= m < k - i ==> is_hex_digit(#[trigger] w[m]),
                decreases j - k,
            {
                if !hex_digit(t[k]) {
                    assert(w[(k - i) as int] == t@[k as int]);
                    assert(!is_hex_digit(w[(k - i) as int]));
                    return false;
                }
                k += 1;
            }
            true
        },
    }
}

fn share_link_ok(f: ChainFamily, t: &Vec<char>, i: usize) -> (r: bool)
    requires
        i <= t@.len(),
    ensures
        r == share_link_before(f, t@, i as int),
{
    match f {
        ChainFamily::Solana => ends_with_at(t, i, "https://gmgn.ai/sol/token/")
            || ends_with_at(t, i, "https://jup.ag/tokens/"),
        ChainFamily::Evm => ends_with_at(t, i, "https://gmgn.ai/bsc/token/")
            || ends_with_at(t, i, "https://gmgn.ai/base/token/"),
    }
}

fn pool_link_ok(f: ChainFamily, t: &Vec<char>, i: usize) -> (r: bool)
    requires
        i <= t@.len(),
    ensures
        r == pool_link_before(f, t@, i as int),
{
    match f {
        ChainFamily::Solana => ends_with_at(t, i, "https://gmgn.ai/sol/token/"),
        ChainFamily::Evm => ends_with_at(t, i, "https://gmgn.ai/bsc/token/")
            || ends_with_at(t, i, "https://gmgn.ai/base/token/"),
    }
}

fn lead_ok_at(f: ChainFamily, t: &Vec<char>, i: usize) -> (r: bool)
    requires
        i < t@.len(),
    ensures
        r == lead_ok(f, t@, i as int),
{
    if i == 0 {
        return true;
    }
    if is_white_space(t[i - 1]) || share_link_ok(f, t, i) {
        return true;
    }
    if t[i - 1] != '_' {
        return false;
    }
    let s: usize = word_start_of(t, i - 1);
    4 <= i - 1 - s && i - 1 - s <= 10 && pool_link_ok(f, t, s)
}

/// The distinct addresses of `family` in `text`, in order of first appearance.
pub fn extract_addresses(text: &str, family: ChainFamily) -> (r: Vec<String>)
    ensures
        r@.map_values(|s: String| s@) == addresses_in(family, text@),
{
    let t: Vec<char> = chars_of(text);
    let n: usize = t.len();
    let mut out: Vec<String> = Vec::new();
    let ghost mut seen: Seq<Seq<char>> = Seq::empty();
    let mut i: usize = 0;
    while i < n
        invariant
            n == t@.len(),
            t@ == text@,
            i <= n,
            mentions_from(family, t@, 0) == seen + mentions_from(family, t@, i as int),
            out@.map_values(|s: String| s@) == first_occurrences(seen),
        decreases n - i,
    {
        let ghost before = seen;
        let start_ok: bool = i == 0 || !ascii_alnum(t[i - 1]);
        let mut found: bool = false;
        if start_ok && ascii_alnum(t[i]) {
            let j: usize = word_end_of(&t, i);
            if shape_ok(family, &t, i, j) && lead_ok_at(family, &t, i) {
                found = true;
                let w: String = text.substring_char(i, j).to_owned();
                proof {
                    seen = seen.push(t@.subrange(i as int, j as int));
                }
                let mut k: usize = 0;
                let mut dup: bool = false;
                while k < out.len()
                    invariant
                        k <= out@.len(),
                        !dup ==> forall|m: int| 0 <= m < k ==> out@[m]@ != w@,
                        dup ==> exists|m: int| 0 <= m < out@.len() && out@[m]@ == w@,
                    decreases out@.len() - k,
                {
                    if out[k] == w {
                        dup = true;
                    }
                    k += 1;
                }
                let ghost d = out@.map_values(|s: String| s@);
                assert(d == first_occurrences(before));
                assert(seen.drop_last() =~= before);
                if dup {
                    let ghost m = choose|m: int| 0 <= m < out@.len() && out@[m]@ == w@;
                    assert(d[m] == w@);
                } else {
                    assert(!d.contains(w@)) by {
                        if d.contains(w@) {
                            let m = choose|m: int| 0 <= m < d.len() && d[m] == w@;
                            assert(out@[m]@ == w@);
                        }
                    }
                    out.push(w);
                    assert(out@.map_values(|s: String| s@) =~= d.push(w@));
                }
            }
        }
        proof {
            if !found {
                assert(!address_at(family, t@, i as int)) by {
                    if start_ok && is_ascii_alnum(t@[i as int]) {
                    } else if start_ok {
                        lemma_word_end_bounds(t@, i as int);
                        assert(word_end(t@, i as int) == i);
                        assert(t@.subrange(i as int, i as int).len() == 0);
                    }
                }
            }
            assert(mentions_from(family, t@, i as int) == (if found {
                seq![t@.subrange(i as int, word_end(t@, i as int))]
            } else {
                Seq::empty()
            }).add(mentions_from(family, t@, i + 1)));
            if found {
                assert(before + seq![t@.subrange(i as int, word_end(t@, i as int))]
                    =~= seen);
                assert((before + seq![t@.subrange(i as int, word_end(t@, i as int))]).add(
                    mentions_from(family, t@, i + 1),
                ) =~= before + mentions_from(family, t@, i as int));
            } else {
                assert(before + mentions_from(family, t@, i as int) =~= seen + mentions_from(
                    family,
                    t@,
                    i + 1,
                ));
            }
        }
        i += 1;
    }
    assert(seen + mentions_from(family, t@, n as int) =~= seen);
    out
}

proof fn lemma_mentions_have_shape(f: ChainFamily, t: Seq<char>, i: int)
    ensures
        forall|k: int|
            0 <= k < mentions_from(f, t, i).len() ==> has_address_shape(
                f,
                #[trigger] mentions_from(f, t, i)[k],
            ),
    decreases t.len() - i,
{
    if 0 <= i < t.len() {
        lemma_mentions_have_shape(f, t, i + 1);
        if address_at(f, t, i) {
            let rest = mentions_from(f, t, i + 1);
            let all = mentions_from(f, t, i);
            assert forall|k: int| 0 <= k < all.len() implies has_address_shape(f, #[trigger] all[k]) by {
                if k > 0 {
                    assert(all[k] == rest[k - 1]);
                }
            }
        }
    }
}

proof fn lemma_first_occurrences<A>(s: Seq<A>)
    ensures
        first_occurrences(s).no_duplicates(),
        forall|x: A| first_occurrences(s).contains(x) <==> s.contains(x),
    decreases s.len(),
{
    if s.len() > 0 {
        let p = s.drop_last();
        lemma_first_occurrences(p);
        let d = first_occurrences(p);
        assert forall|x: A| s.contains(x) <==> (p.contains(x) || x == s.last()) by {
            if s.contains(x) {
                let k = choose|k: int| 0 <= k < s.len() && s[k] == x;
                if k < s.len() - 1 {
                    assert(p[k] == x);
                }
            }
            if p.contains(x) {
                let k = choose|k: int| 0 <= k < p.len() && p[k] == x;
                assert(s[k] == x);
            }
            if x == s.last() {
                assert(s[s.len() - 1] == x);
            }
        }
        if !d.contains(s.last()) {
            let e = d.push(s.last());
            assert forall|x: A| e.contains(x) <==> (d.contains(x) || x == s.last()) by {
                if e.contains(x) {
                    let k = choose|k: int| 0 <= k < e.len() && e[k] == x;
                    if k < d.len() {
                        assert(d[k] == x);
                    }
                }
                if d.contains(x) {
                    let k = choose|k: int| 0 <= k < d.len() && d[k] == x;
                    assert(e[k] == x);
                }
                if x == s.last() {
                    assert(e[d.len() as int] == x);
                }
            }
            assert forall|a: int, b: int| 0 <= a < e.len() && 0 <= b < e.len() && a != b implies e[a]
                != e[b] by {
                if a == d.len() {
                    assert(d[b] == e[b]);
                } else if b == d.len() {
                    assert(d[a] == e[a]);
                }
            }
        }
    }
}

/// Every Solana-family address extracted from any text is 32 to 44
/// characters of the base58 alphabet, so none holds `0`, `O`, `I` or `l`.
pub proof fn lemma_solana_addresses_well_formed(t: Seq<char>)
    ensures
        forall|k: int|
            0 <= k < addresses_in(ChainFamily::Solana, t).len() ==> {
                let w = #[trigger] addresses_in(ChainFamily::Solana, t)[k];
                &&& 32 <= w.len() <= 44
                &&& forall|m: int|
                    0 <= m < w.len() ==> is_ascii_alnum(#[trigger] w[m]) && w[m] != '0' && w[m]
                        != 'O' && w[m] != 'I' && w[m] != 'l'
            },
{
    let all = mentions_from(ChainFamily::Solana, t, 0);
    lemma_mentions_have_shape(ChainFamily::Solana, t, 0);
    lemma_first_occurrences(all);
    let r = addresses_in(ChainFamily::Solana, t);
    assert forall|k: int| 0 <= k < r.len() implies is_solana_address(#[trigger] r[k]) by {
        assert(first_occurrences(all).contains(r[k]));
        assert(all.contains(r[k]));
        let m = choose|m: int| 0 <= m < all.len() && all[m] == r[k];
        assert(has_address_shape(ChainFamily::Solana, all[m]));
    }
}

/// Every EVM-family address extracted from any text is `0x` followed by
/// exactly 40 hexadecimal digits.
pub proof fn lemma_evm_addresses_well_formed(t: Seq<char>)
    ensures
        forall|k: int|
            0 <= k < addresses_in(ChainFamily::Evm, t).len() ==> {
                let w = #[trigger] addresses_in(ChainFamily::Evm, t)[k];
                &&& w.len() == 42
                &&& w[0] == '0' && w[1] == 'x'
                &&& forall|m: int| 2 <= m < 42 ==> is_hex_digit(#[trigger] w[m])
            },
{
    let all = mentions_from(ChainFamily::Evm, t, 0);
    lemma_mentions_have_shape(ChainFamily::Evm, t, 0);
    lemma_first_occurrences(all);
    let r = addresses_in(ChainFamily::Evm, t);
    assert forall|k: int| 0 <= k < r.len() implies is_evm_address(#[trigger] r[k]) by {
        assert(first_occurrences(all).contains(r[k]));
        assert(all.contains(r[k]));
        let m = choose|m: int| 0 <= m < all.len() && all[m] == r[k];
        assert(has_address_shape(ChainFamily::Evm, all[m]));
    }
}

/// An address mentioned any number of times in a text is extracted exactly
/// once: the result has no repeats and holds each mentioned address.
pub proof fn lemma_addresses_distinct(f: ChainFamily, t: Seq<char>)
    ensures
        addresses_in(f, t).no_duplicates(),
        forall|w: Seq<char>|
            addresses_in(f, t).contains(w) <==> mentions_from(f, t, 0).contains(w),
{
    lemma_first_occurrences(mentions_from(f, t, 0));
}

} // verus!
