//! Token metadata as the providers report it, and the links and labels
//! derived from it.
use vstd::prelude::*;
use crate::amount::{format_human_readable, human_readable, Amount};
use crate::text::{is_white_space, unicode_white_space};

verus! {

/// A concrete EVM chain that lookups can target.
#[derive(Clone, Copy, Debug, PartialEq, Eq, Structural)]
pub enum Chain {
    Bsc,
    Base,
}

/// Why one provider lookup gave no metadata.
#[derive(Clone, Copy, Debug, PartialEq, Eq, Structural)]
pub enum LookupFailure {
    /// The provider does not know the address, on the chain asked.
    NotFound,
    /// The request failed or its answer could not be read.
    Transport,
}

/// The chain's path segment in gmgn, defined.fi and pancakeswap links and
/// in metadata queries.
pub open spec fn chain_slug(c: Chain) -> Seq<char> {
    match c {
        Chain::Bsc => "bsc"@,
        Chain::Base => "base"@,
    }
}

/// The chain's name in dextools and uniswap links.
pub open spec fn chain_dex_slug(c: Chain) -> Seq<char> {
    match c {
        Chain::Bsc => "bnb"@,
        Chain::Base => "base"@,
    }
}

pub open spec fn chain_label(c: Chain) -> Seq<char> {
    match c {
        Chain::Bsc => "BSC"@,
        Chain::Base => "BASE"@,
    }
}

pub open spec fn usdt_address(c: Chain) -> Seq<char> {
    match c {
        Chain::Bsc => "0x55d398326f99059ff775485246999027b3197955"@,
        Chain::Base => "0xfde4c96c8593536e31f229ea8f37b2ada2699bb2"@,
    }
}

pub open spec fn usdc_address(c: Chain) -> Seq<char> {
    match c {
        Chain::Bsc => "0x8ac76a51cc950d9822d68b83fe1ad97b32cd580d"@,
        Chain::Base => "0x833589fCD6eDb6E08f4c7C32D4f71b54bdA02913"@,
    }
}

pub fn slug_of(c: Chain) -> (r: &'static str)
    ensures
        r@ == chain_slug(c),
{
    match c {
        Chain::Bsc => "bsc",
        Chain::Base => "base",
    }
}

fn dex_slug_of(c: Chain) -> (r: &'static str)
    ensures
        r@ == chain_dex_slug(c),
{
    match c {
        Chain::Bsc => "bnb",
        Chain::Base => "base",
    }
}

/// The placeholder shown where the provider reports no market cap.
pub open spec fn unknown_mcap() -> Seq<char> {
    "??.??K"@
}

/// A reported market cap in short form, zero and negative values included;
/// the placeholder only where none was reported.
pub open spec fn mcap_text(mcap: Option<Amount>) -> Seq<char> {
    match mcap {
        Some(a) => human_readable(a, 2),
        None => unknown_mcap(),
    }
}

fn mcap_label(mcap: Option<Amount>) -> (r: String)
    requires
        mcap matches Some(a) ==> a.wf(),
    ensures
        r@ == mcap_text(mcap),
        mcap is Some ==> r@ != unknown_mcap(),
{
    match mcap {
        Some(a) => {
            let r: String = format_human_readable(a, 2);
            proof {
                reveal_strlit("??.??K");
                if r@.len() == unknown_mcap().len() {
                    assert(r@[0] != unknown_mcap()[0]);
                }
            }
            r
        },
        None => String::from_str("??.??K"),
    }
}

/// Metadata of a token on an EVM chain.
pub struct EvmTokenInfo {
    pub id: String,
    pub name: String,
    pub symbol: String,
    pub mcap: Amount,
    pub chain: Chain,
}

impl EvmTokenInfo {
    pub open spec fn gmgn_link(&self) -> Seq<char> {
        "https://gmgn.ai/"@ + chain_slug(self.chain) + "/token/"@ + self.id@
    }

    pub open spec fn defined_link(&self) -> Seq<char> {
        "https://www.defined.fi/"@ + chain_slug(self.chain) + "/"@ + self.id@
    }

    pub open spec fn dextools_link(&self) -> Seq<char> {
        "https://www.dextools.io/app/en/"@ + chain_dex_slug(self.chain)
            + "/pair-explorer/"@ + self.id@
    }

    pub fn gmgn_url(&self) -> (r: String)
        ensures
            r@ == self.gmgn_link(),
    {
        let mut s: String = String::from_str("https://gmgn.ai/");
        s.append(slug_of(self.chain));
        s.append("/token/");
        s.append(self.id.as_str());
        s
    }

    pub fn defined_url(&self) -> (r: String)
        ensures
            r@ == self.defined_link(),
    {
        let mut s: String = String::from_str("https://www.defined.fi/");
        s.append(slug_of(self.chain));
        s.append("/");
        s.append(self.id.as_str());
        s
    }

    pub fn dextools_url(&self) -> (r: String)
        ensures
            r@ == self.dextools_link(),
    {
        let mut s: String = String::from_str("https://www.dextools.io/app/en/");
        s.append(dex_slug_of(self.chain));
        s.append("/pair-explorer/");
        s.append(self.id.as_str());
        s
    }

    pub open spec fn pancake_pool_link(&self, quote: Seq<char>) -> Seq<char> {
        "https://pancakeswap.finance/liquidity/select/"@ + chain_slug(self.chain) + "/v3/"@
            + self.id@ + "/"@ + quote + "?chain="@ + chain_slug(self.chain)
    }

    pub open spec fn uniswap_pool_link(&self, quote: Seq<char>) -> Seq<char> {
        "https://app.uniswap.org/positions/create?currencyA="@ + self.id@ + "&currencyB="@
            + quote + "&chain="@ + chain_dex_slug(self.chain)
    }

    fn pancake_add_to_pool(&self, quote: &str) -> (r: String)
        ensures
            r@ == self.pancake_pool_link(quote@),
    {
        let chain: &str = slug_of(self.chain);
        let mut s: String = String::from_str("https://pancakeswap.finance/liquidity/select/");
        s.append(chain);
        s.append("/v3/");
        s.append(self.id.as_str());
        s.append("/");
        s.append(quote);
        s.append("?chain=");
        s.append(chain);
        s
    }

    fn uniswap_add_to_pool(&self, quote: &str) -> (r: String)
        ensures
            r@ == self.uniswap_pool_link(quote@),
    {
        let mut s: String = String::from_str("https://app.uniswap.org/positions/create?currencyA=");
        s.append(self.id.as_str());
        s.append("&currencyB=");
        s.append(quote);
        s.append("&chain=");
        s.append(dex_slug_of(self.chain));
        s
    }

    fn get_usdt_ca(&self) -> (r: &'static str)
        ensures
            r@ == usdt_address(self.chain),
    {
        match self.chain {
            Chain::Bsc => "0x55d398326f99059ff775485246999027b3197955",
            Chain::Base => "0xfde4c96c8593536e31f229ea8f37b2ada2699bb2",
        }
    }

    fn get_usdc_ca(&self) -> (r: &'static str)
        ensures
            r@ == usdc_address(self.chain),
    {
        match self.chain {
            Chain::Bsc => "0x8ac76a51cc950d9822d68b83fe1ad97b32cd580d",
            Chain::Base => "0x833589fCD6eDb6E08f4c7C32D4f71b54bdA02913",
        }
    }

    pub fn uniswap_add_to_usdt_pool(&self) -> (r: String)
        ensures
            r@ == self.uniswap_pool_link(usdt_address(self.chain)),
    {
        self.uniswap_add_to_pool(self.get_usdt_ca())
    }

    pub fn uniswap_add_to_usdc_pool(&self) -> (r: String)
        ensures
            r@ == self.uniswap_pool_link(usdc_address(self.chain)),
    {
        self.uniswap_add_to_pool(self.get_usdc_ca())
    }

    pub fn pancake_add_to_usdt_pool(&self) -> (r: String)
        ensures
            r@ == self.pancake_pool_link(usdt_address(self.chain)),
    {
        self.pancake_add_to_pool(self.get_usdt_ca())
    }

    pub fn pancake_add_to_usdc_pool(&self) -> (r: String)
        ensures
            r@ == self.pancake_pool_link(usdc_address(self.chain)),
    {
        self.pancake_add_to_pool(self.get_usdc_ca())
    }

    /// The market cap in short form.
    pub fn human_readable_mcap(&self) -> (r: String)
        requires
            self.mcap.wf(),
        ensures
            r@ == mcap_text(Some(self.mcap)),
    {
        mcap_label(Some(self.mcap))
    }

    pub fn chain_name(&self) -> (r: &'static str)
        ensures
            r@ == chain_label(self.chain),
    {
        match self.chain {
            Chain::Bsc => "BSC",
            Chain::Base => "BASE",
        }
    }
}

/// Metadata of a Solana token. A token that has not graduated yet has no
/// market cap.
pub struct SolanaTokenInfo {
    pub id: String,
    pub name: String,
    pub symbol: String,
    pub launchpad: Option<String>,
    pub mcap: Option<Amount>,
}

impl SolanaTokenInfo {
    pub open spec fn trenchradar_link(&self) -> Seq<char> {
        "https://trench.bot/bundles/"@ + self.id@
    }

    pub open spec fn rugcheck_link(&self) -> Seq<char> {
        "https://rugcheck.xyz/tokens/"@ + self.id@
    }

    pub open spec fn gmgn_link(&self) -> Seq<char> {
        "https://gmgn.ai/sol/token/"@ + self.id@
    }

    pub open spec fn meteora_link(&self) -> Seq<char> {
        "https://app.meteora.ag/pools#dlmm?search="@ + self.id@
    }

    pub open spec fn jup_link(&self) -> Seq<char> {
        "https://jup.ag/tokens/"@ + self.id@
    }

    pub fn trenchradar_url(&self) -> (r: String)
        ensures
            r@ == self.trenchradar_link(),
    {
        String::from_str("https://trench.bot/bundles/").concat(self.id.as_str())
    }

    pub fn rugcheck_url(&self) -> (r: String)
        ensures
            r@ == self.rugcheck_link(),
    {
        String::from_str("https://rugcheck.xyz/tokens/").concat(self.id.as_str())
    }

    pub fn gmgn_url(&self) -> (r: String)
        ensures
            r@ == self.gmgn_link(),
    {
        String::from_str("https://gmgn.ai/sol/token/").concat(self.id.as_str())
    }

    pub fn meteora_pools(&self) -> (r: String)
        ensures
            r@ == self.meteora_link(),
    {
        String::from_str("https://app.meteora.ag/pools#dlmm?search=").concat(self.id.as_str())
    }

    pub fn jup_url(&self) -> (r: String)
        ensures
            r@ == self.jup_link(),
    {
        String::from_str("https://jup.ag/tokens/").concat(self.id.as_str())
    }

    /// The market cap in short form, or a placeholder where it is missing:
    /// a missing market cap never reads as zero.
    pub fn human_readable_mcap(&self) -> (r: String)
        requires
            self.mcap matches Some(a) ==> a.wf(),
        ensures
            r@ == mcap_text(self.mcap),
            self.mcap is Some ==> r@ != unknown_mcap(),
    {
        mcap_label(self.mcap)
    }
}

/// One record of an EVM metadata answer. A record without a creation time
/// stands for a contract the provider has not seen on the chain asked.
pub struct EvmRecord {
    pub address: String,
    pub name: String,
    pub symbol: String,
    pub market_cap: Amount,
    pub created_at: Option<String>,
}

/// The metadata that an EVM answer holds for `chain`: its last record,
/// where there is one and it has a creation time; `NotFound` otherwise,
/// never a record with empty fields.
pub fn evm_token_from_records(records: Vec<EvmRecord>, chain: Chain) -> (r: Result<
    EvmTokenInfo,
    LookupFailure,
>)
    ensures
        records@.len() == 0 ==> r == Err::<EvmTokenInfo, LookupFailure>(LookupFailure::NotFound),
        records@.len() > 0 ==> {
            let last = records@.last();
            match r {
                Ok(info) => last.created_at is Some && info.id == last.address && info.name
                    == last.name && info.symbol == last.symbol && info.mcap == last.market_cap
                    && info.chain == chain,
                Err(e) => last.created_at is None && e == LookupFailure::NotFound,
            }
        },
{
    let mut records = records;
    match records.pop() {
        None => Err(LookupFailure::NotFound),
        Some(rec) => {
            if rec.created_at.is_none() {
                Err(LookupFailure::NotFound)
            } else {
                Ok(
                    EvmTokenInfo {
                        id: rec.address,
                        name: rec.name,
                        symbol: rec.symbol,
                        mcap: rec.market_cap,
                        chain,
                    },
                )
            }
        },
    }
}

/// The metadata that a Solana answer holds: its last record, or `NotFound`
/// where it holds none.
pub fn solana_token_from_records(records: Vec<SolanaTokenInfo>) -> (r: Result<
    SolanaTokenInfo,
    LookupFailure,
>)
    ensures
        records@.len() == 0 ==> r == Err::<SolanaTokenInfo, LookupFailure>(LookupFailure::NotFound),
        records@.len() > 0 ==> r == Ok::<SolanaTokenInfo, LookupFailure>(records@.last()),
{
    let mut records = records;
    match records.pop() {
        None => Err(LookupFailure::NotFound),
        Some(rec) => Ok(rec),
    }
}

/// Code points of the CJK ideograph, kana and hangul blocks.
pub open spec fn in_cjk_block(u: u32) -> bool {
    ||| 0x4E00 <= u <= 0x9FFF
    ||| 0x3400 <= u <= 0x4DBF
    ||| 0x20000 <= u <= 0x2A6DF
    ||| 0x2A700 <= u <= 0x2B73F
    ||| 0x2B740 <= u <= 0x2B81F
    ||| 0x2B820 <= u <= 0x2CEAF
    ||| 0x2CEB0 <= u <= 0x2EBEF
    ||| 0xF900 <= u <= 0xFAFF
    ||| 0x2F800 <= u <= 0x2FA1F
    ||| 0x3040 <= u <= 0x309F
    ||| 0x30A0 <= u <= 0x30FF
    ||| 0x31F0 <= u <= 0x31FF
    ||| 0xAC00 <= u <= 0xD7AF
    ||| 0x1100 <= u <= 0x11FF
    ||| 0x3130 <= u <= 0x318F
    ||| 0xA960 <= u <= 0xA97F
    ||| 0xD7B0 <= u <= 0xD7FF
}

pub open spec fn is_cjk(c: char) -> bool {
    unicode_white_space(c) || in_cjk_block(c as u32)
}

/// A white space, or a character of the CJK ideograph, kana or hangul blocks.
pub fn is_cjk_char(c: char) -> (r: bool)
    ensures
        r == is_cjk(c),
{
    let u: u32 = c as u32;
    is_white_space(c) || (0x4E00 <= u && u <= 0x9FFF) || (0x3400 <= u && u <= 0x4DBF) || (0x20000
        <= u && u <= 0x2A6DF) || (0x2A700 <= u && u <= 0x2B73F) || (0x2B740 <= u && u <= 0x2B81F)
        || (0x2B820 <= u && u <= 0x2CEAF) || (0x2CEB0 <= u && u <= 0x2EBEF) || (0xF900 <= u && u
        <= 0xFAFF) || (0x2F800 <= u && u <= 0x2FA1F) || (0x3040 <= u && u <= 0x309F) || (0x30A0
        <= u && u <= 0x30FF) || (0x31F0 <= u && u <= 0x31FF) || (0xAC00 <= u && u <= 0xD7AF) || (
    0x1100 <= u && u <= 0x11FF) || (0x3130 <= u && u <= 0x318F) || (0xA960 <= u && u <= 0xA97F)
        || (0xD7B0 <= u && u <= 0xD7FF)
}

/// Whether every character of `s` is a CJK character or a white space
/// (an empty text included).
pub fn is_cjk_only(s: &str) -> (r: bool)
    ensures
        r == forall|k: int| 0 <= k < s@.len() ==> is_cjk(#[trigger] s@[k]),
{
    for c in it: s.chars()
        invariant
            it.seq() == s@,
            forall|k: int| 0 <= k < it.index() ==> is_cjk(#[trigger] s@[k]),
    {
        if !is_cjk_char(c) {
            return false;
        }
    }
    true
}

/// `name (translation)`.
pub open spec fn annotated(name: Seq<char>, translation: Seq<char>) -> Seq<char> {
    name + " ("@ + translation + ")"@
}

impl EvmTokenInfo {
    /// Adds an English gloss to a name written in CJK characters only. Without
    /// a gloss, or for any other name, the name stays as it is.
    pub fn apply_translation(&mut self, translation: Option<String>)
        ensures
            final(self).id == old(self).id,
            final(self).symbol == old(self).symbol,
            final(self).mcap == old(self).mcap,
            final(self).chain == old(self).chain,
            final(self).name@ == (match translation {
                Some(t) if (forall|k: int|
                    0 <= k < old(self).name@.len() ==> is_cjk(#[trigger] old(self).name@[k])) =>
                    annotated(old(self).name@, t@),
                _ => old(self).name@,
            }),
    {
        if let Some(t) = translation {
            if is_cjk_only(self.name.as_str()) {
                let mut n: String = self.name.clone();
                n.append(" (");
                n.append(t.as_str());
                n.append(")");
                self.name = n;
            }
        }
    }
}

/// The provider query that searches Solana tokens for `ca`.
pub fn solana_search_url(ca: &str) -> (r: String)
    ensures
        r@ == "https://api.jup.ag/tokens/v2/search?query="@ + ca@,
{
    String::from_str("https://api.jup.ag/tokens/v2/search?query=").concat(ca)
}

/// The provider endpoint for EVM token metadata; the chain and the address
/// go in its query.
pub fn evm_metadata_url() -> (r: &'static str)
    ensures
        r@ == "https://deep-index.moralis.io/api/v2.2/erc20/metadata"@,
{
    "https://deep-index.moralis.io/api/v2.2/erc20/metadata"
}

} // verus!
