//! The text of the reply that presents a token, in Telegram's MarkdownV2.
use vstd::prelude::*;
use crate::resolver::{after_outcome, initial_state, pending};
use crate::token::{
    chain_dex_slug, chain_label, chain_slug, mcap_text, usdc_address, usdt_address, Chain,
    EvmTokenInfo, LookupFailure, SolanaTokenInfo,
};

verus! {

/// The characters that MarkdownV2 reserves.
pub open spec fn is_markdown_special(c: char) -> bool {
    c == '\\' || c == '_' || c == '*' || c == '[' || c == ']' || c == '(' || c == ')' || c == '~'
        || c == '`' || c == '>' || c == '#' || c == '+' || c == '-' || c == '=' || c == '|' || c
        == '{' || c == '}' || c == '.' || c == '!'
}

/// `s` with a backslash before each reserved character.
pub open spec fn escaped(s: Seq<char>) -> Seq<char>
    decreases s.len(),
{
    if s.len() == 0 {
        s
    } else {
        escaped(s.drop_last()) + if is_markdown_special(s.last()) {
            seq!['\\', s.last()]
        } else {
            seq![s.last()]
        }
    }
}

/// Relies on teloxide's `utils::markdown::escape`, which puts a backslash
/// before each character that MarkdownV2 reserves (its list is the one in
/// `is_markdown_special`) and keeps every other character, in order.
#[verifier::external_body]
pub(crate) fn markdown_escape(s: &str) -> (r: String)
    ensures
        r@ == escaped(s@),
{
    teloxide::utils::markdown::escape(s)
}

/// The reply for an EVM token: name, address, market cap and chain, then
/// its explorer and pool links.
pub open spec fn evm_reply(info: &EvmTokenInfo) -> Seq<char> {
    "🏷️ *"@
        + escaped(info.symbol@)
        + "* \\- "@
        + escaped(info.name@)
        + "\n📜 `"@
        + info.id@
        + "`\n💵 "@
        + escaped(mcap_text(Some(info.mcap)))
        + " \\- "@
        + escaped(chain_label(info.chain))
        + "\n🦎 [GMGN]("@
        + escaped(info.gmgn_link())
        + ")    🅳 [DF]("@
        + escaped(info.defined_link())
        + ")    🔄 [DT]("@
        + escaped(info.dextools_link())
        + ")\n🥞 [P\\. USDT]("@
        + escaped(info.pancake_pool_link(usdt_address(info.chain)))
        + ")     🥞 [P\\. USDC]("@
        + escaped(info.pancake_pool_link(usdc_address(info.chain)))
        + ")\n🦄 [U\\. USDT]("@
        + escaped(info.uniswap_pool_link(usdt_address(info.chain)))
        + ")    🦄 [U\\. USDC]("@
        + escaped(info.uniswap_pool_link(usdc_address(info.chain)))
        + ")"@
}

/// The reply for a Solana token: name, address and market cap, then its
/// explorer and pool links.
pub open spec fn solana_reply(info: &SolanaTokenInfo) -> Seq<char> {
    "🏷️ *"@
        + escaped(info.symbol@)
        + "* \\- "@
        + escaped(info.name@)
        + "\n📜 `"@
        + info.id@
        + "`\n💵 "@
        + escaped(mcap_text(info.mcap))
        + " \\- SOL\n🦎 [GMGN]("@
        + escaped(info.gmgn_link())
        + ")            ☄️ [Meteora pools]("@
        + escaped(info.meteora_link())
        + ")\n🦝 [Rugcheck]("@
        + escaped(info.rugcheck_link())
        + ")        📡 [TrenchRadar]("@
        + escaped(info.trenchradar_link())
        + ")\n🪐 [JUP]("@
        + escaped(info.jup_link())
        + ")"@
}

pub fn evm_reply_text(info: &EvmTokenInfo) -> (r: String)
    requires
        info.mcap.wf(),
    ensures
        r@ == evm_reply(info),
{
    let mut s: String = String::from_str("🏷️ *");
    let symbol: String = markdown_escape(info.symbol.as_str());
    s.append(symbol.as_str());
    s.append("* \\- ");
    let name: String = markdown_escape(info.name.as_str());
    s.append(name.as_str());
    s.append("\n📜 `");
    let id: String = info.id.clone();
    s.append(id.as_str());
    s.append("`\n💵 ");
    let mcap: String = markdown_escape(info.human_readable_mcap().as_str());
    s.append(mcap.as_str());
    s.append(" \\- ");
    let chain: String = markdown_escape(info.chain_name());
    s.append(chain.as_str());
    s.append("\n🦎 [GMGN](");
    let gmgn: String = markdown_escape(info.gmgn_url().as_str());
    s.append(gmgn.as_str());
    s.append(")    🅳 [DF](");
    let defined: String = markdown_escape(info.defined_url().as_str());
    s.append(defined.as_str());
    s.append(")    🔄 [DT](");
    let dextools: String = markdown_escape(info.dextools_url().as_str());
    s.append(dextools.as_str());
    s.append(")\n🥞 [P\\. USDT](");
    let pancake_usdt: String = markdown_escape(info.pancake_add_to_usdt_pool().as_str());
    s.append(pancake_usdt.as_str());
    s.append(")     🥞 [P\\. USDC](");
    let pancake_usdc: String = markdown_escape(info.pancake_add_to_usdc_pool().as_str());
    s.append(pancake_usdc.as_str());
    s.append(")\n🦄 [U\\. USDT](");
    let uniswap_usdt: String = markdown_escape(info.uniswap_add_to_usdt_pool().as_str());
    s.append(uniswap_usdt.as_str());
    s.append(")    🦄 [U\\. USDC](");
    let uniswap_usdc: String = markdown_escape(info.uniswap_add_to_usdc_pool().as_str());
    s.append(uniswap_usdc.as_str());
    s.append(")");
    s
}

pub fn solana_reply_text(info: &SolanaTokenInfo) -> (r: String)
    requires
        info.mcap matches Some(a) ==> a.wf(),
    ensures
        r@ == solana_reply(info),
{
    let mut s: String = String::from_str("🏷️ *");
    let symbol: String = markdown_escape(info.symbol.as_str());
    s.append(symbol.as_str());
    s.append("* \\- ");
    let name: String = markdown_escape(info.name.as_str());
    s.append(name.as_str());
    s.append("\n📜 `");
    let id: String = info.id.clone();
    s.append(id.as_str());
    s.append("`\n💵 ");
    let mcap: String = markdown_escape(info.human_readable_mcap().as_str());
    s.append(mcap.as_str());
    s.append(" \\- SOL\n🦎 [GMGN](");
    let gmgn: String = markdown_escape(info.gmgn_url().as_str());
    s.append(gmgn.as_str());
    s.append(")            ☄️ [Meteora pools](");
    let meteora: String = markdown_escape(info.meteora_pools().as_str());
    s.append(meteora.as_str());
    s.append(")\n🦝 [Rugcheck](");
    let rugcheck: String = markdown_escape(info.rugcheck_url().as_str());
    s.append(rugcheck.as_str());
    s.append(")        📡 [TrenchRadar](");
    let trenchradar: String = markdown_escape(info.trenchradar_url().as_str());
    s.append(trenchradar.as_str());
    s.append(")\n🪐 [JUP](");
    let jup: String = markdown_escape(info.jup_url().as_str());
    s.append(jup.as_str());
    s.append(")");
    s
}

/// An EVM address unknown on BSC and found on Base: the lookups go to BSC,
/// then Base, and stop there; the reply presents Base's metadata, under the
/// label `BASE`, with links and pool links that name Base and quote Base's
/// USDT and USDC, and no BSC segment.
pub proof fn lemma_reply_from_second_chain(info: &EvmTokenInfo, e: LookupFailure)
    requires
        info.chain == Chain::Base,
    ensures
        ({
            let s0 = initial_state(seq![Chain::Bsc, Chain::Base]);
            let s1 = after_outcome(s0, Err::<EvmTokenInfo, LookupFailure>(e));
            &&& pending(s0) == Some(Chain::Bsc)
            &&& pending(s1) == Some(Chain::Base)
            &&& pending(after_outcome(s1, Ok::<EvmTokenInfo, LookupFailure>(*info))) is None
        }),
        chain_label(info.chain) == "BASE"@,
        chain_slug(info.chain) == "base"@,
        chain_dex_slug(info.chain) == "base"@,
        chain_slug(info.chain) != chain_slug(Chain::Bsc),
        chain_dex_slug(info.chain) != chain_dex_slug(Chain::Bsc),
        usdt_address(info.chain) == "0xfde4c96c8593536e31f229ea8f37b2ada2699bb2"@,
        usdc_address(info.chain) == "0x833589fCD6eDb6E08f4c7C32D4f71b54bdA02913"@,
        info.gmgn_link() == "https://gmgn.ai/"@ + "base"@ + "/token/"@ + info.id@,
        info.pancake_pool_link(usdt_address(info.chain)) == "https://pancakeswap.finance/liquidity/select/"@
            + "base"@ + "/v3/"@ + info.id@ + "/"@ + "0xfde4c96c8593536e31f229ea8f37b2ada2699bb2"@
            + "?chain="@ + "base"@,
        info.uniswap_pool_link(usdc_address(info.chain))
            == "https://app.uniswap.org/positions/create?currencyA="@ + info.id@ + "&currencyB="@
            + "0x833589fCD6eDb6E08f4c7C32D4f71b54bdA02913"@ + "&chain="@ + "base"@,
{
    reveal_strlit("base");
    reveal_strlit("bsc");
    reveal_strlit("bnb");
    assert("base"@[1] != "bsc"@[1]);
    assert("base"@[1] != "bnb"@[1]);
}

} // verus!
