use ca_watch::amount::{format_human_readable, Amount};
use ca_watch::token::{
    evm_token_from_records, is_cjk_char, is_cjk_only, solana_search_url, solana_token_from_records,
    Chain, EvmRecord, EvmTokenInfo, LookupFailure, SolanaTokenInfo,
};

const EVM: &str = "0x1234567890abcdef1234567890abcdef1234abcd";

fn amount(m: i128, s: u32) -> Amount {
    Amount::new(m, s).unwrap()
}

fn evm_info(chain: Chain, mcap: Amount) -> EvmTokenInfo {
    EvmTokenInfo {
        id: EVM.to_string(),
        name: "Token".to_string(),
        symbol: "TKN".to_string(),
        mcap,
        chain,
    }
}

fn sol_info(mcap: Option<Amount>) -> SolanaTokenInfo {
    SolanaTokenInfo {
        id: "7xKXtg2CW3ed1wGfNxGhqmuRqzNKc2nEkNMTRfwPQEz".to_string(),
        name: "Sol Token".to_string(),
        symbol: "ST".to_string(),
        launchpad: None,
        mcap,
    }
}

#[test]
fn amount_bounds() {
    assert!(Amount::new(1, 28).is_some());
    assert!(Amount::new(1, 29).is_none());
    assert!(Amount::new((1i128 << 96) - 1, 0).is_some());
    assert!(Amount::new(1i128 << 96, 0).is_none());
    assert!(Amount::new(-(1i128 << 96), 0).is_none());
}

#[test]
fn human_readable_units() {
    assert_eq!(format_human_readable(amount(999, 0), 2), "999.00");
    assert_eq!(format_human_readable(amount(1000, 0), 2), "1.00K");
    assert_eq!(format_human_readable(amount(12_345_678, 3), 2), "12.34K");
    assert_eq!(format_human_readable(amount(1_234_567, 0), 2), "1.23M");
    assert_eq!(format_human_readable(amount(1_500_000_000, 0), 2), "1.50B");
    assert_eq!(format_human_readable(amount(-2500, 0), 2), "-2.50K");
    assert_eq!(format_human_readable(amount(5, 1), 1), "0.5");
}

#[test]
fn human_readable_largest_amount() {
    let max = amount((1i128 << 96) - 1, 0);
    assert_eq!(format_human_readable(max, 2), "79228162514264337593.54B");
    assert_eq!(format_human_readable(max, 11), "79228162514264337593.54395033500B");
    assert_eq!(format_human_readable(max, 0), "79228162514264337593B");
    let below_billion = amount(999_999_999, 0);
    assert_eq!(format_human_readable(below_billion, 11), "999.99999900000M");
    let tiny = amount((1i128 << 96) - 1, 28);
    assert_eq!(format_human_readable(tiny, 2), "7.92");
}

#[test]
fn evm_mcap_reported_values() {
    assert_eq!(evm_info(Chain::Bsc, amount(0, 0)).human_readable_mcap(), "0.00");
    assert_eq!(evm_info(Chain::Bsc, amount(-5, 0)).human_readable_mcap(), "-5.00");
    assert_eq!(evm_info(Chain::Bsc, amount(2_000_000, 0)).human_readable_mcap(), "2.00M");
}

#[test]
fn solana_missing_mcap_is_not_zero() {
    let missing = sol_info(None).human_readable_mcap();
    let zero = sol_info(Some(amount(0, 0))).human_readable_mcap();
    assert_eq!(missing, "??.??K");
    assert_eq!(zero, "0.00");
    assert_ne!(missing, zero);
    assert_eq!(sol_info(Some(amount(42_000, 0))).human_readable_mcap(), "42.00K");
}

#[test]
fn evm_links_bsc() {
    let i = evm_info(Chain::Bsc, amount(1, 0));
    assert_eq!(i.gmgn_url(), format!("https://gmgn.ai/bsc/token/{EVM}"));
    assert_eq!(i.defined_url(), format!("https://www.defined.fi/bsc/{EVM}"));
    assert_eq!(i.dextools_url(), format!("https://www.dextools.io/app/en/bnb/pair-explorer/{EVM}"));
    assert_eq!(
        i.pancake_add_to_usdt_pool(),
        format!("https://pancakeswap.finance/liquidity/select/bsc/v3/{EVM}/0x55d398326f99059ff775485246999027b3197955?chain=bsc")
    );
    assert_eq!(
        i.uniswap_add_to_usdc_pool(),
        format!("https://app.uniswap.org/positions/create?currencyA={EVM}&currencyB=0x8ac76a51cc950d9822d68b83fe1ad97b32cd580d&chain=bnb")
    );
    assert_eq!(i.chain_name(), "BSC");
}

#[test]
fn evm_links_base() {
    let i = evm_info(Chain::Base, amount(1, 0));
    assert_eq!(i.gmgn_url(), format!("https://gmgn.ai/base/token/{EVM}"));
    assert_eq!(i.dextools_url(), format!("https://www.dextools.io/app/en/base/pair-explorer/{EVM}"));
    assert_eq!(
        i.pancake_add_to_usdc_pool(),
        format!("https://pancakeswap.finance/liquidity/select/base/v3/{EVM}/0x833589fCD6eDb6E08f4c7C32D4f71b54bdA02913?chain=base")
    );
    assert_eq!(
        i.uniswap_add_to_usdt_pool(),
        format!("https://app.uniswap.org/positions/create?currencyA={EVM}&currencyB=0xfde4c96c8593536e31f229ea8f37b2ada2699bb2&chain=base")
    );
    assert_eq!(i.chain_name(), "BASE");
}

#[test]
fn solana_links() {
    let i = sol_info(None);
    let id = "7xKXtg2CW3ed1wGfNxGhqmuRqzNKc2nEkNMTRfwPQEz";
    assert_eq!(i.trenchradar_url(), format!("https://trench.bot/bundles/{id}"));
    assert_eq!(i.rugcheck_url(), format!("https://rugcheck.xyz/tokens/{id}"));
    assert_eq!(i.gmgn_url(), format!("https://gmgn.ai/sol/token/{id}"));
    assert_eq!(i.meteora_pools(), format!("https://app.meteora.ag/pools#dlmm?search={id}"));
    assert_eq!(i.jup_url(), format!("https://jup.ag/tokens/{id}"));
    assert_eq!(solana_search_url(id), format!("https://api.jup.ag/tokens/v2/search?query={id}"));
}

fn record(addr: &str, created: Option<&str>) -> EvmRecord {
    EvmRecord {
        address: addr.to_string(),
        name: "Name".to_string(),
        symbol: "SYM".to_string(),
        market_cap: amount(123, 0),
        created_at: created.map(|c| c.to_string()),
    }
}

#[test]
fn evm_zero_records_not_found() {
    assert!(matches!(evm_token_from_records(vec![], Chain::Bsc), Err(LookupFailure::NotFound)));
}

#[test]
fn evm_record_without_creation_not_found() {
    let r = evm_token_from_records(vec![record(EVM, None)], Chain::Base);
    assert!(matches!(r, Err(LookupFailure::NotFound)));
}

#[test]
fn evm_last_record_taken() {
    let r = evm_token_from_records(
        vec![record("0xaaaa", Some("2024")), record(EVM, Some("2025-01-01"))],
        Chain::Base,
    )
    .ok()
    .unwrap();
    assert_eq!(r.id, EVM);
    assert_eq!(r.symbol, "SYM");
    assert_eq!(r.chain, Chain::Base);
    assert_eq!(r.mcap, amount(123, 0));
}

#[test]
fn solana_zero_records_not_found() {
    assert!(matches!(solana_token_from_records(vec![]), Err(LookupFailure::NotFound)));
    let r = solana_token_from_records(vec![sol_info(None)]).ok().unwrap();
    assert_eq!(r.symbol, "ST");
}

#[test]
fn cjk_detection() {
    assert!(is_cjk_char('中'));
    assert!(is_cjk_char('カ'));
    assert!(is_cjk_char('한'));
    assert!(is_cjk_char(' '));
    assert!(is_cjk_char('\u{3000}'));
    assert!(is_cjk_char('\n'));
    assert!(!is_cjk_char('\u{200B}'));
    assert!(!is_cjk_char('a'));
    assert!(is_cjk_only("中文 代币"));
    assert!(!is_cjk_only("中文 coin"));
    assert!(is_cjk_only(""));
}

#[test]
fn translation_added_to_cjk_name() {
    let mut i = evm_info(Chain::Bsc, amount(1, 0));
    i.name = "狗狗".to_string();
    i.apply_translation(Some("Doggy".to_string()));
    assert_eq!(i.name, "狗狗 (Doggy)");
}

#[test]
fn translation_ignored_for_other_names() {
    let mut i = evm_info(Chain::Bsc, amount(1, 0));
    i.apply_translation(Some("Other".to_string()));
    assert_eq!(i.name, "Token");
    let mut j = evm_info(Chain::Bsc, amount(1, 0));
    j.name = "狗狗".to_string();
    j.apply_translation(None);
    assert_eq!(j.name, "狗狗");
}
