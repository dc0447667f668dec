use ca_watch::amount::Amount;
use ca_watch::config::Config;
use ca_watch::extract::{init_evm_token_ca_regex, init_solana_token_ca_regex, ChainFamily};
use ca_watch::pipeline::{
    gate_message, is_message_too_old, is_whitelisted_chat, mentions_in, throttle_key,
    InboundMessage, MentionTask, MessageGate, Outcome, Stage, TaskStep, AGE_THRESHOLD_MS,
};
use ca_watch::reply::{evm_reply_text, solana_reply_text};
use ca_watch::resolver::{FallbackResolver, ResolveStep};
use ca_watch::throttle::ThrottleCache;
use ca_watch::token::{
    evm_token_from_records, solana_token_from_records, Chain, EvmRecord, EvmTokenInfo,
    LookupFailure, SolanaTokenInfo,
};

const SOL: &str = "7xKXtg2CW3ed1wGfNxGhqmuRqzNKc2nEkNMTRfwPQEz";
const EVM: &str = "0x1234567890abcdef1234567890abcdef1234abcd";
const CHAT: i64 = -100777;
const OWN_ID: u64 = 555;
const NOW: i64 = 1_700_000_000_000;

fn config() -> Config {
    Config::new(vec![1, CHAT], "SECRET-REDACTED".to_string())
}

fn message(text: &str, sent_at: i64) -> InboundMessage {
    InboundMessage {
        chat_id: CHAT,
        thread_id: None,
        sent_at,
        from_bot: false,
        forwarded_from: None,
        text: Some(text.to_string()),
    }
}

#[test]
fn default_config_serves_nobody() {
    let cfg = Config::default();
    assert!(!is_whitelisted_chat(CHAT, &cfg));
    assert!(is_whitelisted_chat(CHAT, &config()));
    assert!(!is_whitelisted_chat(2, &config()));
}

#[test]
fn freshness_threshold() {
    assert_eq!(AGE_THRESHOLD_MS, 6 * 60 * 1000);
    assert!(!is_message_too_old(NOW - AGE_THRESHOLD_MS, NOW));
    assert!(is_message_too_old(NOW - AGE_THRESHOLD_MS - 1, NOW));
    assert!(!is_message_too_old(NOW + 5, NOW));
}

#[test]
fn gate_reasons() {
    let cfg = config();
    let mut m = message(SOL, NOW);
    assert_eq!(gate_message(&m, &cfg, OWN_ID, NOW), MessageGate::Accept);
    m.forwarded_from = Some(OWN_ID);
    assert_eq!(gate_message(&m, &cfg, OWN_ID, NOW), MessageGate::OwnMessage);
    m.forwarded_from = Some(OWN_ID + 1);
    assert_eq!(gate_message(&m, &cfg, OWN_ID, NOW), MessageGate::Accept);
    m.text = None;
    assert_eq!(gate_message(&m, &cfg, OWN_ID, NOW), MessageGate::NoText);
    m.from_bot = true;
    assert_eq!(gate_message(&m, &cfg, OWN_ID, NOW), MessageGate::FromBot);
    m.chat_id = 3;
    assert_eq!(gate_message(&m, &cfg, OWN_ID, NOW), MessageGate::NotWhitelisted);
    m.sent_at = NOW - AGE_THRESHOLD_MS - 1;
    assert_eq!(gate_message(&m, &cfg, OWN_ID, NOW), MessageGate::TooOld);
}

#[test]
fn stale_or_automated_message_yields_nothing() {
    let cfg = config();
    let (sol, evm) = (init_solana_token_ca_regex(), init_evm_token_ca_regex());
    let old = message(SOL, NOW - 7 * 60 * 1000);
    assert!(mentions_in(&old, &cfg, OWN_ID, NOW, &sol, &evm).is_empty());
    let mut bot = message(SOL, NOW);
    bot.from_bot = true;
    assert!(mentions_in(&bot, &cfg, OWN_ID, NOW, &sol, &evm).is_empty());
    let fresh = message(SOL, NOW);
    assert_eq!(mentions_in(&fresh, &cfg, OWN_ID, NOW, &sol, &evm).len(), 1);
}

#[test]
fn both_families_in_one_message() {
    let cfg = config();
    let (sol, evm) = (init_solana_token_ca_regex(), init_evm_token_ca_regex());
    let m = message(&format!("{EVM}\n{SOL} {EVM}"), NOW);
    let found = mentions_in(&m, &cfg, OWN_ID, NOW, &sol, &evm);
    assert_eq!(found.len(), 2);
    assert_eq!(found[0].address, SOL);
    assert_eq!(found[0].family, ChainFamily::Solana);
    assert_eq!(found[1].address, EVM);
    assert_eq!(found[1].family, ChainFamily::Evm);
}

#[test]
fn failed_dispatch_leaves_cache() {
    let cfg = config();
    let (sol, evm) = (init_solana_token_ca_regex(), init_evm_token_ca_regex());
    let m = message(SOL, NOW);
    let c = &mentions_in(&m, &cfg, OWN_ID, NOW, &sol, &evm)[0];
    let mut cache = ThrottleCache::new();
    let mut task = MentionTask::new(&m, c);
    assert_eq!(task.stage(), Stage::Extracted);
    assert_eq!(task.check_throttle(&cache, NOW), TaskStep::Lookup(ChainFamily::Solana));
    assert_eq!(task.on_lookup(true), TaskStep::Send);
    assert_eq!(task.on_dispatch(&mut cache, false, NOW), TaskStep::Done(Outcome::DispatchFailed));
    assert_eq!(task.stage(), Stage::Finished);
    assert!(!cache.should_suppress(&throttle_key(&m, &SOL.to_string()), NOW));

    let mut again = MentionTask::new(&m, c);
    assert_eq!(again.check_throttle(&cache, NOW), TaskStep::Lookup(ChainFamily::Solana));
    assert_eq!(again.on_lookup(true), TaskStep::Send);
    assert_eq!(again.on_dispatch(&mut cache, true, NOW), TaskStep::Done(Outcome::Recorded));
    assert!(cache.should_suppress(&throttle_key(&m, &SOL.to_string()), NOW));
}

#[test]
fn failed_lookup_ends_task() {
    let m = message(EVM, NOW);
    let cfg = config();
    let (sol, evm) = (init_solana_token_ca_regex(), init_evm_token_ca_regex());
    let c = &mentions_in(&m, &cfg, OWN_ID, NOW, &sol, &evm)[0];
    let cache = ThrottleCache::new();
    let mut task = MentionTask::new(&m, c);
    assert_eq!(task.check_throttle(&cache, NOW), TaskStep::Lookup(ChainFamily::Evm));
    assert_eq!(task.on_lookup(false), TaskStep::Done(Outcome::LookupFailed));
    assert_eq!(task.stage(), Stage::Finished);
}

/// Runs one message through the Solana part of the pipeline against a
/// provider that answers with `answer`, counting provider calls. Returns
/// the replies sent.
fn serve_solana(
    m: &InboundMessage,
    now: i64,
    cache: &mut ThrottleCache,
    calls: &mut usize,
    answer: &dyn Fn() -> Vec<SolanaTokenInfo>,
) -> Vec<String> {
    let cfg = config();
    let (sol, evm) = (init_solana_token_ca_regex(), init_evm_token_ca_regex());
    let mut replies = Vec::new();
    for c in mentions_in(m, &cfg, OWN_ID, now, &sol, &evm) {
        let mut task = MentionTask::new(m, &c);
        if task.check_throttle(cache, now) != TaskStep::Lookup(ChainFamily::Solana) {
            continue;
        }
        *calls += 1;
        let found = solana_token_from_records(answer());
        if task.on_lookup(found.is_ok()) != TaskStep::Send {
            continue;
        }
        let Ok(info) = found else { unreachable!() };
        replies.push(solana_reply_text(&info));
        assert_eq!(task.on_dispatch(cache, true, now), TaskStep::Done(Outcome::Recorded));
    }
    replies
}

#[test]
fn repeated_solana_mention_is_throttled() {
    let answer = || {
        vec![SolanaTokenInfo {
            id: SOL.to_string(),
            name: "Fresh".to_string(),
            symbol: "FRSH".to_string(),
            launchpad: Some("pump.fun".to_string()),
            mcap: None,
        }]
    };
    let mut cache = ThrottleCache::new();
    let mut calls = 0;
    let text = "check this: 7xKXtg2CW3ed1wGfNxGhqmuRqzNKc2nEkNMTRfwPQEz";
    let first = serve_solana(&message(text, NOW), NOW, &mut cache, &mut calls, &answer);
    assert_eq!(calls, 1);
    assert_eq!(first.len(), 1);
    assert!(first[0].contains("??\\.??K \\- SOL"));
    assert!(first[0].contains(&format!("`{SOL}`")));
    let later = NOW + 60_000;
    let second = serve_solana(&message(text, later), later, &mut cache, &mut calls, &answer);
    assert!(second.is_empty());
    assert_eq!(calls, 1);
    let much_later = NOW + 5 * 60_000;
    let third = serve_solana(&message(text, much_later), much_later, &mut cache, &mut calls, &answer);
    assert_eq!(third.len(), 1);
    assert_eq!(calls, 2);
}

#[test]
fn evm_address_resolved_on_second_chain() {
    let cfg = config();
    let (sol, evm) = (init_solana_token_ca_regex(), init_evm_token_ca_regex());
    let m = message(&format!("ape {EVM}"), NOW);
    let found = mentions_in(&m, &cfg, OWN_ID, NOW, &sol, &evm);
    assert_eq!(found.len(), 1);
    let addr = found[0].address.clone();
    let provider = |chain: Chain| -> Result<EvmTokenInfo, LookupFailure> {
        let records = match chain {
            Chain::Bsc => vec![],
            Chain::Base => vec![EvmRecord {
                address: addr.clone(),
                name: "Based".to_string(),
                symbol: "BSD".to_string(),
                market_cap: Amount::new(3_210_000, 0).unwrap(),
                created_at: Some("2025-02-02T00:00:00Z".to_string()),
            }],
        };
        evm_token_from_records(records, chain)
    };
    let mut tried = Vec::new();
    let mut r = FallbackResolver::new(vec![Chain::Bsc, Chain::Base]);
    let mut step = r.start();
    let info = loop {
        match step {
            ResolveStep::Lookup(c) => {
                tried.push(c);
                step = r.on_outcome(provider(c));
            }
            ResolveStep::Found(info) => break info,
            ResolveStep::Exhausted(_) => panic!("expected a result"),
        }
    };
    assert_eq!(tried, vec![Chain::Bsc, Chain::Base]);
    assert_eq!(info.chain, Chain::Base);
    let text = evm_reply_text(&info);
    assert!(text.starts_with("🏷️ *BSD* \\- Based\n"));
    assert!(text.contains("3\\.21M \\- BASE"));
    assert!(text.contains(&format!("[GMGN](https://gmgn\\.ai/base/token/{EVM})")));
    assert!(text.contains(&format!(
        "[P\\. USDC](https://pancakeswap\\.finance/liquidity/select/base/v3/{EVM}/0x833589fCD6eDb6E08f4c7C32D4f71b54bdA02913?chain\\=base)"
    )));
    assert!(text.contains("currencyB\\=0xfde4c96c8593536e31f229ea8f37b2ada2699bb2&chain\\=base"));
}

#[test]
fn reply_escapes_reserved_characters() {
    let info = SolanaTokenInfo {
        id: SOL.to_string(),
        name: "a_b (c)!".to_string(),
        symbol: "X.Y".to_string(),
        launchpad: None,
        mcap: Some(Amount::new(1500, 0).unwrap()),
    };
    let text = solana_reply_text(&info);
    assert_eq!(
        text,
        format!(
            "🏷️ *X\\.Y* \\- a\\_b \\(c\\)\\!\n📜 `{SOL}`\n💵 1\\.50K \\- SOL\n🦎 [GMGN](https://gmgn\\.ai/sol/token/{SOL})            ☄️ [Meteora pools](https://app\\.meteora\\.ag/pools\\#dlmm?search\\={SOL})\n🦝 [Rugcheck](https://rugcheck\\.xyz/tokens/{SOL})        📡 [TrenchRadar](https://trench\\.bot/bundles/{SOL})\n🪐 [JUP](https://jup\\.ag/tokens/{SOL})"
        )
    );
}
