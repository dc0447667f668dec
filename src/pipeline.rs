//! The decisions around one inbound message: whether it is served at all,
//! which candidate addresses it carries, and when a notification is noted.
use vstd::prelude::*;
use crate::config::Config;
use crate::extract::{addresses_in, AddressExtractor, ChainFamily};
use crate::throttle::{suppressed, ThrottleCache, ThrottleKey};

verus! {

/// How old a message may be and still be served: six minutes, in
/// milliseconds.
pub const AGE_THRESHOLD_MS: i64 = 360000;

/// What the pipeline reads of an inbound chat message. Times are in
/// milliseconds.
pub struct InboundMessage {
    pub chat_id: i64,
    pub thread_id: Option<i32>,
    pub sent_at: i64,
    /// The sender is flagged as an automated account.
    pub from_bot: bool,
    /// For a forwarded message, the account that first wrote it.
    pub forwarded_from: Option<u64>,
    /// The text, or else the caption.
    pub text: Option<String>,
}

/// Why a message is not served, or that it is.
#[derive(Clone, Copy, Debug, PartialEq, Eq, Structural)]
pub enum MessageGate {
    TooOld,
    NotWhitelisted,
    FromBot,
    OwnMessage,
    NoText,
    Accept,
}

pub open spec fn too_old(sent_at: int, now: int) -> bool {
    now - sent_at > AGE_THRESHOLD_MS
}

/// The checks in turn: age, conversation, automated sender, a forward of
/// this system's own message, and a text to read.
pub open spec fn gate_of(msg: &InboundMessage, whitelist: Seq<i64>, own_id: u64, now: int) -> MessageGate {
    if too_old(msg.sent_at as int, now) {
        MessageGate::TooOld
    } else if !whitelist.contains(msg.chat_id) {
        MessageGate::NotWhitelisted
    } else if msg.from_bot {
        MessageGate::FromBot
    } else if msg.forwarded_from == Some(own_id) {
        MessageGate::OwnMessage
    } else if msg.text is None {
        MessageGate::NoText
    } else {
        MessageGate::Accept
    }
}

pub fn is_message_too_old(sent_at: i64, now: i64) -> (r: bool)
    ensures
        r == too_old(sent_at as int, now as int),
{
    (now as i128) - (sent_at as i128) > (AGE_THRESHOLD_MS as i128)
}

pub fn is_whitelisted_chat(chat_id: i64, cfg: &Config) -> (r: bool)
    ensures
        r == cfg.whitelisted_chats@.contains(chat_id),
{
    let mut i: usize = 0;
    while i < cfg.whitelisted_chats.len()
        invariant
            i <= cfg.whitelisted_chats@.len(),
            forall|k: int| 0 <= k < i ==> cfg.whitelisted_chats@[k] != chat_id,
        decreases cfg.whitelisted_chats@.len() - i,
    {
        if cfg.whitelisted_chats[i] == chat_id {
            assert(cfg.whitelisted_chats@[i as int] == chat_id);
            return true;
        }
        i += 1;
    }
    false
}

pub fn gate_message(msg: &InboundMessage, cfg: &Config, own_id: u64, now: i64) -> (r: MessageGate)
    ensures
        r == gate_of(msg, cfg.whitelisted_chats@, own_id, now as int),
{
    if is_message_too_old(msg.sent_at, now) {
        MessageGate::TooOld
    } else if !is_whitelisted_chat(msg.chat_id, cfg) {
        MessageGate::NotWhitelisted
    } else if msg.from_bot {
        MessageGate::FromBot
    } else if match msg.forwarded_from {
        Some(id) => id == own_id,
        None => false,
    } {
        MessageGate::OwnMessage
    } else if msg.text.is_none() {
        MessageGate::NoText
    } else {
        MessageGate::Accept
    }
}

/// An address found in a message, with the family whose grammar found it.
pub struct CandidateMention {
    pub address: String,
    pub family: ChainFamily,
}

pub open spec fn tagged(addresses: Seq<Seq<char>>, f: ChainFamily) -> Seq<(Seq<char>, ChainFamily)> {
    addresses.map_values(|a: Seq<char>| (a, f))
}

pub open spec fn mention_views(r: Seq<CandidateMention>) -> Seq<(Seq<char>, ChainFamily)> {
    r.map_values(|c: CandidateMention| (c.address@, c.family))
}

fn push_tagged(out: &mut Vec<CandidateMention>, found: Vec<String>, f: ChainFamily)
    ensures
        mention_views(final(out)@) == mention_views(old(out)@) + tagged(
            found@.map_values(|s: String| s@),
            f,
        ),
{
    let ghost start = out@;
    let ghost fv = found@.map_values(|s: String| s@);
    let mut i: usize = 0;
    while i < found.len()
        invariant
            i <= found@.len(),
            fv == found@.map_values(|s: String| s@),
            mention_views(out@) == mention_views(start) + tagged(fv.subrange(0, i as int), f),
        decreases found@.len() - i,
    {
        let ghost before = out@;
        let a: String = found[i].clone();
        out.push(CandidateMention { address: a, family: f });
        assert(fv.subrange(0, i + 1) =~= fv.subrange(0, i as int).push(fv[i as int]));
        assert(mention_views(out@) =~= mention_views(before).push((a@, f)));
        assert(tagged(fv.subrange(0, i + 1), f) =~= tagged(fv.subrange(0, i as int), f).push(
            (a@, f),
        ));
        i += 1;
    }
    assert(fv.subrange(0, found@.len() as int) =~= fv);
}

/// The candidates of a served message, Solana-family ones first, each
/// family's in order of first appearance; none at all for a message that is
/// not served, whose text is then never read.
pub fn mentions_in(
    msg: &InboundMessage,
    cfg: &Config,
    own_id: u64,
    now: i64,
    solana: &AddressExtractor,
    evm: &AddressExtractor,
) -> (r: Vec<CandidateMention>)
    requires
        solana.family == ChainFamily::Solana,
        evm.family == ChainFamily::Evm,
    ensures
        gate_of(msg, cfg.whitelisted_chats@, own_id, now as int) != MessageGate::Accept ==> r@.len()
            == 0,
        gate_of(msg, cfg.whitelisted_chats@, own_id, now as int) == MessageGate::Accept ==> {
            let t = msg.text->Some_0@;
            mention_views(r@) == tagged(addresses_in(ChainFamily::Solana, t), ChainFamily::Solana)
                + tagged(addresses_in(ChainFamily::Evm, t), ChainFamily::Evm)
        },
{
    let mut out: Vec<CandidateMention> = Vec::new();
    match gate_message(msg, cfg, own_id, now) {
        MessageGate::Accept => {},
        _ => {
            return out;
        },
    }
    match &msg.text {
        Some(text) => {
            assert(mention_views(out@) =~= Seq::empty());
            push_tagged(&mut out, solana.extract(text.as_str()), ChainFamily::Solana);
            push_tagged(&mut out, evm.extract(text.as_str()), ChainFamily::Evm);
            assert(Seq::<(Seq<char>, ChainFamily)>::empty() + tagged(
                addresses_in(ChainFamily::Solana, text@),
                ChainFamily::Solana,
            ) =~= tagged(addresses_in(ChainFamily::Solana, text@), ChainFamily::Solana));
        },
        None => {},
    }
    out
}

/// A message older than the freshness threshold, or one from an automated
/// sender, yields no candidate: its text is never searched.
pub proof fn lemma_stale_or_automated_not_served(
    msg: &InboundMessage,
    whitelist: Seq<i64>,
    own_id: u64,
    now: int,
)
    requires
        too_old(msg.sent_at as int, now) || msg.from_bot,
    ensures
        gate_of(msg, whitelist, own_id, now) != MessageGate::Accept,
{
}

/// The key under which a mention in `msg` is throttled.
pub fn throttle_key(msg: &InboundMessage, address: &String) -> (r: ThrottleKey)
    ensures
        r@ == (address@, msg.chat_id, msg.thread_id),
{
    ThrottleKey::new(address.clone(), msg.chat_id, msg.thread_id)
}

/// Where the handling of one candidate stands.
#[derive(Clone, Copy, Debug, PartialEq, Eq, Structural)]
pub enum Stage {
    Extracted,
    ThrottleChecked,
    Resolved,
    Finished,
}

/// How the handling of one candidate ended.
#[derive(Clone, Copy, Debug, PartialEq, Eq, Structural)]
pub enum Outcome {
    /// A notification under the same key went out within the window.
    Suppressed,
    /// No provider had metadata for the address.
    LookupFailed,
    /// The reply could not be delivered; the cache was left as it was.
    DispatchFailed,
    /// The reply went out and was noted in the cache.
    Recorded,
}

/// What the caller does next for one candidate.
#[derive(Clone, Copy, Debug, PartialEq, Eq, Structural)]
pub enum TaskStep {
    /// Look the address up with the providers of this family.
    Lookup(ChainFamily),
    /// Send the reply built from the metadata found.
    Send,
    Done(Outcome),
}

/// The handling of one candidate address of one message, step by step:
/// throttle check, lookup, dispatch, record. Each step short-circuits on
/// suppression or failure.
pub struct MentionTask {
    key: ThrottleKey,
    family: ChainFamily,
    stage: Stage,
}

impl MentionTask {
    pub closed spec fn key_view(&self) -> (Seq<char>, i64, Option<i32>) {
        self.key@
    }

    pub closed spec fn family_view(&self) -> ChainFamily {
        self.family
    }

    pub closed spec fn stage_view(&self) -> Stage {
        self.stage
    }

    pub fn new(msg: &InboundMessage, candidate: &CandidateMention) -> (r: MentionTask)
        ensures
            r.key_view() == (candidate.address@, msg.chat_id, msg.thread_id),
            r.family_view() == candidate.family,
            r.stage_view() == Stage::Extracted,
    {
        MentionTask {
            key: throttle_key(msg, &candidate.address),
            family: candidate.family,
            stage: Stage::Extracted,
        }
    }

    pub fn stage(&self) -> (r: Stage)
        ensures
            r == self.stage_view(),
    {
        self.stage
    }

    /// Consults the cache, before any lookup is paid for.
    pub fn check_throttle(&mut self, cache: &ThrottleCache, now: i64) -> (r: TaskStep)
        requires
            old(self).stage_view() == Stage::Extracted,
            cache.wf(),
        ensures
            final(self).key_view() == old(self).key_view(),
            final(self).family_view() == old(self).family_view(),
            suppressed(cache@, old(self).key_view(), now as int) ==> r == TaskStep::Done(
                Outcome::Suppressed,
            ) && final(self).stage_view() == Stage::Finished,
            !suppressed(cache@, old(self).key_view(), now as int) ==> r == TaskStep::Lookup(
                old(self).family_view(),
            ) && final(self).stage_view() == Stage::ThrottleChecked,
    {
        if cache.should_suppress(&self.key, now) {
            self.stage = Stage::Finished;
            TaskStep::Done(Outcome::Suppressed)
        } else {
            self.stage = Stage::ThrottleChecked;
            TaskStep::Lookup(self.family)
        }
    }

    /// Takes whether the lookup found metadata.
    pub fn on_lookup(&mut self, found: bool) -> (r: TaskStep)
        requires
            old(self).stage_view() == Stage::ThrottleChecked,
        ensures
            final(self).key_view() == old(self).key_view(),
            final(self).family_view() == old(self).family_view(),
            found ==> r == TaskStep::Send && final(self).stage_view() == Stage::Resolved,
            !found ==> r == TaskStep::Done(Outcome::LookupFailed) && final(self).stage_view()
                == Stage::Finished,
    {
        if found {
            self.stage = Stage::Resolved;
            TaskStep::Send
        } else {
            self.stage = Stage::Finished;
            TaskStep::Done(Outcome::LookupFailed)
        }
    }

    /// Takes whether the reply was delivered. A delivered reply is noted
    /// in the cache at `now`; a failed one leaves the cache as it was, so
    /// that the next mention is not suppressed.
    pub fn on_dispatch(&mut self, cache: &mut ThrottleCache, delivered: bool, now: i64) -> (r:
        TaskStep)
        requires
            old(self).stage_view() == Stage::Resolved,
            old(cache).wf(),
        ensures
            final(self).stage_view() == Stage::Finished,
            final(cache).wf(),
            delivered ==> r == TaskStep::Done(Outcome::Recorded) && final(cache)@ == old(
                cache,
            )@.insert(old(self).key_view(), now),
            !delivered ==> r == TaskStep::Done(Outcome::DispatchFailed) && final(cache)@ == old(
                cache,
            )@,
    {
        self.stage = Stage::Finished;
        if delivered {
            cache.record(self.key.clone_key(), now);
            TaskStep::Done(Outcome::Recorded)
        } else {
            TaskStep::Done(Outcome::DispatchFailed)
        }
    }
}

} // verus!
