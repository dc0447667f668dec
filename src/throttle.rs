//! Suppression of repeated notifications about one token in one conversation.
use vstd::prelude::*;

verus! {

/// How long after a notification the same mention stays suppressed: five
/// minutes, in milliseconds.
pub const SUPPRESSION_WINDOW_MS: i64 = 300000;

/// A token address in one conversation and, where there is one, one of its
/// sub-threads.
pub struct ThrottleKey {
    pub address: String,
    pub chat_id: i64,
    pub thread_id: Option<i32>,
}

impl View for ThrottleKey {
    type V = (Seq<char>, i64, Option<i32>);

    open spec fn view(&self) -> (Seq<char>, i64, Option<i32>) {
        (self.address@, self.chat_id, self.thread_id)
    }
}

impl ThrottleKey {
    pub fn clone_key(&self) -> (r: ThrottleKey)
        ensures
            r@ == self@,
    {
        ThrottleKey { address: self.address.clone(), chat_id: self.chat_id, thread_id: self.thread_id }
    }

    pub fn new(address: String, chat_id: i64, thread_id: Option<i32>) -> (r: ThrottleKey)
        ensures
            r@ == (address@, chat_id, thread_id),
    {
        ThrottleKey { address, chat_id, thread_id }
    }
}

/// A mention under `k` is suppressed at time `now` when a notification for
/// `k` went out less than the suppression window before.
pub open spec fn suppressed(m: Map<(Seq<char>, i64, Option<i32>), i64>, k: (Seq<char>, i64, Option<i32>), now: int) -> bool {
    m.contains_key(k) && now - m[k] < SUPPRESSION_WINDOW_MS
}

struct ThrottleEntry {
    key: ThrottleKey,
    sent_at: i64,
}

/// The time of the last notification for each key, in milliseconds.
pub struct ThrottleCache {
    entries: Vec<ThrottleEntry>,
    sent: Ghost<Map<(Seq<char>, i64, Option<i32>), i64>>,
}

impl View for ThrottleCache {
    type V = Map<(Seq<char>, i64, Option<i32>), i64>;

    closed spec fn view(&self) -> Map<(Seq<char>, i64, Option<i32>), i64> {
        self.sent@
    }
}

fn same_thread(a: Option<i32>, b: Option<i32>) -> (r: bool)
    ensures
        r == (a == b),
{
    match (a, b) {
        (None, None) => true,
        (Some(x), Some(y)) => x == y,
        _ => false,
    }
}

fn same_key(a: &ThrottleKey, b: &ThrottleKey) -> (r: bool)
    ensures
        r == (a@ == b@),
{
    a.chat_id == b.chat_id && same_thread(a.thread_id, b.thread_id) && a.address == b.address
}

impl ThrottleCache {
    /// One entry per key, and the entries are exactly the map.
    pub closed spec fn wf(&self) -> bool {
        &&& forall|i: int, j: int|
            0 <= i < j < self.entries@.len() ==> self.entries@[i].key@ != self.entries@[j].key@
        &&& forall|i: int|
            0 <= i < self.entries@.len() ==> self.sent@.contains_key(
                #[trigger] self.entries@[i].key@,
            ) && self.sent@[self.entries@[i].key@] == self.entries@[i].sent_at
        &&& forall|k| #[trigger]
            self.sent@.contains_key(k) ==> exists|i: int|
                0 <= i < self.entries@.len() && self.entries@[i].key@ == k
    }

    pub fn new() -> (r: ThrottleCache)
        ensures
            r.wf(),
            r@ == Map::<(Seq<char>, i64, Option<i32>), i64>::empty(),
    {
        ThrottleCache { entries: Vec::new(), sent: Ghost(Map::empty()) }
    }

    fn position(&self, key: &ThrottleKey) -> (r: Option<usize>)
        requires
            self.wf(),
        ensures
            match r {
                Some(i) => i < self.entries@.len() && self.entries@[i as int].key@ == key@,
                None => !self@.contains_key(key@),
            },
    {
        let mut i: usize = 0;
        while i < self.entries.len()
            invariant
                i <= self.entries@.len(),
                forall|m: int| 0 <= m < i ==> self.entries@[m].key@ != key@,
            decreases self.entries@.len() - i,
        {
            if same_key(&self.entries[i].key, key) {
                return Some(i);
            }
            i += 1;
        }
        proof {
            if self@.contains_key(key@) {
                let m = choose|m: int| 0 <= m < self.entries@.len() && self.entries@[m].key@ == key@;
                assert(self.entries@[m].key@ == key@);
            }
        }
        None
    }

    /// The time of the last notification under `key`, if any.
    pub fn last_sent(&self, key: &ThrottleKey) -> (r: Option<i64>)
        requires
            self.wf(),
        ensures
            r == (if self@.contains_key(key@) { Some(self@[key@]) } else { None::<i64> }),
    {
        match self.position(key) {
            Some(i) => Some(self.entries[i].sent_at),
            None => None,
        }
    }

    /// Whether a mention under `key` at time `now` falls inside the
    /// suppression window of the last notification. Reads only.
    pub fn should_suppress(&self, key: &ThrottleKey, now: i64) -> (r: bool)
        requires
            self.wf(),
        ensures
            r == suppressed(self@, key@, now as int),
    {
        match self.last_sent(key) {
            Some(t) => (now as i128) - (t as i128) < (SUPPRESSION_WINDOW_MS as i128),
            None => false,
        }
    }

    /// Notes that a notification under `key` went out at `at`, replacing any
    /// earlier time.
    pub fn record(&mut self, key: ThrottleKey, at: i64)
        requires
            old(self).wf(),
        ensures
            final(self).wf(),
            final(self)@ == old(self)@.insert(key@, at),
    {
        let ghost k = key@;
        let ghost new_map = self.sent@.insert(k, at);
        match self.position(&key) {
            Some(i) => {
                self.entries.set(i, ThrottleEntry { key, sent_at: at });
                self.sent = Ghost(new_map);
                assert forall|k2| #[trigger] self.sent@.contains_key(k2) implies exists|j: int|
                    0 <= j < self.entries@.len() && self.entries@[j].key@ == k2 by {
                    if k2 == k {
                        assert(self.entries@[i as int].key@ == k2);
                    } else {
                        assert(old(self).sent@.contains_key(k2));
                        let j = choose|j: int|
                            0 <= j < old(self).entries@.len() && old(self).entries@[j].key@ == k2;
                        assert(self.entries@[j].key@ == k2);
                    }
                }
            },
            None => {
                self.entries.push(ThrottleEntry { key, sent_at: at });
                self.sent = Ghost(new_map);
                let ghost n = old(self).entries@.len();
                assert forall|a: int|
                    0 <= a < n implies old(self).entries@[a].key@ != k by {
                    assert(old(self).sent@.contains_key(old(self).entries@[a].key@));
                }
                assert forall|k2| #[trigger] self.sent@.contains_key(k2) implies exists|j: int|
                    0 <= j < self.entries@.len() && self.entries@[j].key@ == k2 by {
                    if k2 == k {
                        assert(self.entries@[n as int].key@ == k2);
                    } else {
                        assert(old(self).sent@.contains_key(k2));
                        let j = choose|j: int|
                            0 <= j < old(self).entries@.len() && old(self).entries@[j].key@ == k2;
                        assert(self.entries@[j].key@ == k2);
                    }
                }
            },
        }
    }
}

/// A key that was never recorded is not suppressed, at any time.
pub proof fn lemma_unrecorded_not_suppressed(
    m: Map<(Seq<char>, i64, Option<i32>), i64>,
    k: (Seq<char>, i64, Option<i32>),
    now: int,
)
    requires
        !m.contains_key(k),
    ensures
        !suppressed(m, k, now),
{
}

/// Right after a notification under `k` at time `t`, a mention under `k`
/// is suppressed until the window has passed, and not from then on.
pub proof fn lemma_suppressed_within_window(
    m: Map<(Seq<char>, i64, Option<i32>), i64>,
    k: (Seq<char>, i64, Option<i32>),
    t: i64,
    now: int,
)
    ensures
        t <= now < t + SUPPRESSION_WINDOW_MS ==> suppressed(m.insert(k, t), k, now),
        now >= t + SUPPRESSION_WINDOW_MS ==> !suppressed(m.insert(k, t), k, now),
{
}

/// Keys that differ only in the sub-thread, a missing sub-thread included,
/// are suppressed independently: recording one leaves the other as it was.
pub proof fn lemma_threads_independent(
    m: Map<(Seq<char>, i64, Option<i32>), i64>,
    address: Seq<char>,
    chat_id: i64,
    thread_a: Option<i32>,
    thread_b: Option<i32>,
    t: i64,
    now: int,
)
    requires
        thread_a != thread_b,
    ensures
        suppressed(m.insert((address, chat_id, thread_a), t), (address, chat_id, thread_b), now)
            == suppressed(m, (address, chat_id, thread_b), now),
{
    assert((address, chat_id, thread_a) != (address, chat_id, thread_b));
}

} // verus!
