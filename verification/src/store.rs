use vstd::prelude::*;
use std::collections::VecDeque;
use vstd::rwlock::RwLock;
use vstd::rwlock::RwLockPredicate;

verus! {

/// Maximum age, in seconds, an item may reach before it becomes eligible
/// for eviction from the window (three minutes).
pub const TWEET_RETAINMENT_SECONDS: i64 = 180;

/// Expected arrival rate, used only to pre-size the window's allocation:
/// the capacity is an advisory hint, never a cap, and the sequence may
/// exceed it transiently.
pub const TWEETS_A_SECOND: i64 = 60;

/// One scored item of the stream, immutable once constructed.
///
/// The external scorer sums fixed integer word valences, so the score is
/// carried here as a plain integer; its sign is meaningful and its range
/// is unbounded in principle.
pub struct Tweet {
    pub created_at: i64,
    pub text: String,
    pub sentiment: i64,
}

/// Mathematical image of a [`Tweet`].
pub ghost struct TweetView {
    pub created_at: int,
    pub text: Seq<char>,
    pub sentiment: int,
}

impl View for Tweet {
    type V = TweetView;

    open spec fn view(&self) -> TweetView {
        TweetView {
            created_at: self.created_at as int,
            text: self.text@,
            sentiment: self.sentiment as int,
        }
    }
}

impl DeepView for Tweet {
    type V = TweetView;

    open spec fn deep_view(&self) -> TweetView {
        self.view()
    }
}

impl Tweet {
    /// An owned copy with the same timestamp, text and score.
    pub fn duplicate(&self) -> (r: Tweet)
        ensures
            r@ == self@,
    {
        Tweet {
            created_at: self.created_at,
            text: self.text.clone(),
            sentiment: self.sentiment,
        }
    }
}

/// Mathematical image of the whole window store.
pub ghost struct StoreView {
    /// Count of every item ever accepted; eviction never decrements it.
    pub total: int,
    /// The current window, ordered by arrival.
    pub items: Seq<TweetView>,
    /// Maximum age, in seconds, before an item may be evicted.
    pub retention: int,
}

/// An item this old no longer belongs in the window.
pub open spec fn item_expired(t: TweetView, now: int, retention: int) -> bool {
    now - t.created_at > retention
}

/// One eviction pass: drop expired items from the front, but stop as soon
/// as a single item remains — the window is never evicted down to empty.
pub open spec fn evict_spec(items: Seq<TweetView>, now: int, retention: int) -> Seq<TweetView>
    decreases items.len(),
{
    if items.len() > 1 && item_expired(items[0], now, retention) {
        evict_spec(items.drop_first(), now, retention)
    } else {
        items
    }
}

/// What one `append` does to the store: an eviction pass, then the new
/// item at the back, and the running total up by one.
pub open spec fn append_spec(s: StoreView, t: TweetView, now: int) -> StoreView {
    StoreView {
        total: s.total + 1,
        items: evict_spec(s.items, now, s.retention).push(t),
        retention: s.retention,
    }
}

/// The store as created, before any item arrived.
pub open spec fn empty_store(retention: int) -> StoreView {
    StoreView { total: 0, items: Seq::empty(), retention: retention }
}

/// Internal consistency of a store state: the window never outgrows the
/// running total, once anything was accepted the window is non-empty, and
/// the retention bound is a length of time.
pub open spec fn store_wf(s: StoreView) -> bool {
    &&& 0 <= s.items.len() <= s.total
    &&& s.total >= 1 ==> s.items.len() >= 1
    &&& s.retention >= 0
}

/// The shared window of recent scored items, with its running total.
///
/// All reads and writes go through [`SentimentData::append`] and
/// [`SentimentData::snapshot`]; the raw sequence is never exposed.
pub struct SentimentData {
    total_tweets: usize,
    tweets: VecDeque<Tweet>,
    retention_seconds: i64,
}

/// True when the eviction pass of an `append` has one more item to drop:
/// more than one item is stored and the front one has expired.
fn evict_step_needed(tweets: &VecDeque<Tweet>, now: i64, retention: i64) -> (r: bool)
    ensures
        r == (tweets.deep_view().len() > 1 && item_expired(
            tweets.deep_view()[0],
            now as int,
            retention as int,
        )),
{
    if tweets.len() <= 1 {
        return false;
    }
    let front_created: i64 = tweets[0].created_at;
    (now as i128) - (front_created as i128) > (retention as i128)
}

impl View for SentimentData {
    type V = StoreView;

    closed spec fn view(&self) -> StoreView {
        StoreView {
            total: self.total_tweets as int,
            items: self.tweets.deep_view(),
            retention: self.retention_seconds as int,
        }
    }
}

impl SentimentData {
    /// An empty store with the default retention window.
    pub fn new() -> (r: SentimentData)
        ensures
            r@ == empty_store(TWEET_RETAINMENT_SECONDS as int),
    {
        SentimentData::with_retention(TWEET_RETAINMENT_SECONDS)
    }

    /// An empty store that evicts items older than `retention_seconds`.
    pub fn with_retention(retention_seconds: i64) -> (r: SentimentData)
        requires
            retention_seconds >= 0,
        ensures
            r@ == empty_store(retention_seconds as int),
    {
        let r = SentimentData {
            total_tweets: 0,
            tweets: VecDeque::with_capacity((TWEETS_A_SECOND * TWEET_RETAINMENT_SECONDS) as usize),
            retention_seconds,
        };
        proof {
            assert(r@.items =~= Seq::<TweetView>::empty());
        }
        r
    }

    /// Runs one eviction pass at time `now`, counts the new item, and
    /// appends it at the back.  The running total counts every accepted
    /// item and is never decremented, however many items were evicted,
    /// and the window holds at least one item afterwards.
    pub fn append(&mut self, tweet: Tweet, now: i64)
        requires
            old(self)@.total < usize::MAX,
        ensures
            final(self)@ == append_spec(old(self)@, tweet@, now as int),
            final(self)@.total == old(self)@.total + 1,
            final(self)@.items.len() >= 1,
    {
        let ghost orig: Seq<TweetView> = self.tweets.deep_view();
        let ghost total0: usize = self.total_tweets;
        let ghost ret0: i64 = self.retention_seconds;
        let ghost now_i: int = now as int;
        let ghost ret_i: int = self.retention_seconds as int;
        while evict_step_needed(&self.tweets, now, self.retention_seconds)
            invariant
                self.retention_seconds == ret0,
                self.total_tweets == total0,
                ret_i == ret0 as int,
                now_i == now as int,
                evict_spec(self.tweets.deep_view(), now_i, ret_i) == evict_spec(
                    orig,
                    now_i,
                    ret_i,
                ),
            decreases self.tweets@.len(),
        {
            let ghost pre: Seq<TweetView> = self.tweets.deep_view();
            self.tweets.pop_front();
            proof {
                assert(self.tweets.deep_view() =~= pre.drop_first());
            }
        }
        self.total_tweets = self.total_tweets + 1;
        let ghost evicted: Seq<TweetView> = self.tweets.deep_view();
        self.tweets.push_back(tweet);
        proof {
            assert(self.tweets.deep_view() =~= evicted.push(tweet@));
            assert(evicted == evict_spec(orig, now_i, ret_i));
        }
    }

    /// An atomic point-in-time copy: the running total together with the
    /// window exactly as it stands, in arrival order, in caller-owned
    /// memory.
    pub fn snapshot(&self) -> (r: (usize, Vec<Tweet>))
        ensures
            r.0 == self@.total,
            r.1.deep_view() == self@.items,
    {
        let mut items: Vec<Tweet> = Vec::new();
        let n: usize = self.tweets.len();
        let mut i: usize = 0;
        while i < n
            invariant
                i <= n,
                n == self.tweets@.len(),
                items.deep_view() =~= self.tweets.deep_view().take(i as int),
            decreases n - i,
        {
            let ghost prev: Seq<TweetView> = items.deep_view();
            items.push(self.tweets[i].duplicate());
            proof {
                assert(items.deep_view() =~= prev.push(self.tweets.deep_view()[i as int]));
                assert(self.tweets.deep_view().take(i as int + 1) =~= prev.push(
                    self.tweets.deep_view()[i as int],
                ));
            }
            i = i + 1;
        }
        proof {
            assert(items.deep_view() =~= self.tweets.deep_view());
        }
        (self.total_tweets, items)
    }
}

/// The store after a whole history of `append` calls; each event carries
/// the appended item and the time of the call.
pub open spec fn apply_appends(s: StoreView, events: Seq<(TweetView, int)>) -> StoreView
    decreases events.len(),
{
    if events.len() == 0 {
        s
    } else {
        apply_appends(append_spec(s, events[0].0, events[0].1), events.drop_first())
    }
}

/// Law: after any sequence of `append` calls, the running total equals the
/// starting total plus the number of calls made, however many items were
/// evicted along the way.
pub proof fn lemma_total_counts_appends(s: StoreView, events: Seq<(TweetView, int)>)
    ensures
        apply_appends(s, events).total == s.total + events.len(),
    decreases events.len(),
{
    if events.len() > 0 {
        lemma_total_counts_appends(
            append_spec(s, events[0].0, events[0].1),
            events.drop_first(),
        );
    }
}

/// Law: after any `append`, the window holds at least one item, and it
/// stays non-empty under every later history — eviction never empties it.
pub proof fn lemma_window_never_empty(s: StoreView, events: Seq<(TweetView, int)>)
    requires
        s.items.len() >= 1 || events.len() >= 1,
    ensures
        apply_appends(s, events).items.len() >= 1,
    decreases events.len(),
{
    if events.len() > 0 {
        lemma_window_never_empty(
            append_spec(s, events[0].0, events[0].1),
            events.drop_first(),
        );
    }
}

/// An eviction pass never grows the window.
pub proof fn lemma_evict_len(items: Seq<TweetView>, now: int, retention: int)
    ensures
        evict_spec(items, now, retention).len() <= items.len(),
    decreases items.len(),
{
    if items.len() > 1 && item_expired(items[0], now, retention) {
        lemma_evict_len(items.drop_first(), now, retention);
    }
}

/// Law: the running total is monotone over any append history — a later
/// snapshot never reports a smaller total than an earlier one of the same
/// history.
pub proof fn lemma_total_monotone(s: StoreView, events: Seq<(TweetView, int)>, k: int)
    requires
        0 <= k <= events.len(),
    ensures
        apply_appends(s, events.take(k)).total <= apply_appends(s, events).total,
{
    lemma_total_counts_appends(s, events.take(k));
    lemma_total_counts_appends(s, events);
}

/// Law: an append preserves the store's internal consistency, whatever the
/// item and whatever the time of the call.
pub proof fn lemma_append_preserves_wf(s: StoreView, t: TweetView, now: int)
    requires
        store_wf(s),
    ensures
        store_wf(append_spec(s, t, now)),
{
    lemma_evict_len(s.items, now, s.retention);
}

/// An eviction pass returns a suffix of the window: items only ever leave
/// from the front, never from the middle or the back.
pub proof fn lemma_evict_is_suffix(items: Seq<TweetView>, now: int, retention: int)
    ensures
        exists|k: int|
            0 <= k <= items.len() && evict_spec(items, now, retention) =~= #[trigger] items.skip(
                k,
            ),
    decreases items.len(),
{
    if items.len() > 1 && item_expired(items[0], now, retention) {
        lemma_evict_is_suffix(items.drop_first(), now, retention);
        let k = choose|k: int|
            0 <= k <= items.drop_first().len() && evict_spec(items.drop_first(), now, retention)
                =~= #[trigger] items.drop_first().skip(k);
        assert(items.drop_first().skip(k) =~= items.skip(k + 1));
        assert(evict_spec(items, now, retention) =~= items.skip(k + 1));
    } else {
        assert(evict_spec(items, now, retention) =~= items.skip(0));
    }
}

/// Law: appending in stream order keeps the window in stream order —
/// eviction drops only from the front, and the new item is at least as
/// new as everything it joins.
pub proof fn lemma_append_keeps_arrival_order(s: StoreView, t: TweetView, now: int)
    requires
        sorted_by_arrival(s.items),
        forall|i: int| 0 <= i < s.items.len() ==> #[trigger] s.items[i].created_at <= t.created_at,
    ensures
        sorted_by_arrival(append_spec(s, t, now).items),
{
    lemma_evict_is_suffix(s.items, now, s.retention);
    let k = choose|k: int|
        0 <= k <= s.items.len() && evict_spec(s.items, now, s.retention) =~= #[trigger] s.items.skip(
            k,
        );
    let r = append_spec(s, t, now).items;
    assert forall|i: int, j: int| 0 <= i <= j < r.len() implies r[i].created_at
        <= r[j].created_at by {
        if j < r.len() - 1 {
            assert(r[i] == s.items[k + i]);
            assert(r[j] == s.items[k + j]);
        } else if i < r.len() - 1 {
            assert(r[i] == s.items[k + i]);
            assert(r[j] == t);
        }
    }
}

/// The window arrived in non-decreasing time order, as the external stream
/// is assumed to deliver it.
pub open spec fn sorted_by_arrival(items: Seq<TweetView>) -> bool {
    forall|i: int, j: int|
        0 <= i <= j < items.len() ==> items[i].created_at <= items[j].created_at
}

/// Law: after an eviction pass over a window that arrived in
/// non-decreasing time order, every remaining item is at most
/// `retention` seconds old — unless exactly one item remains, the
/// documented floor that keeps the window from ever showing empty.
pub proof fn lemma_eviction_leaves_fresh(items: Seq<TweetView>, now: int, retention: int)
    requires
        sorted_by_arrival(items),
    ensures
        ({
            let r = evict_spec(items, now, retention);
            r.len() == 1 || (forall|i: int|
                0 <= i < r.len() ==> now - #[trigger] r[i].created_at <= retention)
        }),
    decreases items.len(),
{
    if items.len() > 1 && item_expired(items[0], now, retention) {
        assert forall|i: int, j: int|
            0 <= i <= j < items.drop_first().len() implies items.drop_first()[i].created_at
            <= items.drop_first()[j].created_at by {
            assert(items.drop_first()[i] == items[i + 1]);
            assert(items.drop_first()[j] == items[j + 1]);
        }
        lemma_eviction_leaves_fresh(items.drop_first(), now, retention);
    } else {
        let r = evict_spec(items, now, retention);
        if r.len() != 1 {
            assert forall|i: int| 0 <= i < r.len() implies now - #[trigger] r[i].created_at
                <= retention by {
                assert(r == items);
                assert(items[0].created_at <= items[i].created_at);
            }
        }
    }
}

/// Ghost parameter of the store's lock: every state it protects is
/// well-formed and keeps the retention bound the store was created with.
pub ghost struct StorePred {
    pub retention: int,
}

impl RwLockPredicate<SentimentData> for StorePred {
    open spec fn inv(self, v: SentimentData) -> bool {
        &&& store_wf(v@)
        &&& v@.retention == self.retention
    }
}

/// The shared store: one producer appends, many request-handling jobs
/// snapshot, all through a single exclusive-access domain.
///
/// Every state the lock ever protects satisfies [`store_wf`], so all
/// mutation is linearized and funnelled through the invariant-preserving
/// entry points below; the raw sequence is never exposed.  Reads are not
/// distinguished from writes: both operations acquire the same exclusive
/// lock, held only for a bounded in-memory scan or copy.
pub struct Store {
    lock: RwLock<SentimentData, StorePred>,
}

impl Store {
    /// The retention bound this store was created with.
    pub closed spec fn retention(&self) -> int {
        self.lock.pred().retention
    }

    /// An empty shared store with the default retention window.
    pub fn new() -> (r: Store)
        ensures
            r.retention() == TWEET_RETAINMENT_SECONDS as int,
    {
        Store::with_retention(TWEET_RETAINMENT_SECONDS)
    }

    /// An empty shared store that evicts items older than
    /// `retention_seconds`.
    pub fn with_retention(retention_seconds: i64) -> (r: Store)
        requires
            retention_seconds >= 0,
        ensures
            r.retention() == retention_seconds as int,
    {
        let data = SentimentData::with_retention(retention_seconds);
        let ghost pred = StorePred { retention: retention_seconds as int };
        Store { lock: RwLock::new(data, Ghost(pred)) }
    }

    /// Acquires the exclusive lock, runs the eviction pass at time `now`,
    /// counts and appends `tweet`, and releases the lock.  The one state
    /// change not taken: an item arriving when the running total has
    /// reached the machine limit is not accepted, so the counter never
    /// wraps (unreachable in any real run).
    pub fn append(&self, tweet: Tweet, now: i64) {
        let (mut data, handle) = self.lock.acquire_write();
        if data.total_tweets < usize::MAX {
            proof {
                lemma_append_preserves_wf(data@, tweet@, now as int);
            }
            data.append(tweet, now);
        }
        handle.release_write(data);
    }

    /// Acquires the exclusive lock, copies the running total and the
    /// window, and releases the lock.  The pair returned is the image of
    /// one single well-formed state that the lock protected at one
    /// instant: no partial append or eviction is ever visible, the window
    /// copied is never longer than the total, and it is non-empty whenever
    /// anything was ever accepted.
    pub fn snapshot(&self) -> (r: (usize, Vec<Tweet>))
        ensures
            exists|s: StoreView|
                {
                    &&& #[trigger] store_wf(s)
                    &&& s.retention == self.retention()
                    &&& r.0 == s.total
                    &&& r.1.deep_view() == s.items
                },
            r.1.deep_view().len() <= r.0,
            r.0 >= 1 ==> r.1.deep_view().len() >= 1,
    {
        let (data, handle) = self.lock.acquire_write();
        let (total, items) = data.snapshot();
        handle.release_write(data);
        (total, items)
    }
}

} // verus!
