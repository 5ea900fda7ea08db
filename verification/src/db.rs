//! The desk's registry: the configuration, and one trader handle per running account.
//!
//! The handle type `T` is whatever runs a trader; the registry decides which accounts
//! get a trader and which traders are stopped.
use vstd::prelude::*;
use crate::config::{G3Config, TradingAccount, TradingAccountRow};
use crate::table::RowTable;
use crate::text::{colon_join2, join2};
use crate::trader::{CtaStatus, Trader};

verus! {

/// The key of an account: `broker_id:account`.
pub fn ta_key(broker_id: &str, account: &str) -> (k: String)
    ensures
        k@ == join2(broker_id@, account@),
{
    colon_join2(broker_id, account)
}

/// An account can trade when it names an account and a trade front.
pub open spec fn can_trade(ta: TradingAccount) -> bool {
    ta.account@.len() > 0 && ta.trade_front@.len() > 0
}

/// Some configured account has key `k`.
pub open spec fn is_configured(accounts: Seq<TradingAccount>, k: Seq<char>) -> bool {
    exists|i: int| 0 <= i < accounts.len() && #[trigger] accounts[i].key_text() == k
}

/// Some configured account that can trade has key `k`.
pub open spec fn is_wanted(accounts: Seq<TradingAccount>, k: Seq<char>) -> bool {
    exists|i: int| 0 <= i < accounts.len() && can_trade(accounts[i]) && #[trigger] accounts[i].key_text() == k
}

/// The keys of some accounts, in order.
pub open spec fn keys_of(accounts: Seq<TradingAccount>) -> Seq<Seq<char>> {
    accounts.map_values(|a: TradingAccount| a.key_text())
}

/// The accounts to start a trader for, in configuration order: those that can trade and
/// whose key is neither running nor taken by an earlier account of the list.
pub open spec fn to_start(accounts: Seq<TradingAccount>, running: Set<Seq<char>>) -> Seq<TradingAccount>
    decreases accounts.len(),
{
    if accounts.len() == 0 {
        Seq::empty()
    } else {
        let prev = to_start(accounts.drop_last(), running);
        let a = accounts.last();
        if can_trade(a) && !running.contains(a.key_text()) && !keys_of(prev).contains(a.key_text()) {
            prev.push(a)
        } else {
            prev
        }
    }
}

/// The keys that stay running: those running whose key is still configured.
pub open spec fn kept(accounts: Seq<TradingAccount>, running: Set<Seq<char>>) -> Set<Seq<char>> {
    running.filter(|k: Seq<char>| is_configured(accounts, k))
}

/// What a sync asks for: traders to start, one per account listed, and the handles of the
/// traders taken out of the registry, which are to be stopped.
pub struct SyncPlan<T> {
    pub start: Vec<TradingAccount>,
    pub stopped: Vec<T>,
}

proof fn lemma_take_contains(s: Seq<Seq<char>>, j: int)
    requires
        0 <= j < s.len(),
    ensures
        forall|k: Seq<char>| #[trigger] s.take(j + 1).contains(k) <==> s.take(j).contains(k) || k == s[j],
{
    let t1 = s.take(j + 1);
    let t0 = s.take(j);
    assert forall|k: Seq<char>| #[trigger] t1.contains(k) <==> t0.contains(k) || k == s[j] by {
        if t1.contains(k) {
            let x = choose|x: int| 0 <= x < t1.len() && t1[x] == k;
            if x < j {
                assert(t0[x] == k);
            }
        }
        if t0.contains(k) {
            let x = choose|x: int| 0 <= x < t0.len() && t0[x] == k;
            assert(t1[x] == k);
        }
        if k == s[j] {
            assert(t1[j] == k);
        }
    }
}

/// The configuration and the running traders, each filed under its account's key.
pub struct Database<T> {
    pub conf: G3Config,
    pub traders: RowTable<T>,
}

impl<T> Database<T> {
    /// A registry for `conf` with no trader running.
    pub fn new(conf: G3Config) -> (db: Self)
        ensures
            db.conf == conf,
            db.traders.as_map() == Map::<Seq<char>, T>::empty(),
    {
        Database { conf, traders: RowTable::new() }
    }

    /// The trader of the account `broker_id:account`, if one runs.
    pub fn trader(&self, broker_id: &str, account: &str) -> (t: Option<&T>)
        ensures
            t is Some <==> self.traders.as_map().contains_key(join2(broker_id@, account@)),
            t matches Some(x) ==> *x == self.traders.as_map()[join2(broker_id@, account@)],
    {
        let k = ta_key(broker_id, account);
        self.traders.get(k.as_str())
    }

    /// Files `handle` as the trader of `ta`.
    pub fn add_trader(&mut self, ta: &TradingAccount, handle: T)
        ensures
            final(self).conf == old(self).conf,
            final(self).traders.as_map() == old(self).traders.as_map().insert(ta.key_text(), handle),
    {
        let k = ta_key(ta.broker_id.as_str(), ta.account.as_str());
        self.traders.insert(k, handle);
    }

    /// Whether some configured account has key `k`.
    fn configured(&self, k: &String) -> (b: bool)
        ensures
            b == is_configured(self.conf.accounts@, k@),
    {
        let mut i: usize = 0;
        while i < self.conf.accounts.len()
            invariant
                i <= self.conf.accounts@.len(),
                forall|j: int| 0 <= j < i ==> #[trigger] self.conf.accounts@[j].key_text() != k@,
            decreases self.conf.accounts@.len() - i,
        {
            let a = &self.conf.accounts[i];
            let ak = ta_key(a.broker_id.as_str(), a.account.as_str());
            if ak.eq(k) {
                assert(self.conf.accounts@[i as int].key_text() == k@);
                return true;
            }
            i = i + 1;
        }
        false
    }

    /// Brings the running traders in line with the configuration. Traders whose key no
    /// configured account has any more are taken out and handed back to be stopped; the
    /// accounts that can trade and have no trader yet are listed to be started.
    pub fn sync_traders(&mut self) -> (plan: SyncPlan<T>)
        ensures
            final(self).conf == old(self).conf,
            plan.start@ == to_start(old(self).conf.accounts@, old(self).traders.as_map().dom()),
            final(self).traders.as_map() == old(self).traders.as_map().restrict(
                kept(old(self).conf.accounts@, old(self).traders.as_map().dom()),
            ),
            plan.stopped@ == old(self).traders.key_seq().filter(
                |k: Seq<char>| !is_configured(old(self).conf.accounts@, k),
            ).map_values(|k: Seq<char>| old(self).traders.as_map()[k]),
    {
        let ghost accounts = self.conf.accounts@;
        let ghost conf0 = self.conf;
        let ghost old_map = self.traders.as_map();
        let ghost running = old_map.dom();
        let mut start: Vec<TradingAccount> = Vec::new();
        let mut started: RowTable<()> = RowTable::new();
        let mut i: usize = 0;
        while i < self.conf.accounts.len()
            invariant
                i <= accounts.len(),
                self.conf.accounts@ == accounts,
                self.conf == conf0,
                running == old_map.dom(),
                self.traders.as_map() == old_map,
                start@ == to_start(accounts.take(i as int), running),
                forall|k: Seq<char>| #[trigger] started.as_map().contains_key(k) <==> keys_of(start@).contains(k),
            decreases accounts.len() - i,
        {
            let a = &self.conf.accounts[i];
            let ghost prev = start@;
            proof {
                let t1 = accounts.take(i + 1);
                assert(t1.drop_last() =~= accounts.take(i as int));
                assert(t1.last() == accounts[i as int]);
                assert(to_start(t1, running) == if can_trade(accounts[i as int])
                    && !running.contains(accounts[i as int].key_text())
                    && !keys_of(prev).contains(accounts[i as int].key_text()) {
                    prev.push(accounts[i as int])
                } else {
                    prev
                });
            }
            if !a.account.as_str().is_empty() && !a.trade_front.as_str().is_empty() {
                let k = ta_key(a.broker_id.as_str(), a.account.as_str());
                if !self.traders.contains_key(k.as_str()) && !started.contains_key(k.as_str()) {
                    let ghost before = start@;
                    start.push(a.duplicate());
                    started.insert(k, ());
                    proof {
                        assert(keys_of(start@) =~= keys_of(before).push(a.key_text()));
                        assert forall|k2: Seq<char>| #[trigger] started.as_map().contains_key(k2)
                            <==> keys_of(start@).contains(k2) by {
                            if keys_of(start@).contains(k2) && k2 != a.key_text() {
                                let j = choose|j: int| 0 <= j < keys_of(start@).len() && keys_of(start@)[j] == k2;
                                assert(keys_of(before)[j] == k2);
                            }
                            if keys_of(before).contains(k2) {
                                let j = choose|j: int| 0 <= j < keys_of(before).len() && keys_of(before)[j] == k2;
                                assert(keys_of(start@)[j] == k2);
                            }
                            assert(keys_of(start@)[keys_of(before).len() as int] == a.key_text());
                        }
                    }
                }
            }
            i = i + 1;
        }
        proof {
            assert(accounts.take(accounts.len() as int) =~= accounts);
        }
        let keys = self.traders.keys();
        let ghost ks = keys@.map_values(|s: String| s@);
        proof {
            assert(ks =~= self.traders.key_seq());
        }
        let ghost not_conf = |k: Seq<char>| !is_configured(accounts, k);
        let mut stopped: Vec<T> = Vec::new();
        let mut j: usize = 0;
        while j < keys.len()
            invariant
                j <= keys@.len(),
                ks.len() == keys@.len(),
                forall|x: int| 0 <= x < keys@.len() ==> #[trigger] ks[x] == keys@[x]@,
                ks.no_duplicates(),
                forall|k: Seq<char>| #[trigger] old_map.contains_key(k) <==> ks.contains(k),
                self.conf.accounts@ == accounts,
                self.conf == conf0,
                not_conf == (|k: Seq<char>| !is_configured(accounts, k)),
                self.traders.as_map() == old_map.restrict(
                    old_map.dom().filter(|k: Seq<char>| !ks.take(j as int).contains(k) || is_configured(accounts, k)),
                ),
                stopped@ == ks.take(j as int).filter(not_conf).map_values(|k: Seq<char>| old_map[k]),
            decreases keys@.len() - j,
        {
            proof {
                assert(ks.take(j + 1).drop_last() =~= ks.take(j as int));
                assert(ks.take(j + 1).last() == ks[j as int]);
                reveal(Seq::filter);
            }
            if !self.configured(&keys[j]) {
                let removed = self.traders.remove(keys[j].as_str());
                proof {
                    assert(old_map.contains_key(ks[j as int]));
                    assert(!ks.take(j as int).contains(ks[j as int])) by {
                        if ks.take(j as int).contains(ks[j as int]) {
                            let x = choose|x: int| 0 <= x < j && ks.take(j as int)[x] == ks[j as int];
                            assert(ks[x] == ks[j as int]);
                        }
                    }
                }
                match removed {
                    Some(h) => {
                        stopped.push(h);
                    },
                    None => {},
                }
                proof {
                    assert(ks.take(j + 1).filter(not_conf) == ks.take(j as int).filter(not_conf).push(ks[j as int]));
                    assert(stopped@ =~= ks.take(j + 1).filter(not_conf).map_values(|k: Seq<char>| old_map[k]));
                    assert(self.traders.as_map() =~= old_map.restrict(
                        old_map.dom().filter(|k: Seq<char>| !ks.take(j + 1).contains(k) || is_configured(accounts, k)),
                    )) by {
                        lemma_take_contains(ks, j as int);
                    }
                }
            } else {
                proof {
                    assert(ks.take(j + 1).filter(not_conf) == ks.take(j as int).filter(not_conf));
                    assert(self.traders.as_map() =~= old_map.restrict(
                        old_map.dom().filter(|k: Seq<char>| !ks.take(j + 1).contains(k) || is_configured(accounts, k)),
                    )) by {
                        lemma_take_contains(ks, j as int);
                    }
                }
            }
            j = j + 1;
        }
        proof {
            assert(ks.take(keys@.len() as int) =~= ks);
            assert(self.traders.as_map() =~= old_map.restrict(kept(accounts, running))) by {
                assert forall|k: Seq<char>| old_map.dom().contains(k) implies ks.contains(k) by {}
            }
        }
        SyncPlan { start, stopped }
    }
    /// `entry` lists account `a`: a row with its broker and account and defaults elsewhere,
    /// beside the trader filed under its key, if any.
    pub open spec fn listed(&self, a: TradingAccount, entry: (TradingAccountRow, Option<&T>)) -> bool {
        &&& entry.0.broker_id == a.broker_id
        &&& entry.0.account == a.account
        &&& entry.0.equity_bits == 0
        &&& entry.0.status == CtaStatus::UnKown
        &&& entry.0.status_description@ == Seq::<char>::empty()
        &&& (entry.1 is Some <==> self.traders.as_map().contains_key(a.key_text()))
        &&& (entry.1 matches Some(x) ==> *x == self.traders.as_map()[a.key_text()])
    }

    /// One row per configured account, in configuration order, with broker and account
    /// filled in and everything else at its default, beside the trader of that account
    /// if one runs.
    pub fn account_rows(&self) -> (rows: Vec<(TradingAccountRow, Option<&T>)>)
        ensures
            rows@.len() == self.conf.accounts@.len(),
            forall|i: int| 0 <= i < rows@.len() ==> self.listed(#[trigger] self.conf.accounts@[i], rows@[i]),
    {
        let mut rows: Vec<(TradingAccountRow, Option<&T>)> = Vec::new();
        let mut i: usize = 0;
        while i < self.conf.accounts.len()
            invariant
                i <= self.conf.accounts@.len(),
                rows@.len() == i,
                forall|j: int| 0 <= j < i ==> self.listed(#[trigger] self.conf.accounts@[j], rows@[j]),
            decreases self.conf.accounts@.len() - i,
        {
            let a = &self.conf.accounts[i];
            let mut row = TradingAccountRow::default();
            row.broker_id = a.broker_id.clone();
            row.account = a.account.clone();
            let t = self.trader(a.broker_id.as_str(), a.account.as_str());
            let ghost before = rows@;
            rows.push((row, t));
            proof {
                assert forall|j: int| 0 <= j < i + 1 implies self.listed(#[trigger] self.conf.accounts@[j], rows@[j]) by {
                    if j < i {
                        assert(rows@[j] == before[j]);
                    }
                }
            }
            i = i + 1;
        }
        rows
    }
}

/// Fills in a listed account's status from its trader.
pub fn fill_account_status(row: &mut TradingAccountRow, trader: &Trader)
    ensures
        final(row).broker_id == old(row).broker_id,
        final(row).account == old(row).account,
        final(row).equity_bits == old(row).equity_bits,
        final(row).status == trader.cta.status,
        final(row).status_description == trader.cta.status_description,
{
    row.status = trader.status();
    row.status_description = trader.status_description();
}

/// The accounts a sync starts are exactly those that can trade under a key not running,
/// one per key, in configuration order.
pub proof fn law_to_start_keys(accounts: Seq<TradingAccount>, running: Set<Seq<char>>)
    ensures
        forall|k: Seq<char>| #[trigger] keys_of(to_start(accounts, running)).contains(k)
            <==> is_wanted(accounts, k) && !running.contains(k),
        keys_of(to_start(accounts, running)).no_duplicates(),
        forall|j: int| 0 <= j < to_start(accounts, running).len()
            ==> can_trade(#[trigger] to_start(accounts, running)[j]),
    decreases accounts.len(),
{
    if accounts.len() > 0 {
        let prefix = accounts.drop_last();
        law_to_start_keys(prefix, running);
        let prev = to_start(prefix, running);
        let a = accounts.last();
        let cur = to_start(accounts, running);
        assert forall|k: Seq<char>| is_wanted(prefix, k) implies is_wanted(accounts, k) by {
            let i = choose|i: int| 0 <= i < prefix.len() && can_trade(prefix[i]) && #[trigger] prefix[i].key_text() == k;
            assert(accounts[i] == prefix[i]);
        }
        assert forall|k: Seq<char>| is_wanted(accounts, k)
            implies is_wanted(prefix, k) || (can_trade(a) && k == a.key_text()) by {
            let i = choose|i: int| 0 <= i < accounts.len() && can_trade(accounts[i]) && #[trigger] accounts[i].key_text() == k;
            if i != accounts.len() - 1 {
                assert(prefix[i] == accounts[i]);
            }
        }
        if can_trade(a) {
            assert(accounts[accounts.len() - 1] == a);
            assert(is_wanted(accounts, a.key_text()));
        }
        if can_trade(a) && !running.contains(a.key_text()) && !keys_of(prev).contains(a.key_text()) {
            assert(cur == prev.push(a));
            assert(keys_of(cur) =~= keys_of(prev).push(a.key_text()));
            assert forall|k: Seq<char>| #[trigger] keys_of(cur).contains(k)
                <==> keys_of(prev).contains(k) || k == a.key_text() by {
                if keys_of(cur).contains(k) {
                    let x = choose|x: int| 0 <= x < keys_of(cur).len() && keys_of(cur)[x] == k;
                    if x < keys_of(prev).len() {
                        assert(keys_of(prev)[x] == k);
                    }
                }
                if keys_of(prev).contains(k) {
                    let x = choose|x: int| 0 <= x < keys_of(prev).len() && keys_of(prev)[x] == k;
                    assert(keys_of(cur)[x] == k);
                }
                if k == a.key_text() {
                    assert(keys_of(cur)[keys_of(prev).len() as int] == k);
                }
            }
            assert forall|j: int| 0 <= j < cur.len() implies can_trade(#[trigger] cur[j]) by {
                if j < prev.len() {
                    assert(cur[j] == prev[j]);
                }
            }
        } else {
            assert(cur == prev);
        }
    } else {
        assert(keys_of(to_start(accounts, running)) =~= Seq::<Seq<char>>::empty());
    }
}

/// After a sync, once the listed accounts are started, a trader runs under key `k` exactly
/// when an account that can trade has that key, or when one ran before and some configured
/// account still has that key; no started key was running already.
pub proof fn law_sync_covers(accounts: Seq<TradingAccount>, running: Set<Seq<char>>)
    ensures
        forall|k: Seq<char>|
            kept(accounts, running).contains(k) || #[trigger] keys_of(to_start(accounts, running)).contains(k)
                <==> is_wanted(accounts, k) || (running.contains(k) && is_configured(accounts, k)),
        forall|k: Seq<char>| #[trigger] keys_of(to_start(accounts, running)).contains(k)
            ==> !kept(accounts, running).contains(k),
{
    law_to_start_keys(accounts, running);
    assert forall|k: Seq<char>| is_wanted(accounts, k) implies is_configured(accounts, k) by {
        let i = choose|i: int| 0 <= i < accounts.len() && can_trade(accounts[i]) && #[trigger] accounts[i].key_text() == k;
        assert(accounts[i].key_text() == k);
    }
}

/// A sync right after a sync (with the listed traders started) starts and stops nothing.
pub proof fn law_sync_idempotent(accounts: Seq<TradingAccount>, running: Set<Seq<char>>)
    ensures
        ({
            let after = kept(accounts, running) + keys_of(to_start(accounts, running)).to_set();
            &&& to_start(accounts, after) == Seq::<TradingAccount>::empty()
            &&& kept(accounts, after) == after
        }),
{
    let after = kept(accounts, running) + keys_of(to_start(accounts, running)).to_set();
    law_sync_covers(accounts, running);
    law_to_start_keys(accounts, after);
    let again = to_start(accounts, after);
    assert forall|k: Seq<char>| !#[trigger] keys_of(again).contains(k) by {
        if keys_of(again).contains(k) {
            assert(is_wanted(accounts, k) && !after.contains(k));
            assert(keys_of(to_start(accounts, running)).to_set().contains(k) ==> after.contains(k));
        }
    }
    if again.len() > 0 {
        assert(keys_of(again).contains(keys_of(again)[0]));
    }
    assert(again =~= Seq::<TradingAccount>::empty());
    assert forall|k: Seq<char>| after.contains(k) implies is_configured(accounts, k) by {
        if !kept(accounts, running).contains(k) {
            assert(keys_of(to_start(accounts, running)).contains(k));
            let i = choose|i: int| 0 <= i < accounts.len() && can_trade(accounts[i]) && #[trigger] accounts[i].key_text() == k;
        }
    }
    assert(kept(accounts, after) =~= after);
}

/// A sync keeps a running trader exactly when some configured account's `broker_id:account`
/// is its key, and stops it otherwise.
pub proof fn law_sync_keeps_exactly_configured_keys(
    accounts: Seq<TradingAccount>,
    running: Set<Seq<char>>,
    k: Seq<char>,
)
    ensures
        kept(accounts, running).contains(k) <==> running.contains(k) && exists|i: int|
            0 <= i < accounts.len() && #[trigger] accounts[i].broker_id@ + seq![':'] + accounts[i].account@ == k,
        running.contains(k) && (forall|i: int| 0 <= i < accounts.len()
            ==> #[trigger] accounts[i].broker_id@ + seq![':'] + accounts[i].account@ != k)
            ==> !kept(accounts, running).contains(k),
{
    if running.contains(k) && is_configured(accounts, k) {
        let i = choose|i: int| 0 <= i < accounts.len() && #[trigger] accounts[i].key_text() == k;
        assert(accounts[i].broker_id@ + seq![':'] + accounts[i].account@ == k);
    }
    if exists|i: int| 0 <= i < accounts.len() && #[trigger] accounts[i].broker_id@ + seq![':'] + accounts[i].account@ == k {
        let i = choose|i: int| 0 <= i < accounts.len() && #[trigger] accounts[i].broker_id@ + seq![':'] + accounts[i].account@ == k;
        assert(accounts[i].key_text() == k);
    }
}

/// The accounts a sync starts are configured accounts with a non-empty account name and
/// trade front, whose `broker_id:account` runs no trader; every such account's key gets one
/// started account.
pub proof fn law_to_start_accounts(accounts: Seq<TradingAccount>, running: Set<Seq<char>>)
    ensures
        forall|j: int| 0 <= j < to_start(accounts, running).len() ==> {
            let a = #[trigger] to_start(accounts, running)[j];
            &&& accounts.contains(a)
            &&& a.account@.len() > 0
            &&& a.trade_front@.len() > 0
            &&& !running.contains(a.broker_id@ + seq![':'] + a.account@)
        },
        forall|i: int| 0 <= i < accounts.len() && accounts[i].account@.len() > 0 && accounts[i].trade_front@.len() > 0
            && !running.contains(#[trigger] accounts[i].broker_id@ + seq![':'] + accounts[i].account@)
            ==> exists|j: int| 0 <= j < to_start(accounts, running).len()
                && #[trigger] to_start(accounts, running)[j].broker_id@ + seq![':'] + to_start(accounts, running)[j].account@
                    == accounts[i].broker_id@ + seq![':'] + accounts[i].account@,
    decreases accounts.len(),
{
    law_to_start_keys(accounts, running);
    let ts = to_start(accounts, running);
    lemma_to_start_from(accounts, running);
    assert forall|j: int| 0 <= j < ts.len() implies !running.contains(
        (#[trigger] ts[j]).broker_id@ + seq![':'] + ts[j].account@) by {
        assert(keys_of(ts)[j] == ts[j].key_text());
        assert(keys_of(ts).contains(ts[j].key_text()));
    }
    assert forall|i: int| 0 <= i < accounts.len() && accounts[i].account@.len() > 0 && accounts[i].trade_front@.len() > 0
        && !running.contains(#[trigger] accounts[i].broker_id@ + seq![':'] + accounts[i].account@)
        implies exists|j: int| 0 <= j < ts.len()
            && #[trigger] ts[j].broker_id@ + seq![':'] + ts[j].account@ == accounts[i].broker_id@ + seq![':'] + accounts[i].account@ by {
        let k = accounts[i].key_text();
        assert(can_trade(accounts[i]));
        assert(is_wanted(accounts, k));
        assert(keys_of(ts).contains(k));
        let j = choose|j: int| 0 <= j < keys_of(ts).len() && keys_of(ts)[j] == k;
        assert(ts[j].broker_id@ + seq![':'] + ts[j].account@ == keys_of(ts)[j]);
    }
}

proof fn lemma_to_start_from(accounts: Seq<TradingAccount>, running: Set<Seq<char>>)
    ensures
        forall|j: int| 0 <= j < to_start(accounts, running).len()
            ==> accounts.contains(#[trigger] to_start(accounts, running)[j])
            && can_trade(to_start(accounts, running)[j]),
    decreases accounts.len(),
{
    if accounts.len() > 0 {
        let prefix = accounts.drop_last();
        lemma_to_start_from(prefix, running);
        let prev = to_start(prefix, running);
        let cur = to_start(accounts, running);
        assert forall|j: int| 0 <= j < cur.len() implies accounts.contains(#[trigger] cur[j]) && can_trade(cur[j]) by {
            if j < prev.len() {
                assert(cur[j] == prev[j]);
                let x = choose|x: int| 0 <= x < prefix.len() && prefix[x] == prev[j];
                assert(accounts[x] == prefix[x]);
            } else {
                assert(cur[j] == accounts[accounts.len() - 1]);
            }
        }
    }
}

/// Each configured account is listed with its own broker and account, a zero equity, an
/// unknown status and an empty description, beside the trader filed under `broker_id:account`.
pub proof fn law_listed_rows<T>(db: Database<T>, a: TradingAccount, entry: (TradingAccountRow, Option<&T>))
    requires
        db.listed(a, entry),
    ensures
        entry.0.broker_id == a.broker_id,
        entry.0.account == a.account,
        entry.0.equity_bits == 0,
        entry.0.status == CtaStatus::UnKown,
        entry.0.status_description@.len() == 0,
        entry.1 is Some <==> db.traders.as_map().contains_key(a.broker_id@ + seq![':'] + a.account@),
        entry.1 matches Some(x) ==> *x == db.traders.as_map()[a.broker_id@ + seq![':'] + a.account@],
{
}

} // verus!
