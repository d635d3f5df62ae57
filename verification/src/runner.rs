//! The polling-cycle state machine.
//!
//! The loop itself — sleeping, issuing HTTP requests, awaiting selection
//! changes — runs in the unverified shell. Everything the loop decides is
//! here: what a cycle publishes, how the consecutive-failure count moves,
//! and how long to pause before the next fetch. Cycles run strictly one
//! after another, so each published snapshot is built wholesale from one
//! cycle's results and the selection current at publish time.

use vstd::prelude::*;

use vstd::arithmetic::power2::{lemma2_to64, lemma_pow2_strictly_increases, pow2};

use crate::address_map::AddressMap;
use crate::channel::{PriceSnapshot, StateChannel};
use crate::decimal::PriceValue;
use crate::feeder::{PairOrTokenPriceInfo, PairPriceInfo, PerpValueInfo, PriceInfo, TokenPriceInfo};
use crate::fetcher::FetchError;
use crate::formatter::{format_price, spec_format_price};
use crate::selection_keys;
use crate::time::now_millis;
use crate::PriceTarget;

verus! {

/// Steady-state pause between successful cycles, in seconds.
pub const POLL_INTERVAL_SECS: u64 = 5;

/// Ceiling of the cycle-level backoff, in seconds.
pub const MAX_CYCLE_BACKOFF_SECS: u64 = 300;

/// Cycle-level backoff after `failures` consecutive failed cycles:
/// `min(30 * 2^(failures - 1), 300)` seconds.
pub open spec fn spec_cycle_backoff(failures: nat) -> nat
    recommends
        failures >= 1,
{
    if 30 * pow2((failures - 1) as nat) <= 300 {
        30 * pow2((failures - 1) as nat)
    } else {
        300
    }
}

/// The backoff never passes its ceiling of five minutes.
pub proof fn lemma_backoff_capped(n: nat)
    requires
        n >= 1,
    ensures
        spec_cycle_backoff(n) <= 300,
{
}

/// More consecutive failures never shorten the pause.
pub proof fn lemma_backoff_monotonic(n1: nat, n2: nat)
    requires
        1 <= n1 <= n2,
    ensures
        spec_cycle_backoff(n1) <= spec_cycle_backoff(n2),
{
    if n1 < n2 {
        lemma_pow2_strictly_increases((n1 - 1) as nat, (n2 - 1) as nat);
    }
}

/// The cycle-level backoff, computed.
pub fn cycle_backoff_secs(failures: u32) -> (d: u64)
    requires
        failures >= 1,
    ensures
        d as nat == spec_cycle_backoff(failures as nat),
        d <= MAX_CYCLE_BACKOFF_SECS,
{
    proof {
        lemma2_to64();
    }
    if failures == 1 {
        30
    } else if failures == 2 {
        60
    } else if failures == 3 {
        120
    } else if failures == 4 {
        240
    } else {
        proof {
            if failures as nat - 1 > 4 {
                lemma_pow2_strictly_increases(4, (failures - 1) as nat);
            }
        }
        300
    }
}

/// The cycle-level state of the polling loop.
#[derive(Debug, Clone, Copy, PartialEq, Eq, Structural)]
pub struct LoopState {
    /// How many cycles in a row have failed.
    pub failures: u32,
}

impl LoopState {
    pub fn new() -> (r: LoopState)
        ensures
            r.failures == 0,
    {
        LoopState { failures: 0 }
    }

    /// A selection change observed mid-cycle resets the consecutive-failure
    /// count; the next cycle starts fresh against the new selection.
    pub fn on_selection_change(&mut self)
        ensures
            final(self).failures == 0,
    {
        self.failures = 0;
    }
}

/// The addresses of the single-token targets, in selection order; they go
/// upstream as one batch request.
pub open spec fn spec_single_addresses(sel: Seq<PriceTarget>) -> Seq<String>
    decreases sel.len(),
{
    if sel.len() == 0 {
        Seq::empty()
    } else {
        let rest = spec_single_addresses(sel.drop_last());
        match sel.last() {
            PriceTarget::Single(t) => rest.push(t.address),
            _ => rest,
        }
    }
}

/// The pair targets, in selection order; each needs its own request with a
/// comparison currency.
pub open spec fn spec_pair_targets(sel: Seq<PriceTarget>) -> Seq<PriceTarget>
    decreases sel.len(),
{
    if sel.len() == 0 {
        Seq::empty()
    } else {
        let rest = spec_pair_targets(sel.drop_last());
        match sel.last() {
            PriceTarget::Pair(_a, _b) => rest.push(sel.last()),
            _ => rest,
        }
    }
}

/// The position targets, in selection order; each queries the wallet API.
pub open spec fn spec_position_targets(sel: Seq<PriceTarget>) -> Seq<PriceTarget>
    decreases sel.len(),
{
    if sel.len() == 0 {
        Seq::empty()
    } else {
        let rest = spec_position_targets(sel.drop_last());
        match sel.last() {
            PriceTarget::Position(_wallet, _t) => rest.push(sel.last()),
            _ => rest,
        }
    }
}

/// Partitions the selection into the three fetch groups of a cycle: the
/// single tokens' addresses, the pair targets, and the position targets,
/// each in selection order.
pub fn partition_selection(selection: &Vec<PriceTarget>) -> (r: (
    Vec<String>,
    Vec<PriceTarget>,
    Vec<PriceTarget>,
))
    ensures
        r.0@ == spec_single_addresses(selection@),
        r.1@ == spec_pair_targets(selection@),
        r.2@ == spec_position_targets(selection@),
{
    let mut singles: Vec<String> = Vec::new();
    let mut pairs: Vec<PriceTarget> = Vec::new();
    let mut positions: Vec<PriceTarget> = Vec::new();
    let n = selection.len();
    let mut i: usize = 0;
    while i < n
        invariant
            i <= n,
            n == selection@.len(),
            singles@ == spec_single_addresses(selection@.take(i as int)),
            pairs@ == spec_pair_targets(selection@.take(i as int)),
            positions@ == spec_position_targets(selection@.take(i as int)),
        decreases n - i,
    {
        let t = &selection[i];
        match t {
            PriceTarget::Single(tok) => singles.push(tok.address.clone()),
            PriceTarget::Pair(_a, _b) => pairs.push(t.duplicate()),
            PriceTarget::Position(_wallet, _tok) => positions.push(t.duplicate()),
        }
        proof {
            assert(selection@.take(i + 1).drop_last() =~= selection@.take(i as int));
            assert(selection@.take(i + 1).last() == selection@[i as int]);
        }
        i += 1;
    }
    proof {
        assert(selection@.take(n as int) =~= selection@);
    }
    (singles, pairs, positions)
}

/// A freshly fetched price, as stored in a snapshot entry.
pub open spec fn spec_fresh_info(pi: PriceInfo, v: PriceValue, now: u64) -> bool {
    &&& pi.price == Some(v)
    &&& pi.formatted_price@ == spec_format_price(v@)
    &&& pi.updated_at == now
    &&& pi.failure_count == 0
}

/// The snapshot entry a target gets on a successful cycle: an entry of the
/// target's kind, carrying its tokens and the fresh price.
pub open spec fn spec_success_entry(
    t: PriceTarget,
    e: PairOrTokenPriceInfo,
    v: PriceValue,
    now: u64,
) -> bool {
    match (t, e) {
        (PriceTarget::Single(tok), PairOrTokenPriceInfo::Token(tp)) => tp.token == tok
            && spec_fresh_info(tp.price_info, v, now),
        (PriceTarget::Pair(a, b), PairOrTokenPriceInfo::Pair(pp)) => pp.token_a == a && pp.token_b
            == b && spec_fresh_info(pp.price_info, v, now),
        (PriceTarget::Position(_wallet, tok), PairOrTokenPriceInfo::Perp(pv)) => pv.token == tok
            && pv.id@ == tok.symbol.spec_str() + "_PERPS"@ && spec_fresh_info(
            pv.pnl_after_fees_usd,
            v,
            now,
        ),
        _ => false,
    }
}

/// What a successful cycle publishes: entries exactly for the currently
/// selected targets that this cycle's results cover, each fresh. Results
/// for targets no longer selected are discarded; targets not covered by
/// this cycle's fetch get no entry.
pub open spec fn spec_success_snapshot(
    sel: Seq<PriceTarget>,
    results: Map<Seq<char>, PriceValue>,
    now: u64,
    snap: Map<Seq<char>, PairOrTokenPriceInfo>,
) -> bool {
    &&& snap.dom().subset_of(selection_keys(sel, sel.len() as int))
    &&& forall|i: int|
        0 <= i < sel.len() && results.contains_key((#[trigger] sel[i]).spec_key())
            ==> snap.contains_key(sel[i].spec_key())
    &&& forall|k: Seq<char>| #[trigger]
        snap.contains_key(k) ==> results.contains_key(k) && exists|i: int|
            0 <= i < sel.len() && (#[trigger] sel[i]).spec_key() == k && spec_success_entry(
                sel[i],
                snap[k],
                results[k],
                now,
            )
}

/// A price info with its failure count replaced.
pub open spec fn spec_info_with_failures(pi: PriceInfo, n: u32) -> PriceInfo {
    PriceInfo { failure_count: n, ..pi }
}

/// A snapshot entry with its failure count replaced.
pub open spec fn spec_entry_with_failures(e: PairOrTokenPriceInfo, n: u32) -> PairOrTokenPriceInfo {
    match e {
        PairOrTokenPriceInfo::Pair(p) => PairOrTokenPriceInfo::Pair(
            PairPriceInfo { price_info: spec_info_with_failures(p.price_info, n), ..p },
        ),
        PairOrTokenPriceInfo::Token(t) => PairOrTokenPriceInfo::Token(
            TokenPriceInfo { price_info: spec_info_with_failures(t.price_info, n), ..t },
        ),
        PairOrTokenPriceInfo::Perp(p) => PairOrTokenPriceInfo::Perp(
            PerpValueInfo {
                pnl_after_fees_usd: spec_info_with_failures(p.pnl_after_fees_usd, n),
                ..p
            },
        ),
    }
}

/// An entry holding no price yet, bearing only the failure count.
pub open spec fn spec_placeholder_info(pi: PriceInfo, n: u32) -> bool {
    &&& pi.price is None
    &&& pi.formatted_price@ == Seq::<char>::empty()
    &&& pi.updated_at == 0
    &&& pi.failure_count == n
}

/// The entry a target gets when it has never been priced and the cycle
/// failed.
pub open spec fn spec_placeholder_entry(t: PriceTarget, e: PairOrTokenPriceInfo, n: u32) -> bool {
    match (t, e) {
        (PriceTarget::Single(tok), PairOrTokenPriceInfo::Token(tp)) => tp.token == tok
            && spec_placeholder_info(tp.price_info, n),
        (PriceTarget::Pair(a, b), PairOrTokenPriceInfo::Pair(pp)) => pp.token_a == a && pp.token_b
            == b && spec_placeholder_info(pp.price_info, n),
        (PriceTarget::Position(_wallet, tok), PairOrTokenPriceInfo::Perp(pv)) => pv.token == tok
            && pv.id@ == tok.symbol.spec_str() + "_PERPS"@ && spec_placeholder_info(
            pv.pnl_after_fees_usd,
            n,
        ),
        _ => false,
    }
}

/// What a failed cycle publishes: an entry for every currently selected
/// target, keeping the last known value where one exists, and bearing the
/// new consecutive-failure count either way.
pub open spec fn spec_failure_snapshot(
    sel: Seq<PriceTarget>,
    prev: Map<Seq<char>, PairOrTokenPriceInfo>,
    n: u32,
    snap: Map<Seq<char>, PairOrTokenPriceInfo>,
) -> bool {
    &&& snap.dom() == selection_keys(sel, sel.len() as int)
    &&& forall|k: Seq<char>| #[trigger]
        snap.contains_key(k) ==> if prev.contains_key(k) {
            snap[k] == spec_entry_with_failures(prev[k], n)
        } else {
            exists|i: int|
                0 <= i < sel.len() && (#[trigger] sel[i]).spec_key() == k
                    && spec_placeholder_entry(sel[i], snap[k], n)
        }
}

fn make_success_entry(t: &PriceTarget, v: &PriceValue, now_ms: u64) -> (e: PairOrTokenPriceInfo)
    ensures
        spec_success_entry(*t, e, *v, now_ms),
{
    match t {
        PriceTarget::Single(tok) => PairOrTokenPriceInfo::Token(
            TokenPriceInfo {
                token: tok.duplicate(),
                price_info: PriceInfo {
                    price: Some(v.duplicate()),
                    formatted_price: format_price(v),
                    updated_at: now_ms,
                    failure_count: 0,
                },
            },
        ),
        PriceTarget::Pair(a, b) => PairOrTokenPriceInfo::Pair(
            PairPriceInfo {
                token_a: a.duplicate(),
                token_b: b.duplicate(),
                price_info: PriceInfo {
                    price: Some(v.duplicate()),
                    formatted_price: format_price(v),
                    updated_at: now_ms,
                    failure_count: 0,
                },
            },
        ),
        PriceTarget::Position(_wallet, tok) => {
            let mut id = String::from_str(tok.symbol.as_str());
            id.append("_PERPS");
            PairOrTokenPriceInfo::Perp(
                PerpValueInfo {
                    id,
                    token: tok.duplicate(),
                    pnl_after_fees_usd: PriceInfo {
                        price: Some(v.duplicate()),
                        formatted_price: format_price(v),
                        updated_at: now_ms,
                        failure_count: 0,
                    },
                },
            )
        },
    }
}

fn info_with_failures(pi: &PriceInfo, n: u32) -> (r: PriceInfo)
    ensures
        r == spec_info_with_failures(*pi, n),
{
    PriceInfo {
        price: match &pi.price {
            Some(p) => Some(p.duplicate()),
            None => None,
        },
        formatted_price: pi.formatted_price.clone(),
        updated_at: pi.updated_at,
        failure_count: n,
    }
}

fn entry_with_failures(e: &PairOrTokenPriceInfo, n: u32) -> (r: PairOrTokenPriceInfo)
    ensures
        r == spec_entry_with_failures(*e, n),
{
    match e {
        PairOrTokenPriceInfo::Pair(p) => PairOrTokenPriceInfo::Pair(
            PairPriceInfo {
                token_a: p.token_a.duplicate(),
                token_b: p.token_b.duplicate(),
                price_info: info_with_failures(&p.price_info, n),
            },
        ),
        PairOrTokenPriceInfo::Token(t) => PairOrTokenPriceInfo::Token(
            TokenPriceInfo {
                token: t.token.duplicate(),
                price_info: info_with_failures(&t.price_info, n),
            },
        ),
        PairOrTokenPriceInfo::Perp(p) => PairOrTokenPriceInfo::Perp(
            PerpValueInfo {
                id: p.id.clone(),
                token: p.token.duplicate(),
                pnl_after_fees_usd: info_with_failures(&p.pnl_after_fees_usd, n),
            },
        ),
    }
}

fn make_placeholder_entry(t: &PriceTarget, n: u32) -> (e: PairOrTokenPriceInfo)
    ensures
        spec_placeholder_entry(*t, e, n),
{
    let info = PriceInfo {
        price: None,
        formatted_price: String::new(),
        updated_at: 0,
        failure_count: n,
    };
    match t {
        PriceTarget::Single(tok) => PairOrTokenPriceInfo::Token(
            TokenPriceInfo { token: tok.duplicate(), price_info: info },
        ),
        PriceTarget::Pair(a, b) => PairOrTokenPriceInfo::Pair(
            PairPriceInfo { token_a: a.duplicate(), token_b: b.duplicate(), price_info: info },
        ),
        PriceTarget::Position(_wallet, tok) => {
            let mut id = String::from_str(tok.symbol.as_str());
            id.append("_PERPS");
            PairOrTokenPriceInfo::Perp(
                PerpValueInfo { id, token: tok.duplicate(), pnl_after_fees_usd: info },
            )
        },
    }
}

/// Builds the snapshot of a successful cycle: one fresh entry for each
/// currently selected target this cycle's results cover.
pub fn build_success_snapshot(
    selection: &Vec<PriceTarget>,
    results: &AddressMap<PriceValue>,
    now_ms: u64,
) -> (snap: PriceSnapshot)
    requires
        results.wf(),
    ensures
        snap.wf(),
        spec_success_snapshot(selection@, results@, now_ms, snap@),
{
    let n = selection.len();
    let mut snap = AddressMap::<PairOrTokenPriceInfo>::empty();
    let mut i: usize = 0;
    while i < n
        invariant
            i <= n,
            n == selection@.len(),
            results.wf(),
            snap.wf(),
            snap@.dom().subset_of(selection_keys(selection@, i as int)),
            forall|j: int|
                0 <= j < i && results@.contains_key((#[trigger] selection@[j]).spec_key())
                    ==> snap@.contains_key(selection@[j].spec_key()),
            forall|k: Seq<char>| #[trigger]
                snap@.contains_key(k) ==> results@.contains_key(k) && exists|j: int|
                    0 <= j < i && (#[trigger] selection@[j]).spec_key() == k
                        && spec_success_entry(selection@[j], snap@[k], results@[k], now_ms),
        decreases n - i,
    {
        let t = &selection[i];
        let key = t.key();
        if !snap.contains_key(key.as_str()) {
            match results.get(key.as_str()) {
                Some(v) => {
                    let e = make_success_entry(t, v, now_ms);
                    snap.insert(key, e);
                },
                None => {},
            }
        }
        proof {
            assert forall|k: Seq<char>| #[trigger] snap@.dom().contains(k) implies selection_keys(
                selection@,
                i + 1,
            ).contains(k) by {
                if selection_keys(selection@, i as int).contains(k) {
                    let j = choose|j: int|
                        0 <= j < i && (#[trigger] selection@[j]).spec_key() == k;
                    assert(selection_keys(selection@, i + 1).contains(k));
                }
            }
        }
        i += 1;
    }
    snap
}

/// Builds the snapshot of a failed cycle: every currently selected target
/// keeps its last known value, or a placeholder, under the new
/// consecutive-failure count.
pub fn build_failure_snapshot(
    prev: &PriceSnapshot,
    selection: &Vec<PriceTarget>,
    failures: u32,
) -> (snap: PriceSnapshot)
    requires
        prev.wf(),
    ensures
        snap.wf(),
        spec_failure_snapshot(selection@, prev@, failures, snap@),
{
    let n = selection.len();
    let mut snap = AddressMap::<PairOrTokenPriceInfo>::empty();
    let mut i: usize = 0;
    while i < n
        invariant
            i <= n,
            n == selection@.len(),
            prev.wf(),
            snap.wf(),
            snap@.dom() == selection_keys(selection@, i as int),
            forall|k: Seq<char>| #[trigger]
                snap@.contains_key(k) ==> if prev@.contains_key(k) {
                    snap@[k] == spec_entry_with_failures(prev@[k], failures)
                } else {
                    exists|j: int|
                        0 <= j < i && (#[trigger] selection@[j]).spec_key() == k
                            && spec_placeholder_entry(selection@[j], snap@[k], failures)
                },
        decreases n - i,
    {
        let t = &selection[i];
        let key = t.key();
        if !snap.contains_key(key.as_str()) {
            match prev.get(key.as_str()) {
                Some(e) => {
                    let e2 = entry_with_failures(e, failures);
                    snap.insert(key, e2);
                },
                None => {
                    let e2 = make_placeholder_entry(t, failures);
                    snap.insert(key, e2);
                },
            }
        }
        proof {
            assert forall|k: Seq<char>| #[trigger] selection_keys(selection@, i + 1).contains(
                k,
            ) implies snap@.dom().contains(k) by {
                let j = choose|j: int|
                    0 <= j < i + 1 && (#[trigger] selection@[j]).spec_key() == k;
                if j < i {
                    assert(selection_keys(selection@, i as int).contains(k));
                }
            }
            assert forall|k: Seq<char>| #[trigger] snap@.dom().contains(k) implies selection_keys(
                selection@,
                i + 1,
            ).contains(k) by {
                if selection_keys(selection@, i as int).contains(k) {
                    let j = choose|j: int|
                        0 <= j < i && (#[trigger] selection@[j]).spec_key() == k;
                    assert(selection_keys(selection@, i + 1).contains(k));
                } else {
                    assert(selection_keys(selection@, i + 1).contains(k));
                }
            }
            assert(snap@.dom() =~= selection_keys(selection@, i + 1));
        }
        i += 1;
    }
    snap
}

/// Action the loop takes after a cycle.
#[derive(Debug, PartialEq, Eq, Structural)]
pub enum CycleAction {
    /// The cycle published; wait the steady poll interval.
    Publish { wait_secs: u64 },
    /// The cycle failed; back off before fetching again, without the poll
    /// interval on top.
    Backoff { delay_secs: u64 },
}

/// One turn of the polling loop, once the fetch for the cycle resolved.
///
/// On success the cycle's results are published as a fresh snapshot for
/// the currently selected targets — results for targets no longer
/// selected are discarded — and the consecutive-failure count resets. On
/// failure the count rises, the last known values are republished for the
/// current selection bearing that count, and the loop backs off
/// exponentially, capped at five minutes. Either way the published keys
/// stay inside the current selection.
pub fn process_cycle(
    state: &mut LoopState,
    channel: &mut StateChannel,
    selection: &Vec<PriceTarget>,
    outcome: Result<AddressMap<PriceValue>, FetchError>,
    now_ms: u64,
) -> (action: CycleAction)
    requires
        old(channel).wf(),
        old(channel).spec_version() < u64::MAX,
        old(state).failures < u32::MAX,
        outcome matches Ok(m) ==> m.wf(),
    ensures
        final(channel).wf(),
        final(channel).spec_version() == old(channel).spec_version() + 1,
        final(channel).spec_value()@.dom().subset_of(
            selection_keys(selection@, selection@.len() as int),
        ),
        outcome matches Ok(m) ==> {
            &&& final(state).failures == 0
            &&& action == (CycleAction::Publish { wait_secs: POLL_INTERVAL_SECS })
            &&& spec_success_snapshot(selection@, m@, now_ms, final(channel).spec_value()@)
        },
        outcome is Err ==> {
            &&& final(state).failures == old(state).failures + 1
            &&& action == (CycleAction::Backoff {
                delay_secs: spec_cycle_backoff(final(state).failures as nat) as u64,
            })
            &&& spec_failure_snapshot(
                selection@,
                old(channel).spec_value()@,
                final(state).failures,
                final(channel).spec_value()@,
            )
        },
{
    match outcome {
        Ok(m) => {
            let snap = build_success_snapshot(selection, &m, now_ms);
            channel.publish(snap);
            state.failures = 0;
            CycleAction::Publish { wait_secs: POLL_INTERVAL_SECS }
        },
        Err(_e) => {
            state.failures = state.failures + 1;
            let snap = build_failure_snapshot(channel.latest(), selection, state.failures);
            channel.publish(snap);
            CycleAction::Backoff { delay_secs: cycle_backoff_secs(state.failures) }
        },
    }
}

/// As `process_cycle`, stamping fresh entries with the wall clock; the
/// timestamp is whatever the clock read, everything else is as there.
pub fn run_cycle(
    state: &mut LoopState,
    channel: &mut StateChannel,
    selection: &Vec<PriceTarget>,
    outcome: Result<AddressMap<PriceValue>, FetchError>,
) -> (action: CycleAction)
    requires
        old(channel).wf(),
        old(channel).spec_version() < u64::MAX,
        old(state).failures < u32::MAX,
        outcome matches Ok(m) ==> m.wf(),
    ensures
        final(channel).wf(),
        final(channel).spec_version() == old(channel).spec_version() + 1,
        final(channel).spec_value()@.dom().subset_of(
            selection_keys(selection@, selection@.len() as int),
        ),
        outcome matches Ok(m) ==> {
            &&& final(state).failures == 0
            &&& action == (CycleAction::Publish { wait_secs: POLL_INTERVAL_SECS })
            &&& exists|now: u64|
                spec_success_snapshot(selection@, m@, now, final(channel).spec_value()@)
        },
        outcome is Err ==> {
            &&& final(state).failures == old(state).failures + 1
            &&& action == (CycleAction::Backoff {
                delay_secs: spec_cycle_backoff(final(state).failures as nat) as u64,
            })
            &&& spec_failure_snapshot(
                selection@,
                old(channel).spec_value()@,
                final(state).failures,
                final(channel).spec_value()@,
            )
        },
{
    let now_ms = now_millis();
    process_cycle(state, channel, selection, outcome, now_ms)
}

} // verus!
