//! Laws of the streak policy, the sticky merge and the schema upgrade,
//! stated over the same spec functions that the entry points' contracts use.

use vstd::prelude::*;
use crate::records::{StatsV1View, StatsV2View, migrate_spec, project_spec};
use crate::streak::{advance_spec, max_of, merge_meta_spec, sticky_spec};

verus! {

/// Idempotent replay: running the streak policy a second time with the same
/// day changes nothing, so a duplicate report leaves every counter as it was.
pub proof fn lemma_replay_idempotent(s: StatsV2View, day: int)
    ensures
        advance_spec(advance_spec(s, day), day) == advance_spec(s, day),
{
}

/// Continuation: the day right after the last recorded one lengthens the
/// streak by one and counts exactly one more lifetime event.
pub proof fn lemma_continuation(s: StatsV2View, day: int)
    requires
        day == s.last_gm_day + 1,
    ensures
        advance_spec(s, day).current_streak == s.current_streak + 1,
        advance_spec(s, day).all_time_gm_count == s.all_time_gm_count + 1,
        advance_spec(s, day).last_gm_day == day,
{
}

/// Reset on gap: a day two or more past the last recorded one starts the
/// streak over at 1, while still counting the event.
pub proof fn lemma_reset_on_gap(s: StatsV2View, day: int)
    requires
        day > s.last_gm_day + 1,
    ensures
        advance_spec(s, day).current_streak == 1,
        advance_spec(s, day).all_time_gm_count == s.all_time_gm_count + 1,
        advance_spec(s, day).last_gm_day == day,
        advance_spec(s, day).highest_streak == max_of(s.highest_streak, 1),
{
}

/// The streak record after a whole sequence of reported days.
pub open spec fn replay_spec(s: StatsV2View, days: Seq<int>) -> StatsV2View
    decreases days.len(),
{
    if days.len() == 0 {
        s
    } else {
        replay_spec(advance_spec(s, days[0]), days.drop_first())
    }
}

/// The largest current streak observed at any point while replaying `days`,
/// the starting record included.
pub open spec fn peak_streak_spec(s: StatsV2View, days: Seq<int>) -> int
    decreases days.len(),
{
    if days.len() == 0 {
        s.current_streak
    } else {
        max_of(s.current_streak, peak_streak_spec(advance_spec(s, days[0]), days.drop_first()))
    }
}

proof fn lemma_peak_at_least_current(s: StatsV2View, days: Seq<int>)
    ensures
        peak_streak_spec(s, days) >= s.current_streak,
{
}

/// Monotone maximum: once the stored maximum covers every current streak
/// seen so far, then after any further sequence of reports it is exactly the
/// largest current streak observed along the way (itself included), so it
/// never decreases.
pub proof fn lemma_monotone_maximum(s: StatsV2View, days: Seq<int>)
    requires
        s.highest_streak >= s.current_streak,
    ensures
        replay_spec(s, days).highest_streak == max_of(s.highest_streak, peak_streak_spec(s, days)),
    decreases days.len(),
{
    if days.len() > 0 {
        let s1 = advance_spec(s, days[0]);
        assert(s1.highest_streak >= s1.current_streak);
        lemma_monotone_maximum(s1, days.drop_first());
        lemma_peak_at_least_current(s1, days.drop_first());
    }
}

/// Monotone maximum from creation: starting where both counters are 1 (a
/// freshly created record), the stored maximum after any sequence of reports
/// equals the largest current streak ever observed.
pub proof fn lemma_monotone_maximum_from_creation(s: StatsV2View, days: Seq<int>)
    requires
        s.current_streak == 1,
        s.highest_streak == 1,
    ensures
        replay_spec(s, days).highest_streak == peak_streak_spec(s, days),
{
    lemma_monotone_maximum(s, days);
    lemma_peak_at_least_current(s, days);
}

/// The record a report writes is a fixpoint of a second advance with the
/// same day: replaying the day through the full report path (advance, then
/// merge) leaves the stored record's counters exactly where the first report
/// put them.
pub proof fn lemma_replay_fixpoint(
    s: StatsV2View,
    day: int,
    tx_hash: Option<Seq<char>>,
    fid: Option<int>,
    display_name: Option<Seq<char>>,
    username: Option<Seq<char>>,
    pfp_url: Option<Seq<char>>,
    primary_wallet: Option<Seq<char>>,
    now: int,
)
    ensures
        ({
            let written = merge_meta_spec(
                advance_spec(s, day),
                tx_hash,
                fid,
                display_name,
                username,
                pfp_url,
                primary_wallet,
                now,
            );
            advance_spec(written, day) == written
        }),
{
}

/// A metadata merge touches no counter and no recorded day: together with
/// idempotent replay, a whole duplicate report leaves every counter as it
/// was, however much metadata it carries.
pub proof fn lemma_merge_preserves_counters(
    s: StatsV2View,
    tx_hash: Option<Seq<char>>,
    fid: Option<int>,
    display_name: Option<Seq<char>>,
    username: Option<Seq<char>>,
    pfp_url: Option<Seq<char>>,
    primary_wallet: Option<Seq<char>>,
    now: int,
)
    ensures
        merge_meta_spec(s, tx_hash, fid, display_name, username, pfp_url, primary_wallet, now)
            .current_streak == s.current_streak,
        merge_meta_spec(s, tx_hash, fid, display_name, username, pfp_url, primary_wallet, now)
            .highest_streak == s.highest_streak,
        merge_meta_spec(s, tx_hash, fid, display_name, username, pfp_url, primary_wallet, now)
            .all_time_gm_count == s.all_time_gm_count,
        merge_meta_spec(s, tx_hash, fid, display_name, username, pfp_url, primary_wallet, now)
            .last_gm_day == s.last_gm_day,
{
}

/// Sticky metadata: a value once known is kept when a later report carries
/// none, and replaced when a later report carries a new one.
pub proof fn lemma_sticky_metadata<T>(known: Option<T>, v: T, w: T)
    ensures
        sticky_spec(Option::<T>::None, sticky_spec(Some(v), known)) == Some(v),
        sticky_spec(Some(w), sticky_spec(Some(v), known)) == Some(w),
{
}

/// Migration transparency: the upgraded record preserves every older-shape
/// field, leaves both extended-only fields absent, and projecting it back to
/// the older shape gives back the record it started from, unchanged.
pub proof fn lemma_migration_transparency(r: StatsV1View)
    ensures
        migrate_spec(r).address_chain == r.address_chain,
        migrate_spec(r).address == r.address,
        migrate_spec(r).chain_id == r.chain_id,
        migrate_spec(r).current_streak == r.current_streak,
        migrate_spec(r).highest_streak == r.highest_streak,
        migrate_spec(r).all_time_gm_count == r.all_time_gm_count,
        migrate_spec(r).last_gm_day == r.last_gm_day,
        migrate_spec(r).last_tx_hash == r.last_tx_hash,
        migrate_spec(r).fid == r.fid,
        migrate_spec(r).display_name == r.display_name,
        migrate_spec(r).username == r.username,
        migrate_spec(r).updated_at == r.updated_at,
        migrate_spec(r).pfp_url is None,
        migrate_spec(r).primary_wallet is None,
        project_spec(migrate_spec(r)) == r,
{
}

} // verus!
