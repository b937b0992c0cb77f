//! The streak engine: a pure policy from (existing stats, new day index) to
//! updated stats, plus the sticky merge of optional metadata.

use vstd::prelude::*;
use crate::key::{key_spec, pk_for, trim, trim_spec};
use crate::records::{GmStatsByAddressV2, StatsV2View, opt_int_view, opt_str_view};

verus! {

/// The larger of two integers.
pub open spec fn max_of(a: int, b: int) -> int {
    if a >= b {
        a
    } else {
        b
    }
}

/// One step of the streak policy.
///
/// A day at or below the last recorded one changes nothing (idempotent
/// replay).  The day right after the last one continues the streak; a later
/// day resets it to 1.  In either advancing case the historical maximum, the
/// lifetime count and the last recorded day are brought up to date.
pub open spec fn advance_spec(s: StatsV2View, day: int) -> StatsV2View {
    if day <= s.last_gm_day {
        s
    } else {
        let streak = if day == s.last_gm_day + 1 {
            s.current_streak + 1
        } else {
            1
        };
        StatsV2View {
            current_streak: streak,
            highest_streak: max_of(s.highest_streak, streak),
            all_time_gm_count: s.all_time_gm_count + 1,
            last_gm_day: day,
            ..s
        }
    }
}

/// Runs the streak policy on a record.
///
/// The two bounds keep the counters inside `i32`; they demand nothing when
/// `day` does not advance the record.
pub fn advance(stats: GmStatsByAddressV2, day: i32) -> (r: GmStatsByAddressV2)
    requires
        day > stats.last_gm_day ==> stats.all_time_gm_count < i32::MAX,
        day - 1 == stats.last_gm_day ==> stats.current_streak < i32::MAX,
    ensures
        r@ == advance_spec(stats@, day as int),
{
    let mut stats = stats;
    if day > stats.last_gm_day {
        if day - 1 == stats.last_gm_day {
            stats.current_streak = stats.current_streak + 1;
        } else {
            stats.current_streak = 1;
        }
        if stats.current_streak > stats.highest_streak {
            stats.highest_streak = stats.current_streak;
        }
        stats.all_time_gm_count = stats.all_time_gm_count + 1;
        stats.last_gm_day = day;
    }
    stats
}

/// Sticky choice between a freshly supplied optional value and the one
/// already known: a present value replaces, an absent one keeps.
pub open spec fn sticky_spec<T>(fresh: Option<T>, known: Option<T>) -> Option<T> {
    if fresh is Some {
        fresh
    } else {
        known
    }
}

/// Runtime form of [`sticky_spec`].
pub fn sticky<T>(fresh: Option<T>, known: Option<T>) -> (r: Option<T>)
    ensures
        r == sticky_spec(fresh, known),
{
    match fresh {
        Some(v) => Some(v),
        None => known,
    }
}

/// The record after a metadata merge: every optional field follows the
/// sticky rule, and the update time is stamped.
pub open spec fn merge_meta_spec(
    s: StatsV2View,
    tx_hash: Option<Seq<char>>,
    fid: Option<int>,
    display_name: Option<Seq<char>>,
    username: Option<Seq<char>>,
    pfp_url: Option<Seq<char>>,
    primary_wallet: Option<Seq<char>>,
    now: int,
) -> StatsV2View {
    StatsV2View {
        last_tx_hash: sticky_spec(tx_hash, s.last_tx_hash),
        fid: sticky_spec(fid, s.fid),
        display_name: sticky_spec(display_name, s.display_name),
        username: sticky_spec(username, s.username),
        pfp_url: sticky_spec(pfp_url, s.pfp_url),
        primary_wallet: sticky_spec(primary_wallet, s.primary_wallet),
        updated_at: now,
        ..s
    }
}

/// Merges freshly supplied metadata into a record and stamps the update time.
pub fn merge_meta(
    stats: GmStatsByAddressV2,
    tx_hash: Option<String>,
    fid: Option<i64>,
    display_name: Option<String>,
    username: Option<String>,
    pfp_url: Option<String>,
    primary_wallet: Option<String>,
    now: i64,
) -> (r: GmStatsByAddressV2)
    ensures
        r@ == merge_meta_spec(
            stats@,
            opt_str_view(tx_hash),
            opt_int_view(fid),
            opt_str_view(display_name),
            opt_str_view(username),
            opt_str_view(pfp_url),
            opt_str_view(primary_wallet),
            now as int,
        ),
{
    let GmStatsByAddressV2 {
        address_chain,
        address,
        chain_id,
        current_streak,
        highest_streak,
        all_time_gm_count,
        last_gm_day,
        last_tx_hash,
        fid: known_fid,
        display_name: known_display_name,
        username: known_username,
        pfp_url: known_pfp_url,
        primary_wallet: known_primary_wallet,
        updated_at: _,
    } = stats;
    GmStatsByAddressV2 {
        address_chain,
        address,
        chain_id,
        current_streak,
        highest_streak,
        all_time_gm_count,
        last_gm_day,
        last_tx_hash: sticky(tx_hash, last_tx_hash),
        fid: sticky(fid, known_fid),
        display_name: sticky(display_name, known_display_name),
        username: sticky(username, known_username),
        pfp_url: sticky(pfp_url, known_pfp_url),
        primary_wallet: sticky(primary_wallet, known_primary_wallet),
        updated_at: now,
    }
}

/// The record created on the first report for a key: all counters start at 1,
/// metadata is taken as supplied.  `address` is the already-trimmed address.
pub open spec fn fresh_spec(
    address: Seq<char>,
    chain_id: int,
    day: int,
    tx_hash: Option<Seq<char>>,
    fid: Option<int>,
    display_name: Option<Seq<char>>,
    username: Option<Seq<char>>,
    pfp_url: Option<Seq<char>>,
    primary_wallet: Option<Seq<char>>,
    now: int,
) -> StatsV2View {
    StatsV2View {
        address_chain: key_spec(address, chain_id),
        address: address,
        chain_id: chain_id,
        current_streak: 1,
        highest_streak: 1,
        all_time_gm_count: 1,
        last_gm_day: day,
        last_tx_hash: tx_hash,
        fid: fid,
        display_name: display_name,
        username: username,
        pfp_url: pfp_url,
        primary_wallet: primary_wallet,
        updated_at: now,
    }
}

/// Builds the record for the first report of a key: trims the address,
/// derives the key, starts all counters at 1 and takes metadata as supplied.
pub fn fresh_record(
    address: String,
    chain_id: i32,
    day: i32,
    tx_hash: Option<String>,
    fid: Option<i64>,
    display_name: Option<String>,
    username: Option<String>,
    pfp_url: Option<String>,
    primary_wallet: Option<String>,
    now: i64,
) -> (r: GmStatsByAddressV2)
    ensures
        r@ == fresh_spec(
            trim_spec(address@),
            chain_id as int,
            day as int,
            opt_str_view(tx_hash),
            opt_int_view(fid),
            opt_str_view(display_name),
            opt_str_view(username),
            opt_str_view(pfp_url),
            opt_str_view(primary_wallet),
            now as int,
        ),
{
    let addr = trim(address.as_str());
    let pk = pk_for(addr.as_str(), chain_id);
    GmStatsByAddressV2 {
        address_chain: pk,
        address: addr,
        chain_id: chain_id,
        current_streak: 1,
        highest_streak: 1,
        all_time_gm_count: 1,
        last_gm_day: day,
        last_tx_hash: tx_hash,
        fid: fid,
        display_name: display_name,
        username: username,
        pfp_url: pfp_url,
        primary_wallet: primary_wallet,
        updated_at: now,
    }
}

} // verus!
