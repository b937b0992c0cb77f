//! The two on-disk shapes of a streak record and their mathematical views.

use vstd::prelude::*;

verus! {

/// A streak record in the older shape: the fields that every reader of the
/// store has always known.  The `address_chain` field is the record key.
pub struct GmStatsByAddress {
    pub address_chain: String,
    pub address: String,
    pub chain_id: i32,
    pub current_streak: i32,
    pub highest_streak: i32,
    pub all_time_gm_count: i32,
    pub last_gm_day: i32,
    pub last_tx_hash: Option<String>,
    pub fid: Option<i64>,
    pub display_name: Option<String>,
    pub username: Option<String>,
    pub updated_at: i64,
}

/// A streak record in the extended shape: every field of [`GmStatsByAddress`]
/// plus two optional profile fields.  Once a key has a record in this shape,
/// that record is authoritative.
pub struct GmStatsByAddressV2 {
    pub address_chain: String,
    pub address: String,
    pub chain_id: i32,
    pub current_streak: i32,
    pub highest_streak: i32,
    pub all_time_gm_count: i32,
    pub last_gm_day: i32,
    pub last_tx_hash: Option<String>,
    pub fid: Option<i64>,
    pub display_name: Option<String>,
    pub username: Option<String>,
    pub pfp_url: Option<String>,
    pub primary_wallet: Option<String>,
    pub updated_at: i64,
}

/// Mathematical image of an optional string.
pub open spec fn opt_str_view(o: Option<String>) -> Option<Seq<char>> {
    match o {
        Some(s) => Some(s@),
        None => None,
    }
}

/// Mathematical image of an optional 64-bit integer.
pub open spec fn opt_int_view(o: Option<i64>) -> Option<int> {
    match o {
        Some(n) => Some(n as int),
        None => None,
    }
}

/// Mathematical shape of an older-form record.
pub ghost struct StatsV1View {
    pub address_chain: Seq<char>,
    pub address: Seq<char>,
    pub chain_id: int,
    pub current_streak: int,
    pub highest_streak: int,
    pub all_time_gm_count: int,
    pub last_gm_day: int,
    pub last_tx_hash: Option<Seq<char>>,
    pub fid: Option<int>,
    pub display_name: Option<Seq<char>>,
    pub username: Option<Seq<char>>,
    pub updated_at: int,
}

/// Mathematical shape of an extended-form record.
pub ghost struct StatsV2View {
    pub address_chain: Seq<char>,
    pub address: Seq<char>,
    pub chain_id: int,
    pub current_streak: int,
    pub highest_streak: int,
    pub all_time_gm_count: int,
    pub last_gm_day: int,
    pub last_tx_hash: Option<Seq<char>>,
    pub fid: Option<int>,
    pub display_name: Option<Seq<char>>,
    pub username: Option<Seq<char>>,
    pub pfp_url: Option<Seq<char>>,
    pub primary_wallet: Option<Seq<char>>,
    pub updated_at: int,
}

impl View for GmStatsByAddress {
    type V = StatsV1View;

    open spec fn view(&self) -> StatsV1View {
        StatsV1View {
            address_chain: self.address_chain@,
            address: self.address@,
            chain_id: self.chain_id as int,
            current_streak: self.current_streak as int,
            highest_streak: self.highest_streak as int,
            all_time_gm_count: self.all_time_gm_count as int,
            last_gm_day: self.last_gm_day as int,
            last_tx_hash: opt_str_view(self.last_tx_hash),
            fid: opt_int_view(self.fid),
            display_name: opt_str_view(self.display_name),
            username: opt_str_view(self.username),
            updated_at: self.updated_at as int,
        }
    }
}

impl View for GmStatsByAddressV2 {
    type V = StatsV2View;

    open spec fn view(&self) -> StatsV2View {
        StatsV2View {
            address_chain: self.address_chain@,
            address: self.address@,
            chain_id: self.chain_id as int,
            current_streak: self.current_streak as int,
            highest_streak: self.highest_streak as int,
            all_time_gm_count: self.all_time_gm_count as int,
            last_gm_day: self.last_gm_day as int,
            last_tx_hash: opt_str_view(self.last_tx_hash),
            fid: opt_int_view(self.fid),
            display_name: opt_str_view(self.display_name),
            username: opt_str_view(self.username),
            pfp_url: opt_str_view(self.pfp_url),
            primary_wallet: opt_str_view(self.primary_wallet),
            updated_at: self.updated_at as int,
        }
    }
}

/// Image of an older-form record under the one-way upgrade: every shared
/// field copied one for one, the two extended-only fields absent.
pub open spec fn migrate_spec(r: StatsV1View) -> StatsV2View {
    StatsV2View {
        address_chain: r.address_chain,
        address: r.address,
        chain_id: r.chain_id,
        current_streak: r.current_streak,
        highest_streak: r.highest_streak,
        all_time_gm_count: r.all_time_gm_count,
        last_gm_day: r.last_gm_day,
        last_tx_hash: r.last_tx_hash,
        fid: r.fid,
        display_name: r.display_name,
        username: r.username,
        pfp_url: None,
        primary_wallet: None,
        updated_at: r.updated_at,
    }
}

/// Image of an extended record in the older shape: the two extended-only
/// fields dropped, everything else copied one for one.
pub open spec fn project_spec(r: StatsV2View) -> StatsV1View {
    StatsV1View {
        address_chain: r.address_chain,
        address: r.address,
        chain_id: r.chain_id,
        current_streak: r.current_streak,
        highest_streak: r.highest_streak,
        all_time_gm_count: r.all_time_gm_count,
        last_gm_day: r.last_gm_day,
        last_tx_hash: r.last_tx_hash,
        fid: r.fid,
        display_name: r.display_name,
        username: r.username,
        updated_at: r.updated_at,
    }
}

/// Copies an optional string.
pub fn clone_opt_string(o: &Option<String>) -> (r: Option<String>)
    ensures
        opt_str_view(r) == opt_str_view(*o),
{
    match o {
        Some(s) => Some(s.clone()),
        None => None,
    }
}

/// Builds the extended record that stands for an older-form record.
pub fn migrate_record(old_stats: &GmStatsByAddress) -> (r: GmStatsByAddressV2)
    ensures
        r@ == migrate_spec(old_stats@),
{
    GmStatsByAddressV2 {
        address_chain: old_stats.address_chain.clone(),
        address: old_stats.address.clone(),
        chain_id: old_stats.chain_id,
        current_streak: old_stats.current_streak,
        highest_streak: old_stats.highest_streak,
        all_time_gm_count: old_stats.all_time_gm_count,
        last_gm_day: old_stats.last_gm_day,
        last_tx_hash: clone_opt_string(&old_stats.last_tx_hash),
        fid: old_stats.fid,
        display_name: clone_opt_string(&old_stats.display_name),
        username: clone_opt_string(&old_stats.username),
        pfp_url: None,
        primary_wallet: None,
        updated_at: old_stats.updated_at,
    }
}

/// Builds the older-shape projection of an extended record.
pub fn project_record(stats: &GmStatsByAddressV2) -> (r: GmStatsByAddress)
    ensures
        r@ == project_spec(stats@),
{
    GmStatsByAddress {
        address_chain: stats.address_chain.clone(),
        address: stats.address.clone(),
        chain_id: stats.chain_id,
        current_streak: stats.current_streak,
        highest_streak: stats.highest_streak,
        all_time_gm_count: stats.all_time_gm_count,
        last_gm_day: stats.last_gm_day,
        last_tx_hash: clone_opt_string(&stats.last_tx_hash),
        fid: stats.fid,
        display_name: clone_opt_string(&stats.display_name),
        username: clone_opt_string(&stats.username),
        updated_at: stats.updated_at,
    }
}

/// Copies an extended record without changing its mathematical view.
pub fn clone_v2_record(stats: &GmStatsByAddressV2) -> (r: GmStatsByAddressV2)
    ensures
        r@ == stats@,
{
    GmStatsByAddressV2 {
        address_chain: stats.address_chain.clone(),
        address: stats.address.clone(),
        chain_id: stats.chain_id,
        current_streak: stats.current_streak,
        highest_streak: stats.highest_streak,
        all_time_gm_count: stats.all_time_gm_count,
        last_gm_day: stats.last_gm_day,
        last_tx_hash: clone_opt_string(&stats.last_tx_hash),
        fid: stats.fid,
        display_name: clone_opt_string(&stats.display_name),
        username: clone_opt_string(&stats.username),
        pfp_url: clone_opt_string(&stats.pfp_url),
        primary_wallet: clone_opt_string(&stats.primary_wallet),
        updated_at: stats.updated_at,
    }
}

} // verus!
