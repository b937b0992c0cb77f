//! The reducer-facing entry points: lazy migration on read, the dual-write
//! upsert, and unconditional creation.

use vstd::prelude::*;
use crate::key::{key_spec, pk_for, trim, trim_spec};
use crate::records::{
    GmStatsByAddressV2, StatsV2View, clone_v2_record, migrate_record, migrate_spec, opt_int_view,
    opt_str_view, project_record, project_spec,
};
use crate::store::GmDb;
use crate::streak::{advance, advance_spec, fresh_record, fresh_spec, merge_meta, merge_meta_spec};

verus! {

/// What a lookup of `k` resolves to: the extended record if one exists, else
/// the image of the older-shape record under migration, else nothing.
pub open spec fn resolve_spec(db: GmDb, k: Seq<char>) -> Option<StatsV2View> {
    if db.v2@.contains_key(k) {
        Some(db.v2@[k]@)
    } else if db.v1@.contains_key(k) {
        Some(migrate_spec(db.v1@[k]@))
    } else {
        None
    }
}

/// Resolves the record for a key, migrating lazily: an extended record is
/// returned as is; an older-shape record is upgraded (shared fields copied,
/// the two extended-only fields absent), the upgrade is persisted, and the
/// upgraded record is returned; otherwise nothing is returned and the store
/// is left untouched.
pub fn find_gm_stats(db: &mut GmDb, address_chain: &String) -> (r: Option<GmStatsByAddressV2>)
    requires
        old(db).wf(),
    ensures
        final(db).wf(),
        (match r {
            Some(rec) => resolve_spec(*old(db), address_chain@) == Some(rec@),
            None => resolve_spec(*old(db), address_chain@) is None,
        }),
        final(db).v1@ == old(db).v1@,
        old(db).v2@.contains_key(address_chain@) ==> final(db).v2@ == old(db).v2@,
        (!old(db).v2@.contains_key(address_chain@) && !old(db).v1@.contains_key(
            address_chain@,
        )) ==> final(db).v2@ == old(db).v2@,
        (!old(db).v2@.contains_key(address_chain@) && old(db).v1@.contains_key(
            address_chain@,
        )) ==> {
            &&& final(db).v2@.dom() == old(db).v2@.dom().insert(address_chain@)
            &&& final(db).v2@[address_chain@]@ == migrate_spec(old(db).v1@[address_chain@]@)
            &&& forall|k2: Seq<char>|
                k2 != address_chain@ && #[trigger] final(db).v2@.contains_key(k2)
                    ==> final(db).v2@[k2] == old(db).v2@[k2]
        },
{
    let hit: Option<GmStatsByAddressV2> = match db.find_v2(address_chain) {
        Some(stats) => Some(clone_v2_record(stats)),
        None => None,
    };
    if hit.is_some() {
        return hit;
    }
    let migrated: Option<GmStatsByAddressV2> = match db.find_v1(address_chain) {
        Some(old_stats) => Some(migrate_record(old_stats)),
        None => None,
    };
    match migrated {
        Some(migrated_stats) => {
            let ret = clone_v2_record(&migrated_stats);
            proof {
                assert(migrated_stats.address_chain@ == address_chain@);
            }
            db.insert_v2(migrated_stats);
            proof {
                assert(db.v2@.dom() =~= old(db).v2@.dom().insert(address_chain@));
                assert(db.wf());
            }
            Some(ret)
        },
        None => None,
    }
}

/// Writes an updated extended record back to both projections: the older
/// shape receives the record with the two extended-only fields dropped, the
/// extended shape receives it whole.  Both projections must already hold the
/// key; the engine signals a conflict otherwise.
pub fn update_gm_stats(db: &mut GmDb, stats: GmStatsByAddressV2)
    requires
        old(db).v1@.contains_key(stats.address_chain@),
        old(db).v2@.contains_key(stats.address_chain@),
    ensures
        final(db).v2@ == old(db).v2@.insert(stats.address_chain@, stats),
        final(db).v1@.dom() == old(db).v1@.dom(),
        final(db).v1@[stats.address_chain@]@ == project_spec(stats@),
        forall|k2: Seq<char>|
            k2 != stats.address_chain@ && #[trigger] final(db).v1@.contains_key(k2)
                ==> final(db).v1@[k2] == old(db).v1@[k2],
{
    let projected = project_record(&stats);
    db.update_v1(projected);
    db.update_v2(stats);
    proof {
        assert(db.v1@.dom() =~= old(db).v1@.dom());
    }
}

/// Creates the record for a never-seen key in both projections, all counters
/// starting at 1 and metadata taken as supplied.  The key derived from the
/// trimmed address must be absent from both projections; the engine signals
/// a conflict otherwise.
pub fn create_gm_stats(
    db: &mut GmDb,
    address: String,
    chain_id: i32,
    last_gm_day_onchain: i32,
    tx_hash: Option<String>,
    fid: Option<i64>,
    display_name: Option<String>,
    username: Option<String>,
    pfp_url: Option<String>,
    primary_wallet: Option<String>,
    now: i64,
)
    requires
        !old(db).v1@.contains_key(key_spec(trim_spec(address@), chain_id as int)),
        !old(db).v2@.contains_key(key_spec(trim_spec(address@), chain_id as int)),
    ensures
        ({
            let k = key_spec(trim_spec(address@), chain_id as int);
            let fresh = fresh_spec(
                trim_spec(address@),
                chain_id as int,
                last_gm_day_onchain as int,
                opt_str_view(tx_hash),
                opt_int_view(fid),
                opt_str_view(display_name),
                opt_str_view(username),
                opt_str_view(pfp_url),
                opt_str_view(primary_wallet),
                now as int,
            );
            &&& final(db).v1@.dom() == old(db).v1@.dom().insert(k)
            &&& final(db).v2@.dom() == old(db).v2@.dom().insert(k)
            &&& final(db).v1@[k]@ == project_spec(fresh)
            &&& final(db).v2@[k]@ == fresh
            &&& forall|k2: Seq<char>|
                k2 != k && #[trigger] final(db).v1@.contains_key(k2)
                    ==> final(db).v1@[k2] == old(db).v1@[k2]
            &&& forall|k2: Seq<char>|
                k2 != k && #[trigger] final(db).v2@.contains_key(k2)
                    ==> final(db).v2@[k2] == old(db).v2@[k2]
        }),
{
    let rec_v2 = fresh_record(
        address,
        chain_id,
        last_gm_day_onchain,
        tx_hash,
        fid,
        display_name,
        username,
        pfp_url,
        primary_wallet,
        now,
    );
    let rec_v1 = project_record(&rec_v2);
    db.insert_v1(rec_v1);
    db.insert_v2(rec_v2);
    proof {
        assert(db.v1@.dom() =~= old(db).v1@.dom().insert(
            key_spec(trim_spec(address@), chain_id as int),
        ));
        assert(db.v2@.dom() =~= old(db).v2@.dom().insert(
            key_spec(trim_spec(address@), chain_id as int),
        ));
    }
}

/// The dual-write upsert: trims the address, resolves (or lazily migrates)
/// the record for the derived key, runs the streak policy, merges metadata
/// stickily and stamps the update time, then writes both projections; a
/// never-seen key gets a fresh record in both projections instead.  Always
/// succeeds.
pub fn report_gm(
    db: &mut GmDb,
    address: String,
    chain_id: i32,
    last_gm_day_onchain: i32,
    tx_hash: Option<String>,
    fid: Option<i64>,
    display_name: Option<String>,
    username: Option<String>,
    pfp_url: Option<String>,
    primary_wallet: Option<String>,
    now: i64,
) -> (r: Result<(), String>)
    requires
        old(db).wf(),
        ({
            let k = key_spec(trim_spec(address@), chain_id as int);
            match resolve_spec(*old(db), k) {
                Some(s) => {
                    &&& (last_gm_day_onchain as int > s.last_gm_day ==> s.all_time_gm_count
                        < i32::MAX)
                    &&& (last_gm_day_onchain as int == s.last_gm_day + 1 ==> s.current_streak
                        < i32::MAX)
                },
                None => true,
            }
        }),
    ensures
        r is Ok,
        final(db).wf(),
        ({
            let k = key_spec(trim_spec(address@), chain_id as int);
            let day = last_gm_day_onchain as int;
            match resolve_spec(*old(db), k) {
                Some(s) => {
                    let updated = merge_meta_spec(
                        advance_spec(s, day),
                        opt_str_view(tx_hash),
                        opt_int_view(fid),
                        opt_str_view(display_name),
                        opt_str_view(username),
                        opt_str_view(pfp_url),
                        opt_str_view(primary_wallet),
                        now as int,
                    );
                    &&& final(db).v2@.dom() == old(db).v2@.dom().insert(k)
                    &&& final(db).v1@.dom() == old(db).v1@.dom()
                    &&& final(db).v2@[k]@ == updated
                    &&& final(db).v1@[k]@ == project_spec(updated)
                    &&& forall|k2: Seq<char>|
                        k2 != k && #[trigger] final(db).v2@.contains_key(k2)
                            ==> final(db).v2@[k2] == old(db).v2@[k2]
                    &&& forall|k2: Seq<char>|
                        k2 != k && #[trigger] final(db).v1@.contains_key(k2)
                            ==> final(db).v1@[k2] == old(db).v1@[k2]
                },
                None => {
                    let fresh = fresh_spec(
                        trim_spec(address@),
                        chain_id as int,
                        day,
                        opt_str_view(tx_hash),
                        opt_int_view(fid),
                        opt_str_view(display_name),
                        opt_str_view(username),
                        opt_str_view(pfp_url),
                        opt_str_view(primary_wallet),
                        now as int,
                    );
                    &&& final(db).v1@.dom() == old(db).v1@.dom().insert(k)
                    &&& final(db).v2@.dom() == old(db).v2@.dom().insert(k)
                    &&& final(db).v2@[k]@ == fresh
                    &&& final(db).v1@[k]@ == project_spec(fresh)
                    &&& forall|k2: Seq<char>|
                        k2 != k && #[trigger] final(db).v2@.contains_key(k2)
                            ==> final(db).v2@[k2] == old(db).v2@[k2]
                    &&& forall|k2: Seq<char>|
                        k2 != k && #[trigger] final(db).v1@.contains_key(k2)
                            ==> final(db).v1@[k2] == old(db).v1@[k2]
                },
            }
        }),
        // the two projections agree at the touched key
        ({
            let k = key_spec(trim_spec(address@), chain_id as int);
            final(db).v1@[k]@ == project_spec(final(db).v2@[k]@)
        }),
{
    let addr = trim(address.as_str());
    let pk = pk_for(addr.as_str(), chain_id);
    let found = find_gm_stats(db, &pk);
    match found {
        Some(stats) => {
            let stats = advance(stats, last_gm_day_onchain);
            let stats = merge_meta(
                stats,
                tx_hash,
                fid,
                display_name,
                username,
                pfp_url,
                primary_wallet,
                now,
            );
            update_gm_stats(db, stats);
        },
        None => {
            create_gm_stats(
                db,
                address,
                chain_id,
                last_gm_day_onchain,
                tx_hash,
                fid,
                display_name,
                username,
                pfp_url,
                primary_wallet,
                now,
            );
        },
    }
    Ok(())
}

} // verus!
