use gm_streaks::{pk_for, report_gm, GmDb, GmStatsByAddress, GmStatsByAddressV2};

fn report_day(db: &mut GmDb, address: &str, chain_id: i32, day: i32, now: i64) {
    let r = report_gm(
        db,
        address.to_string(),
        chain_id,
        day,
        None,
        None,
        None,
        None,
        None,
        None,
        now,
    );
    assert!(r.is_ok());
}

fn counters(db: &GmDb, key: &str) -> (i32, i32, i32, i32) {
    let rec = db.v2.get(key).expect("record must exist");
    (
        rec.current_streak,
        rec.highest_streak,
        rec.all_time_gm_count,
        rec.last_gm_day,
    )
}

fn v1_counters(db: &GmDb, key: &str) -> (i32, i32, i32, i32) {
    let rec = db.v1.get(key).expect("record must exist");
    (
        rec.current_streak,
        rec.highest_streak,
        rec.all_time_gm_count,
        rec.last_gm_day,
    )
}

#[test]
fn fresh_key_scenario() {
    let mut db = GmDb::new();
    let key = pk_for("alice", 1);

    report_day(&mut db, "alice", 1, 100, 10);
    assert_eq!(counters(&db, key.as_str()), (1, 1, 1, 100));

    report_day(&mut db, "alice", 1, 101, 11);
    assert_eq!(counters(&db, key.as_str()), (2, 2, 2, 101));

    // duplicate day: unchanged
    report_day(&mut db, "alice", 1, 101, 12);
    assert_eq!(counters(&db, key.as_str()), (2, 2, 2, 101));

    // gap: reset, but the maximum is retained from history
    report_day(&mut db, "alice", 1, 150, 13);
    assert_eq!(counters(&db, key.as_str()), (1, 2, 3, 150));
}

#[test]
fn idempotent_replay() {
    let mut db = GmDb::new();
    let key = pk_for("bob", 7);
    report_day(&mut db, "bob", 7, 42, 1);
    let before = counters(&db, key.as_str());
    report_day(&mut db, "bob", 7, 42, 2);
    assert_eq!(counters(&db, key.as_str()), before);
    // replaying may still fill previously absent metadata
    let r = report_gm(
        &mut db,
        "bob".to_string(),
        7,
        42,
        None,
        None,
        Some("Bob".to_string()),
        None,
        None,
        None,
        3,
    );
    assert!(r.is_ok());
    assert_eq!(counters(&db, key.as_str()), before);
    let rec = db.v2.get(key.as_str()).unwrap();
    assert_eq!(rec.display_name.as_deref(), Some("Bob"));
}

#[test]
fn continuation_increments_by_one() {
    let mut db = GmDb::new();
    let key = pk_for("carol", 1);
    report_day(&mut db, "carol", 1, 5, 1);
    report_day(&mut db, "carol", 1, 6, 2);
    report_day(&mut db, "carol", 1, 7, 3);
    assert_eq!(counters(&db, key.as_str()), (3, 3, 3, 7));
}

#[test]
fn reset_on_gap() {
    let mut db = GmDb::new();
    let key = pk_for("dave", 1);
    report_day(&mut db, "dave", 1, 10, 1);
    report_day(&mut db, "dave", 1, 11, 2);
    // gap of exactly two days
    report_day(&mut db, "dave", 1, 13, 3);
    assert_eq!(counters(&db, key.as_str()), (1, 2, 3, 13));
    // a much larger gap also resets
    report_day(&mut db, "dave", 1, 14, 4);
    report_day(&mut db, "dave", 1, 1000, 5);
    assert_eq!(counters(&db, key.as_str()), (1, 2, 5, 1000));
}

#[test]
fn out_of_order_day_is_ignored() {
    let mut db = GmDb::new();
    let key = pk_for("erin", 1);
    report_day(&mut db, "erin", 1, 50, 1);
    report_day(&mut db, "erin", 1, 51, 2);
    report_day(&mut db, "erin", 1, 3, 3);
    assert_eq!(counters(&db, key.as_str()), (2, 2, 2, 51));
    // the stamp still moves on a late report
    assert_eq!(db.v2.get(key.as_str()).unwrap().updated_at, 3);
}

#[test]
fn monotone_maximum_over_sequence() {
    let mut db = GmDb::new();
    let key = pk_for("frank", 1);
    let days = [1, 2, 3, 10, 11, 12, 13, 14];
    let mut now: i64 = 0;
    let mut seen_max = 0;
    for d in days {
        report_day(&mut db, "frank", 1, d, now);
        now += 1;
        let (current, highest, _, _) = counters(&db, key.as_str());
        if current > seen_max {
            seen_max = current;
        }
        assert_eq!(highest, seen_max);
    }
    assert_eq!(counters(&db, key.as_str()), (5, 5, 8, 14));
}

#[test]
fn sticky_metadata() {
    let mut db = GmDb::new();
    let key = pk_for("grace", 1);
    let r = report_gm(
        &mut db,
        "grace".to_string(),
        1,
        1,
        Some("0xaaa".to_string()),
        Some(77),
        Some("A".to_string()),
        None,
        None,
        None,
        1,
    );
    assert!(r.is_ok());
    // absent values keep what is known
    report_day(&mut db, "grace", 1, 2, 2);
    let rec = db.v2.get(key.as_str()).unwrap();
    assert_eq!(rec.display_name.as_deref(), Some("A"));
    assert_eq!(rec.last_tx_hash.as_deref(), Some("0xaaa"));
    assert_eq!(rec.fid, Some(77));
    assert_eq!(rec.username, None);
    // a present value overwrites
    let r = report_gm(
        &mut db,
        "grace".to_string(),
        1,
        3,
        None,
        None,
        Some("B".to_string()),
        Some("grace_u".to_string()),
        Some("http://pfp".to_string()),
        Some("0xwallet".to_string()),
        3,
    );
    assert!(r.is_ok());
    let rec = db.v2.get(key.as_str()).unwrap();
    assert_eq!(rec.display_name.as_deref(), Some("B"));
    assert_eq!(rec.username.as_deref(), Some("grace_u"));
    assert_eq!(rec.pfp_url.as_deref(), Some("http://pfp"));
    assert_eq!(rec.primary_wallet.as_deref(), Some("0xwallet"));
    assert_eq!(rec.last_tx_hash.as_deref(), Some("0xaaa"));
    // the sticky fields flow into the older projection too
    let old = db.v1.get(key.as_str()).unwrap();
    assert_eq!(old.display_name.as_deref(), Some("B"));
    assert_eq!(old.username.as_deref(), Some("grace_u"));
}

#[test]
fn addresses_are_trimmed_to_one_key() {
    let mut db = GmDb::new();
    let key = pk_for("henry", 1);
    report_day(&mut db, "  henry  ", 1, 1, 1);
    report_day(&mut db, "henry", 1, 2, 2);
    report_day(&mut db, "\thenry\n", 1, 3, 3);
    assert_eq!(counters(&db, key.as_str()), (3, 3, 3, 3));
    assert_eq!(db.v2.get(key.as_str()).unwrap().address, "henry");
}

#[test]
fn degenerate_inputs_are_accepted() {
    let mut db = GmDb::new();
    // empty address, negative chain id, negative day: all accepted silently
    report_day(&mut db, "", -3, -5, 0);
    let key = pk_for("", -3);
    assert_eq!(key, ":-3");
    assert_eq!(counters(&db, key.as_str()), (1, 1, 1, -5));
    report_day(&mut db, "", -3, -4, 1);
    assert_eq!(counters(&db, key.as_str()), (2, 2, 2, -4));
}

#[test]
fn both_projections_stay_consistent() {
    let mut db = GmDb::new();
    let key = pk_for("ivy", 9);
    let r = report_gm(
        &mut db,
        "ivy".to_string(),
        9,
        20,
        Some("0xfeed".to_string()),
        None,
        None,
        None,
        Some("http://p".to_string()),
        None,
        100,
    );
    assert!(r.is_ok());
    report_day(&mut db, "ivy", 9, 21, 101);
    assert_eq!(counters(&db, key.as_str()), (2, 2, 2, 21));
    assert_eq!(v1_counters(&db, key.as_str()), (2, 2, 2, 21));
    let old = db.v1.get(key.as_str()).unwrap();
    let new = db.v2.get(key.as_str()).unwrap();
    assert_eq!(old.address_chain, new.address_chain);
    assert_eq!(old.address, new.address);
    assert_eq!(old.chain_id, new.chain_id);
    assert_eq!(old.last_tx_hash, new.last_tx_hash);
    assert_eq!(old.updated_at, new.updated_at);
    assert_eq!(old.updated_at, 101);
}

fn old_shape_record(address: &str, chain_id: i32) -> GmStatsByAddress {
    GmStatsByAddress {
        address_chain: pk_for(address, chain_id),
        address: address.to_string(),
        chain_id,
        current_streak: 4,
        highest_streak: 6,
        all_time_gm_count: 9,
        last_gm_day: 200,
        last_tx_hash: Some("0xold".to_string()),
        fid: Some(12),
        display_name: Some("Old Name".to_string()),
        username: Some("old_user".to_string()),
        updated_at: 77,
    }
}

#[test]
fn migration_preserves_old_fields() {
    let mut db = GmDb::new();
    db.insert_v1(old_shape_record("judy", 2));
    let key = pk_for("judy", 2);

    let resolved = gm_streaks::find_gm_stats(&mut db, &key).expect("must resolve");
    assert_eq!(resolved.address_chain, key);
    assert_eq!(resolved.address, "judy");
    assert_eq!(resolved.chain_id, 2);
    assert_eq!(resolved.current_streak, 4);
    assert_eq!(resolved.highest_streak, 6);
    assert_eq!(resolved.all_time_gm_count, 9);
    assert_eq!(resolved.last_gm_day, 200);
    assert_eq!(resolved.last_tx_hash.as_deref(), Some("0xold"));
    assert_eq!(resolved.fid, Some(12));
    assert_eq!(resolved.display_name.as_deref(), Some("Old Name"));
    assert_eq!(resolved.username.as_deref(), Some("old_user"));
    assert_eq!(resolved.pfp_url, None);
    assert_eq!(resolved.primary_wallet, None);
    assert_eq!(resolved.updated_at, 77);

    // the upgrade was persisted
    let stored = db.v2.get(key.as_str()).expect("migrated record persisted");
    assert_eq!(stored.current_streak, 4);
    assert_eq!(stored.pfp_url, None);

    // resolving again returns the persisted record, with no re-migration
    let again = gm_streaks::find_gm_stats(&mut db, &key).expect("still resolves");
    assert_eq!(again.current_streak, 4);
}

#[test]
fn update_after_migration_updates_old_projection() {
    let mut db = GmDb::new();
    db.insert_v1(old_shape_record("kate", 3));
    let key = pk_for("kate", 3);

    // first report through the new path: continuation of the old streak
    report_day(&mut db, "kate", 3, 201, 500);
    assert_eq!(counters(&db, key.as_str()), (5, 6, 10, 201));
    assert_eq!(v1_counters(&db, key.as_str()), (5, 6, 10, 201));
    let old = db.v1.get(key.as_str()).unwrap();
    assert_eq!(old.display_name.as_deref(), Some("Old Name"));
    assert_eq!(old.updated_at, 500);
}

#[test]
fn find_gm_stats_misses_unknown_key() {
    let mut db = GmDb::new();
    let key = pk_for("nobody", 1);
    assert!(gm_streaks::find_gm_stats(&mut db, &key).is_none());
    assert!(db.v1.get(key.as_str()).is_none());
    assert!(db.v2.get(key.as_str()).is_none());
}

#[test]
fn create_gm_stats_inserts_both_shapes() {
    let mut db = GmDb::new();
    gm_streaks::create_gm_stats(
        &mut db,
        " liam ".to_string(),
        4,
        33,
        None,
        Some(5),
        None,
        Some("liam_u".to_string()),
        Some("http://x".to_string()),
        None,
        9,
    );
    let key = pk_for("liam", 4);
    assert_eq!(counters(&db, key.as_str()), (1, 1, 1, 33));
    assert_eq!(v1_counters(&db, key.as_str()), (1, 1, 1, 33));
    let new = db.v2.get(key.as_str()).unwrap();
    assert_eq!(new.address, "liam");
    assert_eq!(new.pfp_url.as_deref(), Some("http://x"));
    let old = db.v1.get(key.as_str()).unwrap();
    assert_eq!(old.username.as_deref(), Some("liam_u"));
}

#[test]
fn update_gm_stats_writes_both_shapes() {
    let mut db = GmDb::new();
    report_day(&mut db, "mia", 6, 1, 1);
    let key = pk_for("mia", 6);
    let mut rec = gm_streaks::records::clone_v2_record(db.v2.get(key.as_str()).unwrap());
    rec.current_streak = 8;
    rec.highest_streak = 8;
    gm_streaks::update_gm_stats(&mut db, rec);
    assert_eq!(counters(&db, key.as_str()), (8, 8, 1, 1));
    assert_eq!(v1_counters(&db, key.as_str()), (8, 8, 1, 1));
}

#[test]
fn different_keys_do_not_interfere() {
    let mut db = GmDb::new();
    report_day(&mut db, "nina", 1, 10, 1);
    report_day(&mut db, "nina", 2, 30, 2);
    report_day(&mut db, "nina", 1, 11, 3);
    assert_eq!(counters(&db, pk_for("nina", 1).as_str()), (2, 2, 2, 11));
    assert_eq!(counters(&db, pk_for("nina", 2).as_str()), (1, 1, 1, 30));
}
