use quavertrack::api::{APIError, QuaverResponse};
use quavertrack::cooldown::{check_cooldown, CooldownResult, MIN_SECONDS_BETWEEN_UPDATES};
use quavertrack::models::{
    APIModeStats, APIScore, APIStats, APIStatsUser, APIStatsUserInfo, APIUser, Beatmap,
    NewDBUser,
};
use quavertrack::resolve::{ResolveStep, Resolver, StoreOutcome};
use quavertrack::store::{MemoryStore, MemoryStoreError, SyncFailure};
use quavertrack::sync::{
    advance_after_failure, finish_update, join_fetches, pick_snapshots, split_scores, FetchedBundle,
    UpdateUserError,
};

fn beatmap(id: i64) -> Beatmap {
    Beatmap {
        id,
        mapset_id: id * 10,
        md5: format!("md5-{}", id),
        artist: "Artist".to_string(),
        title: format!("Title {}", id),
        difficulty_name: "Hard".to_string(),
        creator_id: 7,
        creator_username: "creator".to_string(),
        ranked_status: 2,
    }
}

fn score(id: i64, map_id: i64, mode: i16) -> APIScore {
    APIScore {
        id,
        time: 1_595_000_000_000 + id,
        mode,
        mods: 0,
        mods_string: "None".to_string(),
        performance_rating: 12.5f32.to_bits(),
        personal_best: true,
        is_donator_score: None,
        total_score: 900_000,
        accuracy: 97.25f32.to_bits(),
        grade: "A".to_string(),
        max_combo: 321,
        count_marv: 100,
        count_perf: 50,
        count_great: 10,
        count_good: 3,
        count_okay: 1,
        count_miss: 2,
        scroll_speed: 20,
        ratio: 1.5f32.to_bits(),
        map: beatmap(map_id),
    }
}

fn mode_stats(play_count: i64) -> APIModeStats {
    APIModeStats {
        global_rank: 7961,
        country_rank: 1889,
        multiplayer_win_rank: 4833,
        stats: APIStats {
            user_id: 19250,
            total_score: 133_582_330,
            ranked_score: 67_926_257,
            overall_accuracy: 89.57f32.to_bits(),
            overall_performance_rating: 50.27f32.to_bits(),
            play_count,
            fail_count: 80,
            max_combo: 503,
            replays_watched: 0,
            total_marv: 51038,
            total_perf: 30817,
            total_great: 7918,
            total_good: 2589,
            total_okay: 896,
            total_miss: 6688,
            total_pauses: 0,
            multiplayer_wins: 1,
            multiplayer_losses: 32,
            multiplayer_ties: 5,
        },
    }
}

fn stats_user(id: i64) -> APIStatsUser {
    APIStatsUser {
        info: APIStatsUserInfo {
            id,
            steam_id: Some("76561198098147167".to_string()),
            username: "ameo".to_string(),
            time_registered: Some(1_594_783_526_679),
            allowed: 1,
            privileges: 1,
            usergroups: 1,
            mute_endtime: None,
            latest_activity: "2020-08-08T21:50:39.855Z".to_string(),
            country: "US".to_string(),
            avatar_url: "https://example.invalid/a.jpg".to_string(),
            online: false,
        },
        activity_feed: Vec::new(),
        keys4: mode_stats(293),
        keys7: mode_stats(1),
    }
}

fn api_user(id: i64, username: &str) -> APIUser {
    APIUser {
        id,
        steam_id: None,
        username: username.to_string(),
        country: Some("US".to_string()),
        time_registered: Some(1_594_783_526_679),
        allowed: true,
        privileges: 1,
        usergroups: 1,
        mute_endtime: None,
        latest_activity: "2020-08-08T21:50:39.855Z".to_string(),
        avatar_url: None,
    }
}

fn new_user(id: i64, username: &str) -> NewDBUser {
    NewDBUser {
        id,
        username: username.to_string(),
        steam_id: None,
        time_registered: None,
        country: None,
        avatar_url: None,
    }
}

fn bundle(user_id: i64) -> FetchedBundle {
    FetchedBundle {
        stats: stats_user(user_id),
        recent_4k: vec![score(1, 100, 1), score(2, 101, 1)],
        best_4k: vec![score(2, 101, 1), score(3, 102, 1)],
        recent_7k: vec![score(4, 200, 2)],
        best_7k: vec![score(4, 200, 2), score(5, 100, 2)],
    }
}

fn store_with_user(id: i64, name: &str) -> MemoryStore {
    let mut store = MemoryStore::new();
    assert!(store.insert_user(new_user(id, name)));
    store
}

#[test]
fn first_sync_of_numeric_id_stores_two_snapshots_and_maps_before_scores() {
    let mut store = MemoryStore::new();
    let remote = api_user(19250, "ameo");
    let (mut resolver, step) = Resolver::start("19250");
    assert!(matches!(step, ResolveStep::FindIdByUsername(ref u) if u == "19250"));
    let step = resolver.on_id_by_username(store.user_id_by_username("19250"));
    assert!(matches!(step, ResolveStep::FindUsernameById(19250)));
    let step = resolver.on_username_by_id(store.username_by_user_id(19250));
    assert!(matches!(step, ResolveStep::LookupRemote(ref q) if q == "19250"));
    let row = match resolver.on_remote(Some(remote)) {
        ResolveStep::StoreUser(row) => row,
        _ => panic!("expected a user row to store"),
    };
    let outcome = if store.insert_user(row) { StoreOutcome::Stored } else { StoreOutcome::AlreadyPresent };
    let resolved = match resolver.on_stored(outcome) {
        Ok(ResolveStep::Resolved(Some(pair))) => pair,
        _ => panic!("expected a resolved user"),
    };
    assert_eq!(resolved, ("ameo".to_string(), 19250));
    assert_eq!(store.user(19250).unwrap().last_synced_at, None);

    let b = join_fetches(
        Ok(Some(stats_user(19250))),
        Ok(Some(vec![score(1, 100, 1)])),
        Ok(Some(vec![score(2, 101, 1)])),
        Ok(Some(vec![score(3, 200, 2)])),
        Ok(Some(vec![score(4, 201, 2)])),
    );
    let b = match b {
        Ok(b) => b,
        Err(_) => panic!("all five fetches succeeded"),
    };
    let now = 1_600_000_000_000;
    let data = match store.store_sync(19250, b, now) {
        Ok(d) => d,
        Err(_) => panic!("storage should succeed"),
    };
    let rows = store.stats_updates();
    assert_eq!(rows.len(), 2);
    assert_eq!(rows[0].mode, 1);
    assert_eq!(rows[1].mode, 2);
    assert_eq!(rows[0].play_count, 293);
    assert_eq!(rows[1].play_count, 1);
    assert_eq!(data.stats_4k.play_count, 293);
    assert_eq!(data.stats_7k.play_count, 1);
    assert_eq!(data.stats_4k.recorded_at, now);
    assert_eq!(store.user(19250).unwrap().last_synced_at, Some(now));
    assert_eq!(store.score_count(), 4);
    assert_eq!(store.map_count(), 4);
    for id in 1..=4 {
        let s = store.get_score(id).unwrap();
        assert!(store.get_map(s.map_id).is_some());
    }
    assert_eq!(data.new_scores.len(), 4);
    assert_eq!(data.maps.len(), 4);
}

#[test]
fn resolving_unknown_name_makes_one_remote_lookup_and_stores_lowercase_user() {
    let mut store = MemoryStore::new();
    let mut remote_calls = 0;
    let (mut resolver, mut step) = Resolver::start("ameo");
    let resolved = loop {
        step = match step {
            ResolveStep::FindIdByUsername(name) => {
                resolver.on_id_by_username(store.user_id_by_username(&name))
            }
            ResolveStep::FindUsernameById(id) => {
                resolver.on_username_by_id(store.username_by_user_id(id))
            }
            ResolveStep::LookupRemote(q) => {
                remote_calls += 1;
                assert_eq!(q, "ameo");
                resolver.on_remote(Some(api_user(19250, "Ameo")))
            }
            ResolveStep::StoreUser(row) => {
                let outcome =
                    if store.insert_user(row) { StoreOutcome::Stored } else { StoreOutcome::AlreadyPresent };
                match resolver.on_stored(outcome) {
                    Ok(next) => next,
                    Err(_) => panic!("storing the user should not fail"),
                }
            }
            ResolveStep::Resolved(r) => break r,
        };
    };
    assert_eq!(remote_calls, 1);
    assert_eq!(resolved, Some(("ameo".to_string(), 19250)));
    let row = store.user(19250).unwrap();
    assert_eq!(row.username, "ameo");
    assert_eq!(store.user_id_by_username("ameo"), Some(19250));
}

#[test]
fn not_found_on_seven_key_best_scores_fails_whole_sync_and_writes_nothing() {
    let mut store = store_with_user(19250, "ameo");
    let r = store.synchronize(
        19250,
        Ok(Some(stats_user(19250))),
        Ok(Some(vec![score(1, 100, 1)])),
        Ok(Some(vec![score(2, 101, 1)])),
        Ok(Some(vec![score(3, 200, 2)])),
        Ok(None),
        1_000,
    );
    assert!(matches!(r, Err(SyncFailure::Fetch(UpdateUserError::NotFound))));
    assert_eq!(store.map_count(), 0);
    assert_eq!(store.score_count(), 0);
    assert_eq!(store.stats_updates().len(), 0);
    assert_eq!(store.user(19250).unwrap().last_synced_at, None);
}

#[test]
fn second_request_three_seconds_later_is_rejected_with_seven_seconds() {
    let mut store = store_with_user(19250, "ameo");
    let first = 1_600_000_000_000;
    assert_eq!(check_cooldown(store.last_update_timestamp(19250), first, 10), CooldownResult::Allowed);
    assert!(store.store_sync(19250, bundle(19250), first).is_ok());
    let second = first + 3_000;
    assert_eq!(
        check_cooldown(store.last_update_timestamp(19250), second, MIN_SECONDS_BETWEEN_UPDATES),
        CooldownResult::Blocked(7)
    );
}

#[test]
fn storing_same_bundle_twice_keeps_maps_and_scores_and_appends_snapshots() {
    let mut store = store_with_user(19250, "ameo");
    let first = match store.store_sync(19250, bundle(19250), 1_000) {
        Ok(d) => d,
        Err(_) => panic!("first storage should succeed"),
    };
    let maps_after_first = store.map_count();
    let scores_after_first = store.score_count();
    assert_eq!(maps_after_first, 4);
    assert_eq!(scores_after_first, 5);
    assert_eq!(first.new_scores.len(), 5);
    assert_eq!(store.stats_updates().len(), 2);
    let second = match store.store_sync(19250, bundle(19250), 20_000) {
        Ok(d) => d,
        Err(_) => panic!("second storage should succeed"),
    };
    assert_eq!(store.map_count(), maps_after_first);
    assert_eq!(store.score_count(), scores_after_first);
    assert_eq!(second.new_scores.len(), 0);
    assert_eq!(store.stats_updates().len(), 4);
    assert!(store.stats_updates()[2].id > store.stats_updates()[1].id);
}

#[test]
fn first_of_duplicate_scores_in_one_bundle_wins() {
    let mut store = store_with_user(19250, "ameo");
    let mut changed = score(2, 101, 1);
    changed.total_score = 1;
    let b = FetchedBundle {
        stats: stats_user(19250),
        recent_4k: vec![score(2, 101, 1)],
        best_4k: vec![changed],
        recent_7k: vec![],
        best_7k: vec![],
    };
    let data = match store.store_sync(19250, b, 5) {
        Ok(d) => d,
        Err(_) => panic!("storage should succeed"),
    };
    assert_eq!(store.get_score(2).unwrap().total_score, 900_000);
    assert_eq!(data.new_scores.len(), 1);
}

#[test]
fn last_synced_at_never_goes_back() {
    let mut store = store_with_user(19250, "ameo");
    assert!(store.store_sync(19250, bundle(19250), 50_000).is_ok());
    assert_eq!(store.user(19250).unwrap().last_synced_at, Some(50_000));
    assert!(store.store_sync(19250, bundle(19250), 40_000).is_ok());
    assert_eq!(store.user(19250).unwrap().last_synced_at, Some(50_000));
    store.mark_synced(19250, 60_000);
    assert_eq!(store.user(19250).unwrap().last_synced_at, Some(60_000));
    store.mark_synced(19250, 10);
    assert_eq!(store.user(19250).unwrap().last_synced_at, Some(60_000));
}

#[test]
fn cooldown_remaining_seconds_are_rounded_down() {
    let t = 1_000_000;
    assert_eq!(check_cooldown(Some(t), t + 3_500, 10), CooldownResult::Blocked(6));
    assert_eq!(check_cooldown(Some(t), t, 10), CooldownResult::Blocked(10));
    assert_eq!(check_cooldown(Some(t), t + 9_999, 10), CooldownResult::Blocked(0));
    assert_eq!(check_cooldown(Some(t), t + 10_000, 10), CooldownResult::Allowed);
    assert_eq!(check_cooldown(Some(t), t + 60_000, 10), CooldownResult::Allowed);
    assert_eq!(check_cooldown(None, t, 10), CooldownResult::Allowed);
    assert_eq!(check_cooldown(Some(i64::MAX), i64::MIN, u32::MAX), CooldownResult::Blocked(18_446_748_368_676_846));
}

#[test]
fn cooldown_uses_latest_snapshot_of_any_mode() {
    let mut store = store_with_user(19250, "ameo");
    assert_eq!(store.last_update_timestamp(19250), None);
    assert!(store.store_sync(19250, bundle(19250), 30_000).is_ok());
    assert!(store.store_sync(19250, bundle(19250), 10_000).is_ok());
    assert_eq!(store.last_update_timestamp(19250), Some(30_000));
    assert_eq!(check_cooldown(store.last_update_timestamp(19250), 31_000, 10), CooldownResult::Blocked(9));
}

#[test]
fn every_stored_score_has_its_map() {
    let mut store = store_with_user(19250, "ameo");
    assert!(store.store_sync(19250, bundle(19250), 1).is_ok());
    for id in 1..=5 {
        let s = store.get_score(id).unwrap();
        let m = store.get_map(s.map_id).unwrap();
        assert_eq!(m.id, s.map_id);
    }
    assert_eq!(store.get_score(5).unwrap().map_id, 100);
    assert_eq!(store.get_score(5).unwrap().user_id, 19250);
}

#[test]
fn storage_for_unknown_user_writes_nothing() {
    let mut store = MemoryStore::new();
    assert!(matches!(store.store_sync(19250, bundle(19250), 1), Err(MemoryStoreError::UnknownUser(19250))));
    let mut store = store_with_user(19250, "ameo");
    assert!(store.insert_user(new_user(5, "five")));
    assert!(matches!(store.store_sync(19250, bundle(5), 1), Err(MemoryStoreError::RecordMismatch(5))));
    assert_eq!(store.map_count(), 0);
    assert_eq!(store.score_count(), 0);
    assert_eq!(store.stats_updates().len(), 0);
    assert_eq!(store.user(19250).unwrap().last_synced_at, None);
}

#[test]
fn empty_bundle_stores_only_snapshots() {
    let mut store = store_with_user(3, "x");
    let b = FetchedBundle {
        stats: stats_user(3),
        recent_4k: vec![],
        best_4k: vec![],
        recent_7k: vec![],
        best_7k: vec![],
    };
    let data = match store.store_sync(3, b, 9) {
        Ok(d) => d,
        Err(_) => panic!("storage should succeed"),
    };
    assert_eq!(store.stats_updates().len(), 2);
    assert_eq!(store.map_count(), 0);
    assert!(data.maps.is_empty());
    assert!(data.new_scores.is_empty());
}

#[test]
fn join_reports_first_failure_in_order() {
    let r = join_fetches(
        Ok(None),
        Err(APIError::BadStatus(500)),
        Ok(Some(vec![])),
        Ok(Some(vec![])),
        Ok(Some(vec![])),
    );
    assert!(matches!(r, Err(UpdateUserError::NotFound)));
    let r = join_fetches(
        Ok(Some(stats_user(1))),
        Err(APIError::BadStatus(500)),
        Ok(None),
        Ok(Some(vec![])),
        Ok(Some(vec![])),
    );
    assert!(matches!(r, Err(UpdateUserError::APIError(APIError::BadStatus(500)))));
    let r = join_fetches(
        Ok(Some(stats_user(1))),
        Ok(Some(vec![score(1, 1, 1)])),
        Ok(Some(vec![])),
        Ok(Some(vec![])),
        Ok(Some(vec![score(2, 2, 2)])),
    );
    match r {
        Ok(b) => {
            assert_eq!(b.recent_4k.len(), 1);
            assert_eq!(b.best_7k[0].id, 2);
        }
        Err(_) => panic!("all five fetches succeeded"),
    }
}

#[test]
fn bundle_parts_keep_order_and_duplicates() {
    let (stats, all) = bundle(19250).into_parts();
    assert_eq!(stats.info.id, 19250);
    let ids: Vec<i64> = all.iter().map(|s| s.id).collect();
    assert_eq!(ids, vec![1, 2, 2, 3, 4, 4, 5]);
}

#[test]
fn split_scores_pairs_each_score_with_its_map() {
    let (maps, db_scores) = split_scores(42, vec![score(1, 100, 1), score(9, 300, 2)]);
    assert_eq!(maps.len(), 2);
    assert_eq!(maps[1].id, 300);
    assert_eq!(db_scores[1].id, 9);
    assert_eq!(db_scores[1].map_id, 300);
    assert_eq!(db_scores[1].user_id, 42);
    assert_eq!(db_scores[1].mode, 2);
    assert_eq!(f32::from_bits(db_scores[0].performance_rating), 12.5);
}

#[test]
fn not_found_reads_as_absence_and_advances_batch_pick() {
    assert!(matches!(finish_update(Err(UpdateUserError::NotFound)), Ok(None)));
    assert!(matches!(
        finish_update(Err(UpdateUserError::APIError(APIError::BadStatus(3)))),
        Err(UpdateUserError::APIError(APIError::BadStatus(3)))
    ));
    assert!(advance_after_failure(&UpdateUserError::NotFound));
    assert!(!advance_after_failure(&UpdateUserError::APIError(APIError::BadStatus(502))));
    assert!(!advance_after_failure(&UpdateUserError::DBError(diesel::result::Error::NotFound)));
}

#[test]
fn batch_pick_prefers_never_synced_then_oldest() {
    let mut store = MemoryStore::new();
    assert_eq!(store.least_recently_synced(), None);
    assert!(store.insert_user(new_user(1, "a")));
    assert!(store.insert_user(new_user(2, "b")));
    assert!(store.insert_user(new_user(3, "c")));
    assert_eq!(store.least_recently_synced(), Some(1));
    store.mark_synced(1, 500);
    assert_eq!(store.least_recently_synced(), Some(2));
    store.mark_synced(2, 300);
    store.mark_synced(3, 400);
    assert_eq!(store.least_recently_synced(), Some(2));
    store.mark_synced(2, 600);
    assert_eq!(store.least_recently_synced(), Some(3));
}

#[test]
fn user_insert_conflicts_on_id_or_name() {
    let mut store = store_with_user(1, "a");
    assert!(!store.insert_user(new_user(1, "other")));
    assert!(!store.insert_user(new_user(2, "a")));
    assert!(store.insert_user(new_user(2, "b")));
    assert_eq!(store.username_by_user_id(2), Some("b".to_string()));
    assert_eq!(store.username_by_user_id(3), None);
    assert_eq!(store.user_id_by_username("c"), None);
}

#[test]
fn envelope_success_and_errors() {
    let r = QuaverResponse::Success(5u8).success();
    assert!(matches!(r, Ok(Some(5))));
    let r = QuaverResponse::<u8>::Error { status: 404, error: "nope".to_string() }.success();
    assert!(matches!(r, Ok(None)));
    let r = QuaverResponse::<u8>::Error { status: 500, error: "boom".to_string() }.success();
    match r {
        Err(APIError::QuaverAPIError { status, error }) => {
            assert_eq!(status, 500);
            assert_eq!(error, "boom");
        }
        _ => panic!("expected the service's error"),
    }
}

#[test]
fn store_outcome_reads_insert_results() {
    assert!(matches!(StoreOutcome::from_insert(Ok(1)), StoreOutcome::Stored));
    let conflict = diesel::result::Error::DatabaseError(
        diesel::result::DatabaseErrorKind::UniqueViolation,
        Box::new("duplicate key".to_string()),
    );
    assert!(matches!(StoreOutcome::from_insert(Err(conflict)), StoreOutcome::AlreadyPresent));
    assert!(matches!(
        StoreOutcome::from_insert(Err(diesel::result::Error::NotFound)),
        StoreOutcome::Failed(diesel::result::Error::NotFound)
    ));
}

#[test]
fn resolver_store_race_and_failures() {
    let (mut resolver, _) = Resolver::start("Someone");
    assert!(matches!(resolver.on_id_by_username(None), ResolveStep::LookupRemote(ref q) if q == "Someone"));
    let row = match resolver.on_remote(Some(api_user(8, "SomeOne"))) {
        ResolveStep::StoreUser(row) => row,
        _ => panic!("expected a user row to store"),
    };
    assert_eq!(row.username, "someone");
    assert_eq!(row.id, 8);
    assert_eq!(row.country, Some("US".to_string()));
    assert!(matches!(
        resolver.on_stored(StoreOutcome::AlreadyPresent),
        Ok(ResolveStep::Resolved(Some((ref n, 8)))) if n == "someone"
    ));
    assert!(matches!(
        resolver.on_stored(StoreOutcome::Failed(diesel::result::Error::NotFound)),
        Err(UpdateUserError::DBError(_))
    ));
    let (mut nobody, _) = Resolver::start("nobody");
    assert!(matches!(nobody.on_remote(None), ResolveStep::Resolved(None)));
}

#[test]
fn resolver_hits_local_store_first() {
    let store = store_with_user(19250, "ameo");
    let (resolver, _) = Resolver::start("ameo");
    assert!(matches!(
        resolver.on_id_by_username(store.user_id_by_username("ameo")),
        ResolveStep::Resolved(Some((ref n, 19250))) if n == "ameo"
    ));
    let (resolver, _) = Resolver::start("19250");
    let step = resolver.on_id_by_username(store.user_id_by_username("19250"));
    assert!(matches!(step, ResolveStep::FindUsernameById(19250)));
    assert!(matches!(
        resolver.on_username_by_id(store.username_by_user_id(19250)),
        ResolveStep::Resolved(Some((ref n, 19250))) if n == "ameo"
    ));
    assert!(matches!(resolver.on_username_by_id(None), ResolveStep::LookupRemote(ref q) if q == "19250"));
}

#[test]
fn stats_history_is_ascending_by_recorded_time_per_mode() {
    let mut store = store_with_user(19250, "ameo");
    assert!(store.insert_user(new_user(2, "other")));
    assert!(store.store_sync(19250, bundle(19250), 3_000).is_ok());
    assert!(store.store_sync(19250, bundle(19250), 1_000).is_ok());
    assert!(store.store_sync(2, bundle(2), 500).is_ok());
    assert!(store.store_sync(19250, bundle(19250), 2_000).is_ok());
    let history = store.stats_history(19250, 1);
    let times: Vec<i64> = history.iter().map(|u| u.recorded_at).collect();
    assert_eq!(times, vec![1_000, 2_000, 3_000]);
    assert!(history.iter().all(|u| u.mode == 1 && u.user_id == 19250));
    assert_eq!(store.stats_history(19250, 2).len(), 3);
    assert_eq!(store.stats_history(2, 2).len(), 1);
    assert!(store.stats_history(3, 1).is_empty());
}

#[test]
fn batch_caller_advances_time_after_not_found() {
    let mut store = store_with_user(19250, "ameo");
    let r = store.synchronize(
        19250,
        Ok(None),
        Ok(Some(vec![])),
        Ok(Some(vec![])),
        Ok(Some(vec![])),
        Ok(Some(vec![])),
        7_000,
    );
    let err = match r {
        Err(SyncFailure::Fetch(e)) => e,
        _ => panic!("expected a fetch failure"),
    };
    assert_eq!(store.user(19250).unwrap().last_synced_at, None);
    assert!(advance_after_failure(&err));
    store.mark_synced(19250, 7_000);
    assert_eq!(store.user(19250).unwrap().last_synced_at, Some(7_000));
    assert_eq!(store.stats_updates().len(), 0);
}

#[test]
fn snapshots_are_picked_by_mode() {
    let mut store = store_with_user(19250, "ameo");
    let (a, b) = match store.store_stats_update(stats_user(19250), 5) {
        Ok(rows) => rows,
        Err(_) => panic!("storage should succeed"),
    };
    let picked = pick_snapshots(&vec![b, a]);
    assert!(matches!(picked, Some((x, y)) if x.mode == 1 && y.mode == 2 && x.id == a.id && y.id == b.id));
    assert!(pick_snapshots(&vec![a, a]).is_none());
    assert!(pick_snapshots(&vec![]).is_none());
}

#[test]
fn synchronize_remote_error_changes_nothing() {
    let mut store = store_with_user(19250, "ameo");
    let r = store.synchronize(
        19250,
        Ok(Some(stats_user(19250))),
        Err(APIError::BadStatus(500)),
        Ok(Some(vec![])),
        Ok(Some(vec![])),
        Ok(Some(vec![])),
        7_000,
    );
    assert!(matches!(r, Err(SyncFailure::Fetch(UpdateUserError::APIError(APIError::BadStatus(500))))));
    assert_eq!(store.stats_updates().len(), 0);
    assert_eq!(store.user(19250).unwrap().last_synced_at, None);
}

#[test]
fn synchronize_success_stores_bundle_for_the_user() {
    let mut store = store_with_user(19250, "ameo");
    let r = store.synchronize(
        19250,
        Ok(Some(stats_user(19250))),
        Ok(Some(vec![score(1, 100, 1)])),
        Ok(Some(vec![score(2, 101, 1)])),
        Ok(Some(vec![score(3, 200, 2)])),
        Ok(Some(vec![score(4, 201, 2)])),
        8_000,
    );
    match r {
        Ok(d) => {
            assert_eq!((d.stats_4k.mode, d.stats_4k.user_id, d.stats_4k.play_count), (1, 19250, 293));
            assert_eq!((d.stats_7k.mode, d.stats_7k.user_id, d.stats_7k.play_count), (2, 19250, 1));
        }
        Err(_) => panic!("synchronisation should succeed"),
    }
    assert_eq!(store.score_count(), 4);
    assert!(matches!(
        store.synchronize(7, Ok(Some(stats_user(7))), Ok(Some(vec![])), Ok(Some(vec![])), Ok(Some(vec![])), Ok(Some(vec![])), 9_000),
        Err(SyncFailure::Store(MemoryStoreError::UnknownUser(7)))
    ));
}

#[test]
fn storing_same_snapshot_twice_appends_two_rows_each_time() {
    let mut store = store_with_user(19250, "ameo");
    let first = store.store_stats_update(stats_user(19250), 100);
    assert!(matches!(first, Ok((ref a, ref b)) if a.mode == 1 && b.mode == 2));
    let second = store.store_stats_update(stats_user(19250), 100);
    assert!(second.is_ok());
    let rows = store.stats_updates();
    assert_eq!(rows.len(), 4);
    assert_eq!(rows[0].play_count, rows[2].play_count);
    assert!(rows[2].id > rows[1].id);
    assert!(matches!(store.store_stats_update(stats_user(3), 100), Err(MemoryStoreError::UnknownUser(3))));
    assert_eq!(store.stats_updates().len(), 4);
}
