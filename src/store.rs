//! An in-memory store with the storage rules of the engine: charts and scores
//! are stored insert-or-ignore by id, snapshots are appended, every stored score
//! refers to a stored chart, and a user's last synchronisation time never goes back.
use vstd::prelude::*;
use vstd::seq_lib::{to_multiset_build, to_multiset_insert};
use std::collections::HashMap;
use crate::api::APIError;
use crate::models::{
    MODE_KEYS4, MODE_KEYS7, APIScore, APIStatsUser, Beatmap, DBScore, DBStatsUpdate, NewDBStatsUpdate, NewDBUser, stats_rows,
};
use crate::sync::{
    FetchedBundle, UpdateData, UpdateUserError, bundle_scores, join_fetches, joined, db_scores_of, index_maps, maps_by_id, maps_of,
    split_scores, unique_ids,
};
use crate::table::{
    fresh_rows, insert_or_ignore, lemma_insert_or_ignore_idempotent, lemma_insert_or_ignore_shape,
};

verus! {

/// A stored user.
pub struct UserRow {
    pub id: i64,
    pub username: String,
    pub steam_id: Option<String>,
    pub time_registered: Option<i64>,
    pub country: Option<String>,
    pub avatar_url: Option<String>,
    /// When the user was last synchronised; `None` before the first time.
    pub last_synced_at: Option<i64>,
}

/// Why the storage of a synchronisation was refused. Nothing is written then.
pub enum MemoryStoreError {
    /// The user is not stored.
    UnknownUser(i64),
    /// The fetched record is of another user (the one with this id).
    RecordMismatch(i64),
    /// No snapshot ids are left.
    IdsExhausted,
}

/// Charts keyed by id, as insert-or-ignore needs them.
pub open spec fn keyed_maps(s: Seq<Beatmap>) -> Seq<(i64, Beatmap)> {
    s.map_values(|m: Beatmap| (m.id, m))
}

/// Scores keyed by id, as insert-or-ignore needs them.
pub open spec fn keyed_scores(s: Seq<DBScore>) -> Seq<(i64, DBScore)> {
    s.map_values(|r: DBScore| (r.id, r))
}

/// A snapshot row as stored, with its id and the time it was recorded.
pub open spec fn recorded(n: NewDBStatsUpdate, id: i32, at: i64) -> DBStatsUpdate {
    DBStatsUpdate {
        id,
        user_id: n.user_id,
        recorded_at: at,
        mode: n.mode,
        total_score: n.total_score,
        ranked_score: n.ranked_score,
        overall_accuracy: n.overall_accuracy,
        overall_performance_rating: n.overall_performance_rating,
        play_count: n.play_count,
        fail_count: n.fail_count,
        max_combo: n.max_combo,
        replays_watched: n.replays_watched,
        total_marv: n.total_marv,
        total_perf: n.total_perf,
        total_great: n.total_great,
        total_good: n.total_good,
        total_okay: n.total_okay,
        total_miss: n.total_miss,
        total_pauses: n.total_pauses,
        multiplayer_wins: n.multiplayer_wins,
        multiplayer_losses: n.multiplayer_losses,
        multiplayer_ties: n.multiplayer_ties,
        country_rank: n.country_rank,
        global_rank: n.global_rank,
        multiplayer_win_rank: n.multiplayer_win_rank,
    }
}

fn record(n: NewDBStatsUpdate, id: i32, at: i64) -> (r: DBStatsUpdate)
    ensures
        r == recorded(n, id, at),
{
    DBStatsUpdate {
        id,
        user_id: n.user_id,
        recorded_at: at,
        mode: n.mode,
        total_score: n.total_score,
        ranked_score: n.ranked_score,
        overall_accuracy: n.overall_accuracy,
        overall_performance_rating: n.overall_performance_rating,
        play_count: n.play_count,
        fail_count: n.fail_count,
        max_combo: n.max_combo,
        replays_watched: n.replays_watched,
        total_marv: n.total_marv,
        total_perf: n.total_perf,
        total_great: n.total_great,
        total_good: n.total_good,
        total_okay: n.total_okay,
        total_miss: n.total_miss,
        total_pauses: n.total_pauses,
        multiplayer_wins: n.multiplayer_wins,
        multiplayer_losses: n.multiplayer_losses,
        multiplayer_ties: n.multiplayer_ties,
        country_rank: n.country_rank,
        global_rank: n.global_rank,
        multiplayer_win_rank: n.multiplayer_win_rank,
    }
}

fn copy_text(s: &Option<String>) -> (r: Option<String>)
    ensures
        r == *s,
{
    match s {
        Some(t) => Some(t.clone()),
        None => None,
    }
}

impl Beatmap {
    /// A copy of this chart.
    pub fn duplicate(&self) -> (r: Beatmap)
        ensures
            r == *self,
    {
        Beatmap {
            id: self.id,
            mapset_id: self.mapset_id,
            md5: self.md5.clone(),
            artist: self.artist.clone(),
            title: self.title.clone(),
            difficulty_name: self.difficulty_name.clone(),
            creator_id: self.creator_id,
            creator_username: self.creator_username.clone(),
            ranked_status: self.ranked_status,
        }
    }
}

impl DBScore {
    /// A copy of this score.
    pub fn duplicate(&self) -> (r: DBScore)
        ensures
            r == *self,
    {
        DBScore {
            id: self.id,
            user_id: self.user_id,
            time: self.time,
            mode: self.mode,
            mods: self.mods,
            mods_string: self.mods_string.clone(),
            performance_rating: self.performance_rating,
            personal_best: self.personal_best,
            is_donator_score: self.is_donator_score,
            total_score: self.total_score,
            accuracy: self.accuracy,
            grade: self.grade.clone(),
            max_combo: self.max_combo,
            count_marv: self.count_marv,
            count_perf: self.count_perf,
            count_great: self.count_great,
            count_good: self.count_good,
            count_okay: self.count_okay,
            count_miss: self.count_miss,
            scroll_speed: self.scroll_speed,
            ratio: self.ratio,
            map_id: self.map_id,
        }
    }
}

/// The store.
pub struct MemoryStore {
    users: Vec<UserRow>,
    maps: HashMap<i64, Beatmap>,
    scores: HashMap<i64, DBScore>,
    stats_updates: Vec<DBStatsUpdate>,
    next_stats_id: i32,
}

/// Whether `users` holds a user with id `id`.
pub open spec fn has_user(users: Seq<UserRow>, id: i64) -> bool {
    exists|i: int| 0 <= i < users.len() && #[trigger] users[i].id == id
}

/// The users after a synchronisation of `user_id` at `now`: that user's time
/// becomes the later of its old time and `now`; nothing else changes.
pub open spec fn synced_users(users: Seq<UserRow>, user_id: i64, now: i64) -> Seq<UserRow> {
    users.map_values(
        |u: UserRow|
            if u.id == user_id {
                UserRow {
                    last_synced_at: Some(
                        match u.last_synced_at {
                            Some(t) => if t > now {
                                t
                            } else {
                                now
                            },
                            None => now,
                        },
                    ),
                    ..u
                }
            } else {
                u
            },
    )
}

/// Every stored score refers to a stored chart.
pub open spec fn scores_reference_maps(
    maps: Map<i64, Beatmap>,
    scores: Map<i64, DBScore>,
) -> bool {
    forall|k: i64| #[trigger] scores.contains_key(k) ==> maps.contains_key(scores[k].map_id)
}

/// Whether a snapshot belongs to the history of `user_id` in `mode`.
pub open spec fn history_pred(user_id: i64, mode: i16) -> spec_fn(DBStatsUpdate) -> bool {
    |u: DBStatsUpdate| u.user_id == user_id && u.mode == mode
}

/// The snapshots of `user_id` in `mode`, in the order of insertion.
pub open spec fn history_of(rows: Seq<DBStatsUpdate>, user_id: i64, mode: i16) -> Seq<
    DBStatsUpdate,
> {
    rows.filter(history_pred(user_id, mode))
}

/// Snapshots in ascending order of the time they were recorded.
pub open spec fn ascending_time(s: Seq<DBStatsUpdate>) -> bool {
    forall|i: int, j: int| 0 <= i < j < s.len() ==> s[i].recorded_at <= s[j].recorded_at
}

/// Which of two synchronisation times is strictly earlier, a user never
/// synchronised counting as earliest of all.
pub open spec fn synced_before(a: Option<i64>, b: Option<i64>) -> bool {
    match (a, b) {
        (None, Some(_)) => true,
        (Some(x), Some(y)) => x < y,
        _ => false,
    }
}

/// The user row created for a new user: never synchronised yet.
pub open spec fn row_of(u: NewDBUser) -> UserRow {
    UserRow {
        id: u.id,
        username: u.username,
        steam_id: u.steam_id,
        time_registered: u.time_registered,
        country: u.country,
        avatar_url: u.avatar_url,
        last_synced_at: None,
    }
}

impl MemoryStore {
    /// The stored users, in the order they were created.
    pub closed spec fn users_view(&self) -> Seq<UserRow> {
        self.users@
    }

    /// The stored charts by id.
    pub closed spec fn maps_view(&self) -> Map<i64, Beatmap> {
        self.maps@
    }

    /// The stored scores by id.
    pub closed spec fn scores_view(&self) -> Map<i64, DBScore> {
        self.scores@
    }

    /// The snapshot history, in the order of insertion.
    pub closed spec fn stats_view(&self) -> Seq<DBStatsUpdate> {
        self.stats_updates@
    }

    /// The id that the next snapshot gets.
    pub closed spec fn next_stats_id_view(&self) -> i32 {
        self.next_stats_id
    }

    /// The store's invariant: user ids and user names are unique, every score
    /// refers to a stored chart, and snapshot ids increase and stay below the
    /// next one to be given.
    pub closed spec fn wf(&self) -> bool {
        &&& forall|i: int, j: int|
            0 <= i < j < self.users@.len() ==> self.users@[i].id != self.users@[j].id
                && self.users@[i].username@ != self.users@[j].username@
        &&& scores_reference_maps(self.maps@, self.scores@)
        &&& forall|k: i64| #[trigger] self.maps@.contains_key(k) ==> self.maps@[k].id == k
        &&& forall|k: i64| #[trigger] self.scores@.contains_key(k) ==> self.scores@[k].id == k
        &&& forall|i: int|
            0 <= i < self.stats_updates@.len() ==> #[trigger] self.stats_updates@[i].id
                < self.next_stats_id
        &&& forall|i: int, j: int|
            0 <= i < j < self.stats_updates@.len() ==> self.stats_updates@[i].id
                < self.stats_updates@[j].id
    }

    /// An empty store.
    pub fn new() -> (r: MemoryStore)
        ensures
            r.wf(),
            r.users_view().len() == 0,
            r.maps_view().is_empty(),
            r.scores_view().is_empty(),
            r.stats_view().len() == 0,
    {
        let r = MemoryStore {
            users: Vec::new(),
            maps: HashMap::new(),
            scores: HashMap::new(),
            stats_updates: Vec::new(),
            next_stats_id: 1,
        };
        assert(r.maps@ =~= Map::empty());
        assert(r.scores@ =~= Map::empty());
        r
    }

    fn user_index(&self, id: i64) -> (r: Option<usize>)
        ensures
            match r {
                Some(i) => i < self.users@.len() && self.users@[i as int].id == id,
                None => !has_user(self.users@, id),
            },
    {
        let mut i: usize = 0;
        while i < self.users.len()
            invariant
                i <= self.users@.len(),
                forall|j: int| 0 <= j < i ==> self.users@[j].id != id,
            decreases self.users@.len() - i,
        {
            if self.users[i].id == id {
                return Some(i);
            }
            i = i + 1;
        }
        None
    }

    /// Whether every stored score refers to a stored chart.
    pub open spec fn references_intact(&self) -> bool {
        scores_reference_maps(self.maps_view(), self.scores_view())
    }

    /// Stores charts insert-or-ignore by id: a chart whose id is stored
    /// already, or that repeats the id of an earlier chart of the list, is ignored.
    pub fn store_maps(&mut self, maps: &Vec<Beatmap>)
        requires
            old(self).wf(),
        ensures
            final(self).wf(),
            final(self).references_intact(),
            final(self).maps_view() == insert_or_ignore(old(self).maps_view(), keyed_maps(maps@)),
            final(self).scores_view() == old(self).scores_view(),
            final(self).users_view() == old(self).users_view(),
            final(self).stats_view() == old(self).stats_view(),
            final(self).next_stats_id_view() == old(self).next_stats_id_view(),
    {
        let ghost pre = *self;
        let ghost km = keyed_maps(maps@);
        let mut i: usize = 0;
        while i < maps.len()
            invariant
                i <= maps@.len(),
                km == keyed_maps(maps@),
                self.maps@ == insert_or_ignore(pre.maps@, km.take(i as int)),
                self.scores@ == pre.scores@,
                self.users@ == pre.users@,
                self.stats_updates@ == pre.stats_updates@,
                self.next_stats_id == pre.next_stats_id,
            decreases maps@.len() - i,
        {
            let m = &maps[i];
            if !self.maps.contains_key(&m.id) {
                self.maps.insert(m.id, m.duplicate());
            }
            assert(km.take(i + 1).drop_last() =~= km.take(i as int));
            assert(km.take(i + 1).last() == km[i as int]);
            i = i + 1;
        }
        assert(km.take(maps@.len() as int) =~= km);
        proof {
            lemma_insert_or_ignore_shape(pre.maps@, km);
        }
    }

    /// Stores fetched scores of `user_id`: first the charts they were played on,
    /// then the scores, both insert-or-ignore by id. Returns the charts, one per
    /// fetched score, and the scores that were new.
    pub fn store_scores(&mut self, user_id: i64, scores: Vec<APIScore>) -> (r: (
        Vec<Beatmap>,
        Vec<DBScore>,
    ))
        requires
            old(self).wf(),
        ensures
            final(self).wf(),
            final(self).references_intact(),
            final(self).maps_view() == insert_or_ignore(
                old(self).maps_view(),
                keyed_maps(maps_of(scores@)),
            ),
            final(self).scores_view() == insert_or_ignore(
                old(self).scores_view(),
                keyed_scores(db_scores_of(scores@, user_id)),
            ),
            r.0@ == maps_of(scores@),
            r.1@ == fresh_rows(old(self).scores_view(), keyed_scores(db_scores_of(scores@, user_id))),
            final(self).users_view() == old(self).users_view(),
            final(self).stats_view() == old(self).stats_view(),
            final(self).next_stats_id_view() == old(self).next_stats_id_view(),
    {
        let ghost pre = *self;
        let ghost fetched = scores@;
        let (maps, db_scores) = split_scores(user_id, scores);
        self.store_maps(&maps);
        let ghost km = keyed_maps(maps@);
        let ghost ks = keyed_scores(db_scores@);
        let ghost maps_after = self.maps@;
        let mut new_scores: Vec<DBScore> = Vec::new();
        for s in it: db_scores
            invariant
                it.seq() == db_scores@,
                ks == keyed_scores(it.seq()),
                self.scores@ == insert_or_ignore(pre.scores@, ks.take(it.index() as int)),
                new_scores@ == fresh_rows(pre.scores@, ks.take(it.index() as int)),
                self.maps@ == maps_after,
                self.users@ == pre.users@,
                self.stats_updates@ == pre.stats_updates@,
                self.next_stats_id == pre.next_stats_id,
        {
            let ghost k = it.index() as int;
            assert(ks.take(k + 1).drop_last() =~= ks.take(k));
            assert(ks.take(k + 1).last() == ks[k]);
            if !self.scores.contains_key(&s.id) {
                new_scores.push(s.duplicate());
                self.scores.insert(s.id, s);
            }
        }
        assert(ks.take(ks.len() as int) =~= ks);
        proof {
            lemma_insert_or_ignore_shape(pre.maps@, km);
            lemma_insert_or_ignore_shape(pre.scores@, ks);
            assert forall|k: i64| #[trigger]
                self.scores@.contains_key(k) implies self.maps@.contains_key(
                self.scores@[k].map_id,
            ) by {
                if !(pre.scores@.contains_key(k) && self.scores@[k] == pre.scores@[k]) {
                    let j = choose|j: int|
                        0 <= j < ks.len() && ks[j].0 == k && #[trigger] ks[j].1 == self.scores@[k];
                    assert(km[j].0 == fetched[j].map.id);
                }
            }
        }
        (maps, new_scores)
    }

    fn append_stats(&mut self, stats: APIStatsUser, now: i64) -> (r: (
        DBStatsUpdate,
        DBStatsUpdate,
    ))
        requires
            old(self).wf(),
            old(self).next_stats_id_view() <= i32::MAX - 2,
        ensures
            final(self).wf(),
            r.0 == recorded(stats_rows(stats)[0], old(self).next_stats_id_view(), now),
            r.1 == recorded(stats_rows(stats)[1], (old(self).next_stats_id_view() + 1) as i32, now),
            final(self).stats_view() == old(self).stats_view() + seq![r.0, r.1],
            final(self).next_stats_id_view() == old(self).next_stats_id_view() + 2,
            final(self).maps_view() == old(self).maps_view(),
            final(self).scores_view() == old(self).scores_view(),
            final(self).users_view() == old(self).users_view(),
    {
        let ghost pre = self.stats_updates@;
        let updates = stats.to_db();
        let first_id = self.next_stats_id;
        let stats_4k = record(updates[0], first_id, now);
        let stats_7k = record(updates[1], first_id + 1, now);
        self.stats_updates.push(stats_4k);
        self.stats_updates.push(stats_7k);
        self.next_stats_id = first_id + 2;
        assert(self.stats_updates@ =~= pre + seq![stats_4k, stats_7k]);
        (stats_4k, stats_7k)
    }

    /// Appends the two snapshots of a fetched record, recorded at `now`, to the
    /// history: nothing already stored changes, and storing the same record
    /// again appends two more. Refused, with nothing written, when the record's
    /// user is not stored or no snapshot ids are left.
    pub fn store_stats_update(&mut self, stats: APIStatsUser, now: i64) -> (r: Result<
        (DBStatsUpdate, DBStatsUpdate),
        MemoryStoreError,
    >)
        requires
            old(self).wf(),
        ensures
            final(self).wf(),
            final(self).references_intact(),
            !has_user(old(self).users_view(), stats.info.id) ==> r == Err::<
                (DBStatsUpdate, DBStatsUpdate),
                MemoryStoreError,
            >(MemoryStoreError::UnknownUser(stats.info.id)) && *final(self) == *old(self),
            has_user(old(self).users_view(), stats.info.id) && old(self).next_stats_id_view()
                > i32::MAX - 2 ==> r == Err::<(DBStatsUpdate, DBStatsUpdate), MemoryStoreError>(
                MemoryStoreError::IdsExhausted,
            ) && *final(self) == *old(self),
            has_user(old(self).users_view(), stats.info.id) && old(self).next_stats_id_view()
                <= i32::MAX - 2 ==> (r matches Ok(rows) && rows.0 == recorded(
                stats_rows(stats)[0],
                old(self).next_stats_id_view(),
                now,
            ) && rows.1 == recorded(
                stats_rows(stats)[1],
                (old(self).next_stats_id_view() + 1) as i32,
                now,
            ) && (forall|i: int|
                0 <= i < old(self).stats_view().len() ==> #[trigger] old(self).stats_view()[i].id
                    < rows.0.id) && rows.0.id < rows.1.id
                && final(self).stats_view() == old(self).stats_view() + seq![rows.0, rows.1]
                && final(self).maps_view() == old(self).maps_view() && final(self).scores_view()
                == old(self).scores_view() && final(self).users_view() == old(self).users_view()),
    {
        if self.user_index(stats.info.id).is_none() {
            return Err(MemoryStoreError::UnknownUser(stats.info.id));
        }
        if self.next_stats_id > i32::MAX - 2 {
            return Err(MemoryStoreError::IdsExhausted);
        }
        Ok(self.append_stats(stats, now))
    }

    /// Stores one synchronisation of `user_id`, made at time `now`, as one unit:
    /// the charts of all fetched scores (insert-or-ignore), then the scores
    /// (insert-or-ignore), then the two snapshots, then the user's
    /// synchronisation time. When the user is not stored, the fetched record is
    /// of another user, or no snapshot ids are left, nothing is written.
    pub fn store_sync(&mut self, user_id: i64, bundle: FetchedBundle, now: i64) -> (r: Result<
        UpdateData,
        MemoryStoreError,
    >)
        requires
            old(self).wf(),
        ensures
            final(self).wf(),
            final(self).references_intact(),
            sync_stored(*old(self), *final(self), r, user_id, bundle, now),
    {
        if self.user_index(user_id).is_none() {
            return Err(MemoryStoreError::UnknownUser(user_id));
        }
        if bundle.stats.info.id != user_id {
            return Err(MemoryStoreError::RecordMismatch(bundle.stats.info.id));
        }
        if self.next_stats_id > i32::MAX - 2 {
            return Err(MemoryStoreError::IdsExhausted);
        }
        let (stats, all) = bundle.into_parts();
        let (maps, new_scores) = self.store_scores(user_id, all);
        let (stats_4k, stats_7k) = self.append_stats(stats, now);
        self.mark_synced(user_id, now);
        let touched = index_maps(maps);
        Ok(UpdateData { stats_4k, stats_7k, maps: touched, new_scores })
    }

    /// One synchronisation of `user_id` at `now` from the outcomes of its five
    /// fetches. When a fetch failed, or the service does not know the user,
    /// nothing is written (advancing the user's time after "not found" is the
    /// caller's decision: see [`crate::sync::advance_after_failure`] and
    /// [`MemoryStore::mark_synced`]). Otherwise the bundle is stored as
    /// [`MemoryStore::store_sync`] stores it.
    pub fn synchronize(
        &mut self,
        user_id: i64,
        stats: Result<Option<APIStatsUser>, APIError>,
        recent_4k: Result<Option<Vec<APIScore>>, APIError>,
        best_4k: Result<Option<Vec<APIScore>>, APIError>,
        recent_7k: Result<Option<Vec<APIScore>>, APIError>,
        best_7k: Result<Option<Vec<APIScore>>, APIError>,
        now: i64,
    ) -> (r: Result<UpdateData, SyncFailure>)
        requires
            old(self).wf(),
        ensures
            final(self).wf(),
            final(self).references_intact(),
            match joined(stats, recent_4k, best_4k, recent_7k, best_7k) {
                Err(e) => r == Err::<UpdateData, SyncFailure>(SyncFailure::Fetch(e))
                    && *final(self) == *old(self),
                Ok(b) => match r {
                    Ok(d) => sync_stored(
                        *old(self),
                        *final(self),
                        Ok::<UpdateData, MemoryStoreError>(d),
                        user_id,
                        b,
                        now,
                    ),
                    Err(SyncFailure::Store(e)) => sync_stored(
                        *old(self),
                        *final(self),
                        Err::<UpdateData, MemoryStoreError>(e),
                        user_id,
                        b,
                        now,
                    ),
                    Err(SyncFailure::Fetch(_)) => false,
                },
            },
    {
        match join_fetches(stats, recent_4k, best_4k, recent_7k, best_7k) {
            Ok(bundle) => match self.store_sync(user_id, bundle, now) {
                Ok(d) => Ok(d),
                Err(e) => Err(SyncFailure::Store(e)),
            },
            Err(e) => Err(SyncFailure::Fetch(e)),
        }
    }

    /// Creates a user row, unless a user with that id or that name is stored
    /// already (a uniqueness conflict), in which case nothing changes.
    pub fn insert_user(&mut self, user: NewDBUser) -> (r: bool)
        requires
            old(self).wf(),
        ensures
            final(self).wf(),
            r == !exists|i: int|
                0 <= i < old(self).users_view().len() && ((#[trigger] old(self).users_view()[i]).id
                    == user.id || old(self).users_view()[i].username@ == user.username@),
            r ==> final(self).users_view() == old(self).users_view().push(row_of(user)),
            !r ==> *final(self) == *old(self),
            final(self).maps_view() == old(self).maps_view(),
            final(self).scores_view() == old(self).scores_view(),
            final(self).stats_view() == old(self).stats_view(),
    {
        assert(self.users_view() == self.users@);
        if self.conflicts_with(&user) {
            return false;
        }
        let row = UserRow {
            id: user.id,
            username: user.username,
            steam_id: user.steam_id,
            time_registered: user.time_registered,
            country: user.country,
            avatar_url: user.avatar_url,
            last_synced_at: None,
        };
        self.users.push(row);
        true
    }

    fn conflicts_with(&self, user: &NewDBUser) -> (r: bool)
        ensures
            r == exists|i: int|
                0 <= i < self.users@.len() && ((#[trigger] self.users@[i]).id == user.id
                    || self.users@[i].username@ == user.username@),
    {
        let mut i: usize = 0;
        while i < self.users.len()
            invariant
                i <= self.users@.len(),
                forall|j: int|
                    0 <= j < i ==> !((#[trigger] self.users@[j]).id == user.id
                        || self.users@[j].username@ == user.username@),
            decreases self.users@.len() - i,
        {
            if self.users[i].id == user.id || self.users[i].username == user.username {
                return true;
            }
            i = i + 1;
        }
        false
    }

    /// The id of the stored user with this name.
    pub fn user_id_by_username(&self, username: &str) -> (r: Option<i64>)
        requires
            self.wf(),
        ensures
            match r {
                Some(id) => (exists|i: int|
                    0 <= i < self.users_view().len() && #[trigger] self.users_view()[i].id == id
                        && self.users_view()[i].username@ == username@) && (forall|i: int|
                    0 <= i < self.users_view().len() && #[trigger] self.users_view()[i].username@
                        == username@ ==> self.users_view()[i].id == id),
                None => forall|i: int|
                    0 <= i < self.users_view().len() ==> #[trigger] self.users_view()[i].username@
                        != username@,
            },
    {
        let name = username.to_owned();
        let mut i: usize = 0;
        while i < self.users.len()
            invariant
                i <= self.users@.len(),
                name@ == username@,
                self.wf(),
                forall|j: int| 0 <= j < i ==> #[trigger] self.users@[j].username@ != username@,
            decreases self.users@.len() - i,
        {
            if self.users[i].username == name {
                assert(self.users_view() == self.users@);
                assert forall|j: int|
                    0 <= j < self.users@.len() && #[trigger] self.users@[j].username@
                        == username@ implies self.users@[j].id == self.users@[i as int].id by {
                    if j < i {
                        assert(self.users@[j].username@ != self.users@[i as int].username@);
                    } else if j > i {
                        assert(self.users@[i as int].username@ != self.users@[j].username@);
                    }
                }
                return Some(self.users[i].id);
            }
            i = i + 1;
        }
        None
    }

    /// The name of the stored user with this id.
    pub fn username_by_user_id(&self, user_id: i64) -> (r: Option<String>)
        requires
            self.wf(),
        ensures
            match r {
                Some(name) => (exists|i: int|
                    0 <= i < self.users_view().len() && #[trigger] self.users_view()[i].id
                        == user_id && self.users_view()[i].username@ == name@) && (forall|i: int|
                    0 <= i < self.users_view().len() && #[trigger] self.users_view()[i].id
                        == user_id ==> self.users_view()[i].username@ == name@),
                None => !has_user(self.users_view(), user_id),
            },
    {
        match self.user_index(user_id) {
            Some(i) => {
                assert(self.users_view()[i as int] == self.users@[i as int]);
                Some(self.users[i].username.clone())
            },
            None => None,
        }
    }

    /// The stored user with this id.
    pub fn user(&self, user_id: i64) -> (r: Option<&UserRow>)
        requires
            self.wf(),
        ensures
            match r {
                Some(u) => u.id == user_id && forall|i: int|
                    0 <= i < self.users_view().len() && #[trigger] self.users_view()[i].id
                        == user_id ==> self.users_view()[i] == *u,
                None => !has_user(self.users_view(), user_id),
            },
    {
        match self.user_index(user_id) {
            Some(i) => {
                assert(self.users_view()[i as int] == self.users@[i as int]);
                Some(&self.users[i])
            },
            None => None,
        }
    }

    /// Advances the user's synchronisation time to `now` (it never goes back);
    /// used when the service no longer knows the user, so that the batch pick
    /// moves on.
    pub fn mark_synced(&mut self, user_id: i64, now: i64)
        requires
            old(self).wf(),
        ensures
            final(self).wf(),
            final(self).users_view() == synced_users(old(self).users_view(), user_id, now),
            final(self).maps_view() == old(self).maps_view(),
            final(self).scores_view() == old(self).scores_view(),
            final(self).stats_view() == old(self).stats_view(),
            final(self).next_stats_id_view() == old(self).next_stats_id_view(),
    {
        let ghost pre = self.users@;
        if let Some(idx) = self.user_index(user_id) {
            let synced_at = match self.users[idx].last_synced_at {
                Some(t) => if t > now {
                    t
                } else {
                    now
                },
                None => now,
            };
            self.users[idx].last_synced_at = Some(synced_at);
        }
        assert(self.users@ =~= synced_users(pre, user_id, now));
    }

    /// The user synchronised longest ago, a never-synchronised user first; of
    /// equals, the one created first. `None` when no user is stored.
    pub fn least_recently_synced(&self) -> (r: Option<i64>)
        ensures
            r is None <==> self.users_view().len() == 0,
            r matches Some(id) ==> exists|i: int|
                0 <= i < self.users_view().len() && #[trigger] self.users_view()[i].id == id
                    && (forall|j: int|
                    0 <= j < self.users_view().len() ==> !synced_before(
                        #[trigger] self.users_view()[j].last_synced_at,
                        self.users_view()[i].last_synced_at,
                    )) && (forall|j: int|
                    0 <= j < i ==> synced_before(
                        self.users_view()[i].last_synced_at,
                        #[trigger] self.users_view()[j].last_synced_at,
                    )),
    {
        if self.users.len() == 0 {
            return None;
        }
        let mut best: usize = 0;
        let mut i: usize = 1;
        while i < self.users.len()
            invariant
                1 <= i <= self.users@.len(),
                best < i,
                forall|j: int|
                    0 <= j < i ==> !synced_before(
                        #[trigger] self.users@[j].last_synced_at,
                        self.users@[best as int].last_synced_at,
                    ),
                forall|j: int|
                    0 <= j < best ==> synced_before(
                        self.users@[best as int].last_synced_at,
                        #[trigger] self.users@[j].last_synced_at,
                    ),
            decreases self.users@.len() - i,
        {
            let earlier = match (self.users[i].last_synced_at, self.users[best].last_synced_at) {
                (None, Some(_)) => true,
                (Some(x), Some(y)) => x < y,
                _ => false,
            };
            if earlier {
                best = i;
            }
            i = i + 1;
        }
        assert(self.users_view() == self.users@);
        assert(self.users_view()[best as int] == self.users@[best as int]);
        Some(self.users[best].id)
    }

    /// When the user's latest snapshot (of either mode) was recorded; `None`
    /// when the user has none.
    pub fn last_update_timestamp(&self, user_id: i64) -> (r: Option<i64>)
        ensures
            r is None <==> forall|i: int|
                0 <= i < self.stats_view().len() ==> #[trigger] self.stats_view()[i].user_id
                    != user_id,
            r matches Some(t) ==> (exists|i: int|
                0 <= i < self.stats_view().len() && #[trigger] self.stats_view()[i].user_id
                    == user_id && self.stats_view()[i].recorded_at == t) && (forall|i: int|
                0 <= i < self.stats_view().len() && #[trigger] self.stats_view()[i].user_id
                    == user_id ==> self.stats_view()[i].recorded_at <= t),
    {
        let mut latest: Option<i64> = None;
        let mut i: usize = 0;
        while i < self.stats_updates.len()
            invariant
                i <= self.stats_updates@.len(),
                latest is None <==> forall|j: int|
                    0 <= j < i ==> #[trigger] self.stats_updates@[j].user_id != user_id,
                latest matches Some(t) ==> (exists|j: int|
                    0 <= j < i && #[trigger] self.stats_updates@[j].user_id == user_id
                        && self.stats_updates@[j].recorded_at == t) && (forall|j: int|
                    0 <= j < i && #[trigger] self.stats_updates@[j].user_id == user_id
                        ==> self.stats_updates@[j].recorded_at <= t),
            decreases self.stats_updates@.len() - i,
        {
            let row = &self.stats_updates[i];
            if row.user_id == user_id {
                latest = match latest {
                    Some(t) => if row.recorded_at > t {
                        Some(row.recorded_at)
                    } else {
                        Some(t)
                    },
                    None => Some(row.recorded_at),
                };
            }
            i = i + 1;
        }
        assert(self.stats_view() == self.stats_updates@);
        latest
    }

    /// The snapshots of one user in one mode, in ascending order of the time
    /// they were recorded.
    pub fn stats_history(&self, user_id: i64, mode: i16) -> (r: Vec<DBStatsUpdate>)
        ensures
            ascending_time(r@),
            r@.to_multiset() == history_of(self.stats_view(), user_id, mode).to_multiset(),
    {
        let ghost rows = self.stats_updates@;
        let ghost pred = history_pred(user_id, mode);
        let mut out: Vec<DBStatsUpdate> = Vec::new();
        proof {
            reveal(Seq::filter);
            assert(out@ =~= rows.take(0).filter(pred));
        }
        let mut i: usize = 0;
        while i < self.stats_updates.len()
            invariant
                i <= rows.len(),
                rows == self.stats_updates@,
                pred == history_pred(user_id, mode),
                ascending_time(out@),
                out@.to_multiset() == rows.take(i as int).filter(pred).to_multiset(),
            decreases rows.len() - i,
        {
            let row = self.stats_updates[i];
            proof {
                assert(rows.take(i + 1) =~= rows.take(i as int).push(row));
                rows.take(i as int).lemma_filter_push(row, pred);
            }
            if row.user_id == user_id && row.mode == mode {
                let mut j: usize = out.len();
                while j > 0 && out[j - 1].recorded_at > row.recorded_at
                    invariant
                        j <= out@.len(),
                        forall|k: int| j <= k < out@.len() ==> #[trigger] out@[k].recorded_at > row.recorded_at,
                    decreases j,
                {
                    j = j - 1;
                }
                let ghost before = out@;
                out.insert(j, row);
                proof {
                    to_multiset_insert(before, j as int, row);
                    to_multiset_build(rows.take(i as int).filter(pred), row);
                    assert forall|a: int, b: int| 0 <= a < b < out@.len() implies out@[a].recorded_at
                        <= out@[b].recorded_at by {
                        if a < j && b > j {
                            assert(before[a].recorded_at <= before[j - 1].recorded_at);
                        }
                    }
                }
            }
            i = i + 1;
        }
        assert(rows.take(rows.len() as int) =~= rows);
        assert(self.stats_view() == rows);
        out
    }

    /// The stored chart with this id.
    pub fn get_map(&self, id: i64) -> (r: Option<&Beatmap>)
        ensures
            match r {
                Some(m) => self.maps_view().contains_key(id) && self.maps_view()[id] == *m,
                None => !self.maps_view().contains_key(id),
            },
    {
        self.maps.get(&id)
    }

    /// The stored score with this id.
    pub fn get_score(&self, id: i64) -> (r: Option<&DBScore>)
        ensures
            match r {
                Some(s) => self.scores_view().contains_key(id) && self.scores_view()[id] == *s,
                None => !self.scores_view().contains_key(id),
            },
    {
        self.scores.get(&id)
    }

    /// How many charts are stored.
    pub fn map_count(&self) -> (r: usize)
        ensures
            r == self.maps_view().len(),
    {
        self.maps.len()
    }

    /// How many scores are stored.
    pub fn score_count(&self) -> (r: usize)
        ensures
            r == self.scores_view().len(),
    {
        self.scores.len()
    }

    /// The snapshot history, in the order of insertion.
    pub fn stats_updates(&self) -> (r: &Vec<DBStatsUpdate>)
        ensures
            r@ == self.stats_view(),
    {
        &self.stats_updates
    }
}

/// Why a synchronisation through the store failed.
pub enum SyncFailure {
    /// A fetch failed, or the service does not know the user.
    Fetch(UpdateUserError),
    /// The store refused the bundle.
    Store(MemoryStoreError),
}

/// The outcome of storing a synchronisation of `user_id` at `now`: refused with
/// nothing written when the user is not stored, the record is of another user,
/// or no snapshot ids are left; stored as [`sync_applied`] and reported as
/// [`synced_data`] says otherwise.
pub open spec fn sync_stored(
    before: MemoryStore,
    after: MemoryStore,
    r: Result<UpdateData, MemoryStoreError>,
    user_id: i64,
    bundle: FetchedBundle,
    now: i64,
) -> bool {
    if !has_user(before.users_view(), user_id) {
        r == Err::<UpdateData, MemoryStoreError>(MemoryStoreError::UnknownUser(user_id))
            && after == before
    } else if bundle.stats.info.id != user_id {
        r == Err::<UpdateData, MemoryStoreError>(
            MemoryStoreError::RecordMismatch(bundle.stats.info.id),
        ) && after == before
    } else if before.next_stats_id_view() > i32::MAX - 2 {
        r == Err::<UpdateData, MemoryStoreError>(MemoryStoreError::IdsExhausted) && after
            == before
    } else {
        &&& sync_applied(before, after, user_id, bundle, now)
        &&& r matches Ok(d) && synced_data(d, before, user_id, bundle, now)
    }
}

/// What storing a synchronisation of `user_id` at `now` does to the store.
pub open spec fn sync_applied(
    before: MemoryStore,
    after: MemoryStore,
    user_id: i64,
    bundle: FetchedBundle,
    now: i64,
) -> bool {
    let fetched = bundle_scores(bundle);
    let rows = stats_rows(bundle.stats);
    &&& after.maps_view() == insert_or_ignore(before.maps_view(), keyed_maps(maps_of(fetched)))
    &&& after.scores_view() == insert_or_ignore(
        before.scores_view(),
        keyed_scores(db_scores_of(fetched, user_id)),
    )
    &&& after.stats_view() == before.stats_view() + seq![
        recorded(rows[0], before.next_stats_id_view(), now),
        recorded(rows[1], (before.next_stats_id_view() + 1) as i32, now),
    ]
    &&& after.next_stats_id_view() == before.next_stats_id_view() + 2
    &&& after.users_view() == synced_users(before.users_view(), user_id, now)
}

/// What storing a synchronisation of `user_id` at `now` reports: the two new
/// snapshots, the charts of all fetched scores (one per id), and the scores
/// that were new.
pub open spec fn synced_data(
    d: UpdateData,
    before: MemoryStore,
    user_id: i64,
    bundle: FetchedBundle,
    now: i64,
) -> bool {
    let fetched = bundle_scores(bundle);
    let rows = stats_rows(bundle.stats);
    &&& d.stats_4k.user_id == user_id && d.stats_4k.mode == MODE_KEYS4
    &&& d.stats_7k.user_id == user_id && d.stats_7k.mode == MODE_KEYS7
    &&& d.stats_4k == recorded(rows[0], before.next_stats_id_view(), now)
    &&& d.stats_7k == recorded(rows[1], (before.next_stats_id_view() + 1) as i32, now)
    &&& unique_ids(d.maps@)
    &&& maps_by_id(d.maps@) == maps_by_id(maps_of(fetched))
    &&& d.new_scores@ == fresh_rows(
        before.scores_view(),
        keyed_scores(db_scores_of(fetched, user_id)),
    )
}


/// Storing the same fetched bundle twice: the second pass leaves the charts and
/// the scores as the first left them, and adds no new score, while each pass
/// appends exactly two snapshots.
pub proof fn lemma_store_twice(
    s0: MemoryStore,
    s1: MemoryStore,
    s2: MemoryStore,
    user_id: i64,
    bundle: FetchedBundle,
    t1: i64,
    t2: i64,
)
    requires
        sync_applied(s0, s1, user_id, bundle, t1),
        sync_applied(s1, s2, user_id, bundle, t2),
    ensures
        s2.maps_view() == s1.maps_view(),
        s2.scores_view() == s1.scores_view(),
        fresh_rows(
            s1.scores_view(),
            keyed_scores(db_scores_of(bundle_scores(bundle), user_id)),
        ) == Seq::<DBScore>::empty(),
        s2.stats_view().subrange(0, s1.stats_view().len() as int) == s1.stats_view(),
        s1.stats_view().len() == s0.stats_view().len() + 2,
        s2.stats_view().len() == s1.stats_view().len() + 2,
{
    assert(s2.stats_view().subrange(0, s1.stats_view().len() as int) =~= s1.stats_view());
    let fetched = bundle_scores(bundle);
    lemma_insert_or_ignore_idempotent(s0.maps_view(), keyed_maps(maps_of(fetched)));
    lemma_insert_or_ignore_idempotent(
        s0.scores_view(),
        keyed_scores(db_scores_of(fetched, user_id)),
    );
}

/// A user's synchronisation time never goes back: a user synchronised at `t`
/// before a synchronisation (of anyone) is synchronised at `t` or later after
/// it, and the synchronised user has a time afterwards.
pub proof fn lemma_synced_at_never_decreases(users: Seq<UserRow>, user_id: i64, now: i64, i: int)
    requires
        0 <= i < users.len(),
    ensures
        synced_users(users, user_id, now).len() == users.len(),
        users[i].last_synced_at matches Some(t) ==> synced_users(
            users,
            user_id,
            now,
        )[i].last_synced_at matches Some(t2) && t <= t2,
        users[i].id == user_id ==> synced_users(users, user_id, now)[i].last_synced_at is Some,
{
}

/// What the store's invariant tells a caller: every stored chart and score is
/// kept under its own id, every snapshot id is below the next one to be given
/// (so new snapshots get fresh ids), snapshot ids increase in the order of
/// insertion, and every stored score refers to a stored chart.
pub proof fn lemma_store_invariant(s: MemoryStore)
    requires
        s.wf(),
    ensures
        forall|k: i64| #[trigger] s.maps_view().contains_key(k) ==> s.maps_view()[k].id == k,
        forall|k: i64| #[trigger] s.scores_view().contains_key(k) ==> s.scores_view()[k].id == k,
        forall|i: int|
            0 <= i < s.stats_view().len() ==> #[trigger] s.stats_view()[i].id
                < s.next_stats_id_view(),
        forall|i: int, j: int|
            0 <= i < j < s.stats_view().len() ==> s.stats_view()[i].id < s.stats_view()[j].id,
        s.references_intact(),
{
}

} // verus!
