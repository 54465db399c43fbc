//! Joining the five fetches of one synchronisation and turning the fetched
//! scores into the rows that the store receives.
use vstd::prelude::*;
use crate::api::APIError;
use crate::models::{
    APIScore, APIStatsUser, Beatmap, DBScore, DBStatsUpdate, MODE_KEYS4, MODE_KEYS7, db_score_of,
};

verus! {

/// Declares `diesel::result::Error`, the failure of the relational store.
#[verifier::external_type_specification]
#[verifier::external_body]
pub struct ExDieselError(diesel::result::Error);

/// Why a synchronisation (or the identity resolution before it) failed.
#[derive(Debug)]
pub enum UpdateUserError {
    /// The remote service could not be reached or reported an error.
    APIError(APIError),
    /// The remote service says that the user does not exist.
    NotFound,
    /// The store failed.
    DBError(diesel::result::Error),
}

/// What one synchronisation brought in: the two new snapshots, the charts it
/// touched and the scores it stored.
pub struct UpdateData {
    pub stats_4k: DBStatsUpdate,
    pub stats_7k: DBStatsUpdate,
    pub maps: Vec<Beatmap>,
    pub new_scores: Vec<DBScore>,
}

/// Everything fetched for one synchronisation.
pub struct FetchedBundle {
    pub stats: APIStatsUser,
    pub recent_4k: Vec<APIScore>,
    pub best_4k: Vec<APIScore>,
    pub recent_7k: Vec<APIScore>,
    pub best_7k: Vec<APIScore>,
}

/// The outcome of one fetch as the join sees it: its value, `NotFound` when the
/// service reported the user absent, or the service's error.
pub open spec fn settled<T>(r: Result<Option<T>, APIError>) -> Result<T, UpdateUserError> {
    match r {
        Ok(Some(v)) => Ok(v),
        Ok(None) => Err(UpdateUserError::NotFound),
        Err(e) => Err(UpdateUserError::APIError(e)),
    }
}

/// The join of the five fetches: the bundle when all five succeeded, else the
/// failure of the first one (in argument order) that did not.
pub open spec fn joined(
    stats: Result<Option<APIStatsUser>, APIError>,
    recent_4k: Result<Option<Vec<APIScore>>, APIError>,
    best_4k: Result<Option<Vec<APIScore>>, APIError>,
    recent_7k: Result<Option<Vec<APIScore>>, APIError>,
    best_7k: Result<Option<Vec<APIScore>>, APIError>,
) -> Result<FetchedBundle, UpdateUserError> {
    match (settled(stats), settled(recent_4k), settled(best_4k), settled(recent_7k), settled(best_7k)) {
        (Err(e), _, _, _, _) => Err(e),
        (Ok(_), Err(e), _, _, _) => Err(e),
        (Ok(_), Ok(_), Err(e), _, _) => Err(e),
        (Ok(_), Ok(_), Ok(_), Err(e), _) => Err(e),
        (Ok(_), Ok(_), Ok(_), Ok(_), Err(e)) => Err(e),
        (Ok(s), Ok(r4), Ok(b4), Ok(r7), Ok(b7)) => Ok(
            FetchedBundle { stats: s, recent_4k: r4, best_4k: b4, recent_7k: r7, best_7k: b7 },
        ),
    }
}

/// Reads the outcome of one fetch as the join does (see [`settled`]), so that a
/// caller running the fetches concurrently can stop at the first failure.
pub fn settle_fetch<T>(r: Result<Option<T>, APIError>) -> (o: Result<T, UpdateUserError>)
    ensures
        o == settled(r),
{
    match r {
        Ok(Some(v)) => Ok(v),
        Ok(None) => Err(UpdateUserError::NotFound),
        Err(e) => Err(UpdateUserError::APIError(e)),
    }
}

/// Joins the outcomes of the five fetches of one synchronisation. There is no
/// partial success: one absent or failed fetch fails the whole bundle.
pub fn join_fetches(
    stats: Result<Option<APIStatsUser>, APIError>,
    recent_4k: Result<Option<Vec<APIScore>>, APIError>,
    best_4k: Result<Option<Vec<APIScore>>, APIError>,
    recent_7k: Result<Option<Vec<APIScore>>, APIError>,
    best_7k: Result<Option<Vec<APIScore>>, APIError>,
) -> (r: Result<FetchedBundle, UpdateUserError>)
    ensures
        r == joined(stats, recent_4k, best_4k, recent_7k, best_7k),
{
    let s = match settle_fetch(stats) {
        Ok(v) => v,
        Err(e) => return Err(e),
    };
    let r4 = match settle_fetch(recent_4k) {
        Ok(v) => v,
        Err(e) => return Err(e),
    };
    let b4 = match settle_fetch(best_4k) {
        Ok(v) => v,
        Err(e) => return Err(e),
    };
    let r7 = match settle_fetch(recent_7k) {
        Ok(v) => v,
        Err(e) => return Err(e),
    };
    let b7 = match settle_fetch(best_7k) {
        Ok(v) => v,
        Err(e) => return Err(e),
    };
    Ok(FetchedBundle { stats: s, recent_4k: r4, best_4k: b4, recent_7k: r7, best_7k: b7 })
}

/// All fetched scores of a bundle, in the order recent and best of the four-key
/// mode, then recent and best of the seven-key mode. Duplicates stay.
pub open spec fn bundle_scores(b: FetchedBundle) -> Seq<APIScore> {
    b.recent_4k@ + b.best_4k@ + b.recent_7k@ + b.best_7k@
}

impl FetchedBundle {
    /// Splits the bundle into its snapshot record and all its scores (see
    /// [`bundle_scores`]).
    pub fn into_parts(self) -> (r: (APIStatsUser, Vec<APIScore>))
        ensures
            r.0 == self.stats,
            r.1@ == bundle_scores(self),
    {
        let FetchedBundle { stats, recent_4k, best_4k, recent_7k, best_7k } = self;
        let mut all = recent_4k;
        let mut b4 = best_4k;
        let mut r7 = recent_7k;
        let mut b7 = best_7k;
        all.append(&mut b4);
        all.append(&mut r7);
        all.append(&mut b7);
        (stats, all)
    }
}

/// The charts embedded in a list of fetched scores, one per score.
pub open spec fn maps_of(scores: Seq<APIScore>) -> Seq<Beatmap> {
    scores.map_values(|s: APIScore| s.map)
}

/// The stored scores of `user_id` that a list of fetched scores becomes.
pub open spec fn db_scores_of(scores: Seq<APIScore>, user_id: i64) -> Seq<DBScore> {
    scores.map_values(|s: APIScore| db_score_of(s, user_id))
}

/// Splits each fetched score into its chart and its stored score, keeping the
/// order (and the duplicates) of the input.
pub fn split_scores(user_id: i64, scores: Vec<APIScore>) -> (r: (Vec<Beatmap>, Vec<DBScore>))
    ensures
        r.0@ == maps_of(scores@),
        r.1@ == db_scores_of(scores@, user_id),
{
    let ghost input = scores@;
    let mut maps: Vec<Beatmap> = Vec::new();
    let mut db_scores: Vec<DBScore> = Vec::new();
    for api_score in it: scores
        invariant
            it.seq() == input,
            maps@ == maps_of(input.take(it.index() as int)),
            db_scores@ == db_scores_of(input.take(it.index() as int), user_id),
    {
        let ghost k = it.index() as int;
        let (map, db_score) = api_score.to_db(user_id);
        maps.push(map);
        db_scores.push(db_score);
        proof {
            assert(input.take(k + 1) == input.take(k).push(input[k]));
        }
        assert(maps@ =~= maps_of(input.take(k + 1)));
        assert(db_scores@ =~= db_scores_of(input.take(k + 1), user_id));
    }
    assert(input.take(input.len() as int) =~= input);
    (maps, db_scores)
}

/// What a synchronisation reports to its caller: `None` when the service does
/// not know the user (an absence, not a failure), the data when it succeeded,
/// and any other failure as it is.
pub fn finish_update(r: Result<UpdateData, UpdateUserError>) -> (o: Result<
    Option<UpdateData>,
    UpdateUserError,
>)
    ensures
        match r {
            Ok(d) => o == Ok::<Option<UpdateData>, UpdateUserError>(Some(d)),
            Err(UpdateUserError::NotFound) => o == Ok::<Option<UpdateData>, UpdateUserError>(None),
            Err(e) => o == Err::<Option<UpdateData>, UpdateUserError>(e),
        },
{
    match r {
        Ok(d) => Ok(Some(d)),
        Err(UpdateUserError::NotFound) => Ok(None),
        Err(e) => Err(e),
    }
}

/// Whether a failed background synchronisation still advances the user's
/// synchronisation time: only when the service does not know the user, so that
/// the same dead user is not picked again; a transient failure is retried.
pub fn advance_after_failure(e: &UpdateUserError) -> (r: bool)
    ensures
        r == (*e is NotFound),
{
    match e {
        UpdateUserError::NotFound => true,
        _ => false,
    }
}

/// Charts by id, a later chart with an id replacing an earlier one.
pub open spec fn maps_by_id(s: Seq<Beatmap>) -> Map<i64, Beatmap>
    decreases s.len(),
{
    if s.len() == 0 {
        Map::empty()
    } else {
        maps_by_id(s.drop_last()).insert(s.last().id, s.last())
    }
}

/// No two charts of the list share an id.
pub open spec fn unique_ids(s: Seq<Beatmap>) -> bool {
    forall|i: int, j: int| 0 <= i < j < s.len() ==> s[i].id != s[j].id
}

proof fn lemma_maps_by_id_update(s: Seq<Beatmap>, j: int, m: Beatmap)
    requires
        0 <= j < s.len(),
        s[j].id == m.id,
        unique_ids(s),
    ensures
        maps_by_id(s.update(j, m)) == maps_by_id(s).insert(m.id, m),
    decreases s.len(),
{
    let u = s.update(j, m);
    let d = s.drop_last();
    if j == s.len() - 1 {
        assert(u.drop_last() =~= d);
        assert(maps_by_id(u) =~= maps_by_id(s).insert(m.id, m));
    } else {
        assert(u.drop_last() =~= d.update(j, m));
        lemma_maps_by_id_update(d, j, m);
        assert(s.last().id != m.id);
        assert(maps_by_id(u) =~= maps_by_id(s).insert(m.id, m));
    }
}

/// Indexes charts by id: one chart per id, the last one given with that id.
pub fn index_maps(maps: Vec<Beatmap>) -> (r: Vec<Beatmap>)
    ensures
        unique_ids(r@),
        maps_by_id(r@) == maps_by_id(maps@),
{
    let ghost input = maps@;
    let mut out: Vec<Beatmap> = Vec::new();
    for m in it: maps
        invariant
            it.seq() == input,
            unique_ids(out@),
            maps_by_id(out@) == maps_by_id(input.take(it.index() as int)),
    {
        let ghost k = it.index() as int;
        assert(input.take(k + 1).drop_last() =~= input.take(k));
        assert(input.take(k + 1).last() == m);
        let mut j: usize = 0;
        let mut found = false;
        while j < out.len() && !found
            invariant
                j <= out@.len(),
                found ==> j < out@.len() && out@[j as int].id == m.id,
                !found ==> forall|i: int| 0 <= i < j ==> #[trigger] out@[i].id != m.id,
            decreases out@.len() - j + if found {
                0int
            } else {
                1int
            },
        {
            if out[j].id == m.id {
                found = true;
            } else {
                j = j + 1;
            }
        }
        if found {
            proof {
                lemma_maps_by_id_update(out@, j as int, m);
            }
            let ghost before = out@;
            out.set(j, m);
            assert(out@ == before.update(j as int, m));
        } else {
            let ghost before = out@;
            out.push(m);
            assert(out@.drop_last() =~= before);
        }
    }
    assert(input.take(input.len() as int) =~= input);
    out
}

/// Whether a fetch came back without an error but with nothing: the service
/// does not know the user.
pub open spec fn absent<T>(r: Result<Option<T>, APIError>) -> bool {
    r matches Ok(None)
}

/// When no fetch failed with an error but one of them says the user does not
/// exist, the whole bundle fails with `NotFound`: no partial bundle is joined.
pub proof fn lemma_absent_fetch_fails_bundle(
    stats: Result<Option<APIStatsUser>, APIError>,
    recent_4k: Result<Option<Vec<APIScore>>, APIError>,
    best_4k: Result<Option<Vec<APIScore>>, APIError>,
    recent_7k: Result<Option<Vec<APIScore>>, APIError>,
    best_7k: Result<Option<Vec<APIScore>>, APIError>,
)
    requires
        stats is Ok,
        recent_4k is Ok,
        best_4k is Ok,
        recent_7k is Ok,
        best_7k is Ok,
        absent(stats) || absent(recent_4k) || absent(best_4k) || absent(recent_7k) || absent(
            best_7k,
        ),
    ensures
        joined(stats, recent_4k, best_4k, recent_7k, best_7k) matches Err(UpdateUserError::NotFound),
{
}

/// The first snapshot of a list that is of `mode`, if any.
pub open spec fn first_of_mode(s: Seq<DBStatsUpdate>, mode: i16) -> Option<DBStatsUpdate>
    decreases s.len(),
{
    if s.len() == 0 {
        None
    } else if s[0].mode == mode {
        Some(s[0])
    } else {
        first_of_mode(s.drop_first(), mode)
    }
}

fn find_mode(rows: &Vec<DBStatsUpdate>, mode: i16) -> (r: Option<DBStatsUpdate>)
    ensures
        r == first_of_mode(rows@, mode),
{
    let mut i: usize = rows.len();
    let mut found: Option<DBStatsUpdate> = None;
    while i > 0
        invariant
            i <= rows@.len(),
            found == first_of_mode(rows@.skip(i as int), mode),
        decreases i,
    {
        i = i - 1;
        assert(rows@.skip(i as int).drop_first() =~= rows@.skip(i + 1));
        if rows[i].mode == mode {
            found = Some(rows[i]);
        }
    }
    assert(rows@.skip(0) =~= rows@);
    found
}

/// Picks the four-key and the seven-key snapshot out of the rows the store
/// returned, which come in no guaranteed order: the first row of each mode.
/// `None` when one of the two modes is missing.
pub fn pick_snapshots(rows: &Vec<DBStatsUpdate>) -> (r: Option<(DBStatsUpdate, DBStatsUpdate)>)
    ensures
        r == match (first_of_mode(rows@, MODE_KEYS4), first_of_mode(rows@, MODE_KEYS7)) {
            (Some(a), Some(b)) => Some((a, b)),
            _ => None,
        },
{
    match (find_mode(rows, MODE_KEYS4), find_mode(rows, MODE_KEYS7)) {
        (Some(a), Some(b)) => Some((a, b)),
        _ => None,
    }
}

} // verus!
