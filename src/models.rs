//! Records exchanged with the remote service and rows of the store.
//!
//! Timestamps are milliseconds since the Unix epoch (UTC). Floating-point
//! figures of the service (ratings, accuracies, ratios) are carried as the IEEE-754
//! bit pattern of the `f32` value, which the engine moves but never reads.
use vstd::prelude::*;

verus! {

/// A played chart, as embedded in a score and as stored.
pub struct Beatmap {
    pub id: i64,
    pub mapset_id: i64,
    pub md5: String,
    pub artist: String,
    pub title: String,
    pub difficulty_name: String,
    pub creator_id: i64,
    pub creator_username: String,
    pub ranked_status: i16,
}

/// One play result as the service returns it, with its chart embedded.
pub struct APIScore {
    pub id: i64,
    pub time: i64,
    pub mode: i16,
    pub mods: i64,
    pub mods_string: String,
    /// Bits of an `f32`.
    pub performance_rating: u32,
    pub personal_best: bool,
    pub is_donator_score: Option<bool>,
    pub total_score: i64,
    /// Bits of an `f32`.
    pub accuracy: u32,
    pub grade: String,
    pub max_combo: i64,
    pub count_marv: i64,
    pub count_perf: i64,
    pub count_great: i64,
    pub count_good: i64,
    pub count_okay: i64,
    pub count_miss: i64,
    pub scroll_speed: i64,
    /// Bits of an `f32`.
    pub ratio: u32,
    pub map: Beatmap,
}

/// A stored score: the play result of one user, referring to its chart by id.
pub struct DBScore {
    pub id: i64,
    pub user_id: i64,
    pub time: i64,
    pub mode: i16,
    pub mods: i64,
    pub mods_string: String,
    /// Bits of an `f32`.
    pub performance_rating: u32,
    pub personal_best: bool,
    pub is_donator_score: Option<bool>,
    pub total_score: i64,
    /// Bits of an `f32`.
    pub accuracy: u32,
    pub grade: String,
    pub max_combo: i64,
    pub count_marv: i64,
    pub count_perf: i64,
    pub count_great: i64,
    pub count_good: i64,
    pub count_okay: i64,
    pub count_miss: i64,
    pub scroll_speed: i64,
    /// Bits of an `f32`.
    pub ratio: u32,
    pub map_id: i64,
}

/// The stored score that a fetched score becomes for `user_id`.
pub open spec fn db_score_of(s: APIScore, user_id: i64) -> DBScore {
    DBScore {
        id: s.id,
        user_id,
        time: s.time,
        mode: s.mode,
        mods: s.mods,
        mods_string: s.mods_string,
        performance_rating: s.performance_rating,
        personal_best: s.personal_best,
        is_donator_score: s.is_donator_score,
        total_score: s.total_score,
        accuracy: s.accuracy,
        grade: s.grade,
        max_combo: s.max_combo,
        count_marv: s.count_marv,
        count_perf: s.count_perf,
        count_great: s.count_great,
        count_good: s.count_good,
        count_okay: s.count_okay,
        count_miss: s.count_miss,
        scroll_speed: s.scroll_speed,
        ratio: s.ratio,
        map_id: s.map.id,
    }
}

impl APIScore {
    /// Splits a fetched score into its chart and the stored score of `user_id`.
    pub fn to_db(self, user_id: i64) -> (r: (Beatmap, DBScore))
        ensures
            r.0 == self.map,
            r.1 == db_score_of(self, user_id),
    {
        let db_score = DBScore {
            id: self.id,
            user_id,
            time: self.time,
            mode: self.mode,
            mods: self.mods,
            mods_string: self.mods_string,
            performance_rating: self.performance_rating,
            personal_best: self.personal_best,
            is_donator_score: self.is_donator_score,
            total_score: self.total_score,
            accuracy: self.accuracy,
            grade: self.grade,
            max_combo: self.max_combo,
            count_marv: self.count_marv,
            count_perf: self.count_perf,
            count_great: self.count_great,
            count_good: self.count_good,
            count_okay: self.count_okay,
            count_miss: self.count_miss,
            scroll_speed: self.scroll_speed,
            ratio: self.ratio,
            map_id: self.map.id,
        };
        (self.map, db_score)
    }
}

/// Profile part of a user's full record at the service.
pub struct APIStatsUserInfo {
    pub id: i64,
    pub steam_id: Option<String>,
    pub username: String,
    pub time_registered: Option<i64>,
    pub allowed: i64,
    pub privileges: i64,
    pub usergroups: i64,
    pub mute_endtime: Option<i64>,
    pub latest_activity: String,
    pub country: String,
    pub avatar_url: String,
    pub online: bool,
}

/// The chart an activity entry points at: a placeholder or a real chart.
pub enum ActivityMap {
    EmptyMap { id: i64, name: String },
    Chart(Beatmap),
}

/// One entry of a user's activity feed.
pub struct ActivityFeed {
    pub id: i64,
    pub type_field: i64,
    pub timestamp: i64,
    pub map: Option<ActivityMap>,
}

/// Aggregate figures of one user in one mode.
pub struct APIStats {
    pub user_id: i64,
    pub total_score: i64,
    pub ranked_score: i64,
    /// Bits of an `f32`.
    pub overall_accuracy: u32,
    /// Bits of an `f32`.
    pub overall_performance_rating: u32,
    pub play_count: i64,
    pub fail_count: i64,
    pub max_combo: i64,
    pub replays_watched: i64,
    pub total_marv: i64,
    pub total_perf: i64,
    pub total_great: i64,
    pub total_good: i64,
    pub total_okay: i64,
    pub total_miss: i64,
    pub total_pauses: i64,
    pub multiplayer_wins: i64,
    pub multiplayer_losses: i64,
    pub multiplayer_ties: i64,
}

/// Ranks and aggregate figures of one user in one mode.
pub struct APIModeStats {
    pub global_rank: i64,
    pub country_rank: i64,
    pub multiplayer_win_rank: i64,
    pub stats: APIStats,
}

/// A user's full record at the service: profile and both modes' statistics.
pub struct APIStatsUser {
    pub info: APIStatsUserInfo,
    pub activity_feed: Vec<ActivityFeed>,
    pub keys4: APIModeStats,
    pub keys7: APIModeStats,
}

/// Payload of the full-user call.
pub struct APIGetUserStatsResponse {
    pub status: u32,
    pub user: APIStatsUser,
}

/// Payload of the best-scores and recent-scores calls.
pub struct APIScoresResponse {
    pub status: u32,
    pub scores: Vec<APIScore>,
}

/// A statistics snapshot of one mode, ready to be appended to the history.
#[derive(Clone, Copy)]
pub struct NewDBStatsUpdate {
    pub user_id: i64,
    pub mode: i16,
    pub total_score: i64,
    pub ranked_score: i64,
    /// Bits of an `f32`.
    pub overall_accuracy: u32,
    /// Bits of an `f32`.
    pub overall_performance_rating: u32,
    pub play_count: i64,
    pub fail_count: i64,
    pub max_combo: i64,
    pub replays_watched: i64,
    pub total_marv: i64,
    pub total_perf: i64,
    pub total_great: i64,
    pub total_good: i64,
    pub total_okay: i64,
    pub total_miss: i64,
    pub total_pauses: i64,
    pub multiplayer_wins: i64,
    pub multiplayer_losses: i64,
    pub multiplayer_ties: i64,
    pub country_rank: i64,
    pub global_rank: i64,
    pub multiplayer_win_rank: i64,
}

/// A stored statistics snapshot, with the id and time that the store gave it.
#[derive(Clone, Copy)]
pub struct DBStatsUpdate {
    pub id: i32,
    pub user_id: i64,
    pub recorded_at: i64,
    pub mode: i16,
    pub total_score: i64,
    pub ranked_score: i64,
    /// Bits of an `f32`.
    pub overall_accuracy: u32,
    /// Bits of an `f32`.
    pub overall_performance_rating: u32,
    pub play_count: i64,
    pub fail_count: i64,
    pub max_combo: i64,
    pub replays_watched: i64,
    pub total_marv: i64,
    pub total_perf: i64,
    pub total_great: i64,
    pub total_good: i64,
    pub total_okay: i64,
    pub total_miss: i64,
    pub total_pauses: i64,
    pub multiplayer_wins: i64,
    pub multiplayer_losses: i64,
    pub multiplayer_ties: i64,
    pub country_rank: i64,
    pub global_rank: i64,
    pub multiplayer_win_rank: i64,
}

/// Mode number of the four-key variant.
pub const MODE_KEYS4: i16 = 1;

/// Mode number of the seven-key variant.
pub const MODE_KEYS7: i16 = 2;

/// The snapshot row of `user_id` in `mode` built from that mode's figures.
pub open spec fn stats_row(user_id: i64, mode: i16, m: APIModeStats) -> NewDBStatsUpdate {
    NewDBStatsUpdate {
        user_id,
        mode,
        total_score: m.stats.total_score,
        ranked_score: m.stats.ranked_score,
        overall_accuracy: m.stats.overall_accuracy,
        overall_performance_rating: m.stats.overall_performance_rating,
        play_count: m.stats.play_count,
        fail_count: m.stats.fail_count,
        max_combo: m.stats.max_combo,
        replays_watched: m.stats.replays_watched,
        total_marv: m.stats.total_marv,
        total_perf: m.stats.total_perf,
        total_great: m.stats.total_great,
        total_good: m.stats.total_good,
        total_okay: m.stats.total_okay,
        total_miss: m.stats.total_miss,
        total_pauses: m.stats.total_pauses,
        multiplayer_wins: m.stats.multiplayer_wins,
        multiplayer_losses: m.stats.multiplayer_losses,
        multiplayer_ties: m.stats.multiplayer_ties,
        country_rank: m.country_rank,
        global_rank: m.global_rank,
        multiplayer_win_rank: m.multiplayer_win_rank,
    }
}

/// The two snapshot rows (four-key first) that a user's full record becomes.
pub open spec fn stats_rows(u: APIStatsUser) -> Seq<NewDBStatsUpdate> {
    seq![stats_row(u.info.id, MODE_KEYS4, u.keys4), stats_row(u.info.id, MODE_KEYS7, u.keys7)]
}

fn mode_row(user_id: i64, mode: i16, m: APIModeStats) -> (r: NewDBStatsUpdate)
    ensures
        r == stats_row(user_id, mode, m),
{
    NewDBStatsUpdate {
        user_id,
        mode,
        total_score: m.stats.total_score,
        ranked_score: m.stats.ranked_score,
        overall_accuracy: m.stats.overall_accuracy,
        overall_performance_rating: m.stats.overall_performance_rating,
        play_count: m.stats.play_count,
        fail_count: m.stats.fail_count,
        max_combo: m.stats.max_combo,
        replays_watched: m.stats.replays_watched,
        total_marv: m.stats.total_marv,
        total_perf: m.stats.total_perf,
        total_great: m.stats.total_great,
        total_good: m.stats.total_good,
        total_okay: m.stats.total_okay,
        total_miss: m.stats.total_miss,
        total_pauses: m.stats.total_pauses,
        multiplayer_wins: m.stats.multiplayer_wins,
        multiplayer_losses: m.stats.multiplayer_losses,
        multiplayer_ties: m.stats.multiplayer_ties,
        country_rank: m.country_rank,
        global_rank: m.global_rank,
        multiplayer_win_rank: m.multiplayer_win_rank,
    }
}

impl APIStatsUser {
    /// The two snapshot rows of this record: the four-key mode, then the seven-key mode.
    pub fn to_db(self) -> (r: [NewDBStatsUpdate; 2])
        ensures
            r@ == stats_rows(self),
    {
        let user_id = self.info.id;
        let update_4k = mode_row(user_id, MODE_KEYS4, self.keys4);
        let update_7k = mode_row(user_id, MODE_KEYS7, self.keys7);
        let r = [update_4k, update_7k];
        assert(r@ =~= stats_rows(self));
        r
    }
}

/// A user as the service's user calls return it.
pub struct APIUser {
    pub id: i64,
    pub steam_id: Option<String>,
    pub username: String,
    pub country: Option<String>,
    pub time_registered: Option<i64>,
    pub allowed: bool,
    pub privileges: i64,
    pub usergroups: i64,
    pub mute_endtime: Option<i64>,
    pub latest_activity: String,
    pub avatar_url: Option<String>,
}

/// Payload of the user-by-id call.
pub struct APIGetUsersResponse {
    pub status: u32,
    pub users: Vec<APIUser>,
}

/// One hit of the user search.
pub struct APISearchUser {
    pub id: i64,
    pub username: String,
    pub steam_id: Option<String>,
    pub avatar_url: Option<String>,
}

/// Payload of the user-search call.
pub struct APISearchUsersResponse {
    pub status: u32,
    pub users: Vec<APISearchUser>,
}

/// A user row to be created.
pub struct NewDBUser {
    pub id: i64,
    pub username: String,
    pub steam_id: Option<String>,
    pub time_registered: Option<i64>,
    pub country: Option<String>,
    pub avatar_url: Option<String>,
}

/// The user row that a user of the service becomes.
pub open spec fn new_user_of(u: APIUser) -> NewDBUser {
    NewDBUser {
        id: u.id,
        username: u.username,
        steam_id: u.steam_id,
        time_registered: u.time_registered,
        country: u.country,
        avatar_url: u.avatar_url,
    }
}

impl From<APIUser> for NewDBUser {
    fn from(other: APIUser) -> (r: NewDBUser)
        ensures
            r == new_user_of(other),
    {
        NewDBUser {
            id: other.id,
            username: other.username,
            steam_id: other.steam_id,
            time_registered: other.time_registered,
            country: other.country,
            avatar_url: other.avatar_url,
        }
    }
}

impl vstd::std_specs::convert::FromSpecImpl<APIUser> for NewDBUser {
    open spec fn obeys_from_spec() -> bool {
        true
    }

    open spec fn from_spec(v: APIUser) -> NewDBUser {
        new_user_of(v)
    }
}

/// The mode that a mode name designates: `1`, `4`, `4k` and `k4` the four-key
/// mode, `2`, `7`, `7k` and `k7` the seven-key mode.
pub open spec fn mode_named(m: Seq<char>) -> Option<i16> {
    if m == "1"@ || m == "4"@ || m == "4k"@ || m == "k4"@ {
        Some(MODE_KEYS4)
    } else if m == "2"@ || m == "7"@ || m == "7k"@ || m == "k7"@ {
        Some(MODE_KEYS7)
    } else {
        None
    }
}

/// Reads a mode name; `None` for a name of no mode.
pub fn parse_mode(mode: &str) -> (r: Option<i16>)
    ensures
        r == mode_named(mode@),
{
    let m = mode.to_owned();
    if m == String::from_str("1") || m == String::from_str("4") || m == String::from_str("4k")
        || m == String::from_str("k4") {
        Some(MODE_KEYS4)
    } else if m == String::from_str("2") || m == String::from_str("7") || m == String::from_str(
        "7k",
    ) || m == String::from_str("k7") {
        Some(MODE_KEYS7)
    } else {
        None
    }
}

} // verus!
