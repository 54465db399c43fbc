use vstd::prelude::*;
use crate::models::{
    APIGetUserStatsResponse, APIGetUsersResponse, APIScore, APIScoresResponse,
    APISearchUsersResponse, APIStatsUser, APIUser,
};
use crate::text::{decimal, decimal_text, parse_i64, parsed_i64};

verus! {

/// Declares `reqwest::Error`, the transport failure of the HTTP client, so that
/// it can be carried inside [`APIError`].
#[verifier::external_type_specification]
#[verifier::external_body]
pub struct ExReqwestError(reqwest::Error);

/// Root of every URL of the remote service.
pub const BASE_URL: &'static str = "https://api.quavergame.com";

/// Builds the full URL of a path of the remote service.
pub fn url(path: &str) -> (r: String)
    ensures
        r@ == BASE_URL@ + path@,
{
    String::from_str(BASE_URL).concat(path)
}

/// A failure while talking to the remote service.
#[derive(Debug)]
pub enum APIError {
    /// The request or the decoding of its body failed.
    ReqwestError(reqwest::Error),
    /// The envelope decoded, but carried a status other than 200.
    BadStatus(u32),
    /// The service reported an error of its own (other than "not found").
    QuaverAPIError { status: u32, error: String },
}

/// Status by which the service reports that what was asked for does not exist.
pub const NOT_FOUND_STATUS: u32 = 404;

/// The service's envelope: either the payload, or a status and a message.
pub enum QuaverResponse<T> {
    Success(T),
    Error { status: u32, error: String },
}

impl<T> QuaverResponse<T> {
    /// Reads the envelope: the payload when there is one, `None` when the service
    /// says "not found", and an error for any other status it reports.
    pub fn success(self) -> (r: Result<Option<T>, APIError>)
        ensures
            match self {
                QuaverResponse::Success(v) => r == Ok::<Option<T>, APIError>(Some(v)),
                QuaverResponse::Error { status, error } => if status == NOT_FOUND_STATUS {
                    r == Ok::<Option<T>, APIError>(None)
                } else {
                    r == Err::<Option<T>, APIError>(APIError::QuaverAPIError { status, error })
                },
            },
    {
        match self {
            QuaverResponse::Success(val) => Ok(Some(val)),
            QuaverResponse::Error { status, error } => {
                if status == NOT_FOUND_STATUS {
                    return Ok(None);
                }
                Err(APIError::QuaverAPIError { status, error })
            },
        }
    }
}

/// URL of the call that returns a user's full record.
pub fn user_stats_url(user_id: i64) -> (r: String)
    ensures
        r@ == BASE_URL@ + "/v1/users/full/"@ + decimal_text(user_id as int) + "/"@,
{
    let id = decimal(user_id);
    let path = String::from_str("/v1/users/full/").concat(id.as_str()).concat("/");
    let r = url(path.as_str());
    assert(r@ =~= BASE_URL@ + "/v1/users/full/"@ + decimal_text(user_id as int) + "/"@);
    r
}

fn scores_url(kind: &str, user_id: i64, mode_id: i16) -> (r: String)
    ensures
        r@ == BASE_URL@ + "/v1/users/scores/"@ + kind@ + "?id="@ + decimal_text(user_id as int)
            + "&mode="@ + decimal_text(mode_id as int),
{
    let id = decimal(user_id);
    let mode = decimal(mode_id as i64);
    let path = String::from_str("/v1/users/scores/").concat(kind).concat("?id=").concat(
        id.as_str(),
    ).concat("&mode=").concat(mode.as_str());
    let r = url(path.as_str());
    assert(r@ =~= BASE_URL@ + "/v1/users/scores/"@ + kind@ + "?id="@ + decimal_text(user_id as int)
        + "&mode="@ + decimal_text(mode_id as int));
    r
}

/// URL of the call that returns a user's best scores in a mode.
pub fn best_scores_url(user_id: i64, mode_id: i16) -> (r: String)
    ensures
        r@ == BASE_URL@ + "/v1/users/scores/"@ + "best"@ + "?id="@ + decimal_text(user_id as int)
            + "&mode="@ + decimal_text(mode_id as int),
{
    scores_url("best", user_id, mode_id)
}

/// URL of the call that returns a user's recent scores in a mode.
pub fn recent_scores_url(user_id: i64, mode_id: i16) -> (r: String)
    ensures
        r@ == BASE_URL@ + "/v1/users/scores/"@ + "recent"@ + "?id="@ + decimal_text(
            user_id as int,
        ) + "&mode="@ + decimal_text(mode_id as int),
{
    scores_url("recent", user_id, mode_id)
}

/// URL of the call that returns the user with an id.
pub fn user_by_id_url(user_id: i64) -> (r: String)
    ensures
        r@ == BASE_URL@ + "/v1/users?id="@ + decimal_text(user_id as int),
{
    let id = decimal(user_id);
    let path = String::from_str("/v1/users?id=").concat(id.as_str());
    let r = url(path.as_str());
    assert(r@ =~= BASE_URL@ + "/v1/users?id="@ + decimal_text(user_id as int));
    r
}

/// URL of the call that searches users by name.
pub fn user_search_url(user: &str) -> (r: String)
    ensures
        r@ == BASE_URL@ + "/v1/users/search/"@ + user@,
{
    let path = String::from_str("/v1/users/search/").concat(user);
    let r = url(path.as_str());
    assert(r@ =~= BASE_URL@ + "/v1/users/search/"@ + user@);
    r
}

/// Status of a payload that carries what was asked for.
pub const OK_STATUS: u32 = 200;

/// What an envelope that carries the service's own error reads as.
pub open spec fn reported<T>(status: u32, error: String) -> Result<Option<T>, APIError> {
    if status == NOT_FOUND_STATUS {
        Ok(None)
    } else {
        Err(APIError::QuaverAPIError { status, error })
    }
}

/// The first item of a list, if any.
pub open spec fn first_of<T>(s: Seq<T>) -> Option<T> {
    if s.len() > 0 {
        Some(s[0])
    } else {
        None
    }
}

fn take_first<T>(v: Vec<T>) -> (r: Option<T>)
    ensures
        r == first_of(v@),
{
    let mut v = v;
    if v.len() > 0 {
        Some(v.swap_remove(0))
    } else {
        None
    }
}

/// Reads the full-user envelope: the record when the payload's status is 200,
/// `BadStatus` for another payload status, and the envelope's own error as
/// [`QuaverResponse::success`] reads it.
pub fn user_stats_from_response(resp: QuaverResponse<APIGetUserStatsResponse>) -> (r: Result<
    Option<APIStatsUser>,
    APIError,
>)
    ensures
        r == match resp {
            QuaverResponse::Success(p) => if p.status == OK_STATUS {
                Ok(Some(p.user))
            } else {
                Err(APIError::BadStatus(p.status))
            },
            QuaverResponse::Error { status, error } => reported(status, error),
        },
{
    match resp.success() {
        Ok(Some(res)) => {
            if res.status != OK_STATUS {
                return Err(APIError::BadStatus(res.status));
            }
            Ok(Some(res.user))
        },
        Ok(None) => Ok(None),
        Err(e) => Err(e),
    }
}

/// Reads a best-scores or recent-scores envelope, as
/// [`user_stats_from_response`] reads the full-user one.
pub fn scores_from_response(resp: QuaverResponse<APIScoresResponse>) -> (r: Result<
    Option<Vec<APIScore>>,
    APIError,
>)
    ensures
        r == match resp {
            QuaverResponse::Success(p) => if p.status == OK_STATUS {
                Ok(Some(p.scores))
            } else {
                Err(APIError::BadStatus(p.status))
            },
            QuaverResponse::Error { status, error } => reported(status, error),
        },
{
    match resp.success() {
        Ok(Some(res)) => {
            if res.status != OK_STATUS {
                return Err(APIError::BadStatus(res.status));
            }
            Ok(Some(res.scores))
        },
        Ok(None) => Ok(None),
        Err(e) => Err(e),
    }
}

/// Reads the user-by-id envelope: the first user of the payload, if any.
pub fn user_from_response(resp: QuaverResponse<APIGetUsersResponse>) -> (r: Result<
    Option<APIUser>,
    APIError,
>)
    ensures
        r == match resp {
            QuaverResponse::Success(p) => Ok(first_of(p.users@)),
            QuaverResponse::Error { status, error } => reported(status, error),
        },
{
    match resp.success() {
        Ok(Some(res)) => Ok(take_first(res.users)),
        Ok(None) => Ok(None),
        Err(e) => Err(e),
    }
}

/// Reads the user-search envelope: the id of the first hit, if any.
pub fn search_hit_from_response(resp: QuaverResponse<APISearchUsersResponse>) -> (r: Result<
    Option<i64>,
    APIError,
>)
    ensures
        r == match resp {
            QuaverResponse::Success(p) => Ok(
                if p.users@.len() > 0 {
                    Some(p.users@[0].id)
                } else {
                    None
                },
            ),
            QuaverResponse::Error { status, error } => reported(status, error),
        },
{
    match resp.success() {
        Ok(Some(res)) => {
            if res.users.len() > 0 {
                Ok(Some(res.users[0].id))
            } else {
                Ok(None)
            }
        },
        Ok(None) => Ok(None),
        Err(e) => Err(e),
    }
}

/// The next remote call of a user lookup, or its result.
pub enum LookupStep {
    /// Fetch the user with this id.
    FetchById(i64),
    /// Search users by this name.
    Search(String),
    /// The lookup is over.
    Finished(Option<APIUser>),
}

/// A lookup of a user at the service by a free-form identifier: by id first
/// when the identifier is a number, then by name through the search, whose
/// first hit is fetched by id.
pub struct UserLookup {
    /// The identifier looked up.
    pub query: String,
    /// Whether the search by name has been made.
    pub searched: bool,
}

impl UserLookup {
    /// Starts a lookup: a numeric identifier is fetched by id, any other is
    /// searched by name.
    pub fn start(user: &str) -> (r: (UserLookup, LookupStep))
        ensures
            r.0.query@ == user@,
            !r.0.searched,
            match parsed_i64(user@) {
                Some(id) => r.1 == LookupStep::FetchById(id),
                None => r.1 matches LookupStep::Search(q) && q@ == user@,
            },
    {
        let lookup = UserLookup { query: user.to_owned(), searched: false };
        match parse_i64(user) {
            Some(id) => (lookup, LookupStep::FetchById(id)),
            None => (lookup, LookupStep::Search(user.to_owned())),
        }
    }

    /// After a fetch by id: a miss on the numeric identifier falls back to the
    /// search by name; otherwise the lookup ends with what was fetched.
    pub fn on_user(&self, found: Option<APIUser>) -> (r: LookupStep)
        ensures
            found is None && !self.searched ==> (r matches LookupStep::Search(q) && q@ == self.query@),
            !(found is None && !self.searched) ==> r == LookupStep::Finished(found),
    {
        match found {
            None => if self.searched {
                LookupStep::Finished(None)
            } else {
                LookupStep::Search(self.query.clone())
            },
            Some(u) => LookupStep::Finished(Some(u)),
        }
    }

    /// After the search by name: the first hit is fetched by id; no hit ends
    /// the lookup with nothing.
    pub fn on_search(&mut self, hit: Option<i64>) -> (r: LookupStep)
        ensures
            final(self).searched,
            final(self).query == old(self).query,
            match hit {
                Some(id) => r == LookupStep::FetchById(id),
                None => r == LookupStep::Finished(None),
            },
    {
        self.searched = true;
        match hit {
            Some(id) => LookupStep::FetchById(id),
            None => LookupStep::Finished(None),
        }
    }
}

} // verus!
