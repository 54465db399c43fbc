//! Identity resolution: from a free-form identifier (a name or a numeric id)
//! to the canonical name and id of a user, through the local store first and
//! the remote service last, recording a user found remotely.
use vstd::prelude::*;
use crate::models::{APIUser, NewDBUser, new_user_of};
use crate::sync::UpdateUserError;
use crate::text::{lower_of, lowercase, parse_i64, parsed_i64};

verus! {

/// Whether a failure of the store is a uniqueness conflict
/// (`Error::DatabaseError(DatabaseErrorKind::UniqueViolation, _)`).
pub uninterp spec fn unique_violation_of(e: diesel::result::Error) -> bool;

/// Relies on diesel's `Error::DatabaseError(DatabaseErrorKind::UniqueViolation, _)`:
/// tells a uniqueness conflict apart from any other failure of the store.
#[verifier::external_body]
fn is_unique_violation(e: &diesel::result::Error) -> (r: bool)
    ensures
        r == unique_violation_of(*e),
{
    matches!(
        e,
        diesel::result::Error::DatabaseError(diesel::result::DatabaseErrorKind::UniqueViolation, _)
    )
}

/// How the creation of a user row went.
pub enum StoreOutcome {
    /// The row was created.
    Stored,
    /// A row for that user existed already (a uniqueness conflict).
    AlreadyPresent,
    /// The store failed otherwise.
    Failed(diesel::result::Error),
}

impl StoreOutcome {
    /// Reads the result of an insert into the users table.
    pub fn from_insert(r: Result<usize, diesel::result::Error>) -> (o: StoreOutcome)
        ensures
            r is Ok ==> o is Stored,
            r matches Err(e) ==> (if unique_violation_of(e) {
                o is AlreadyPresent
            } else {
                o == StoreOutcome::Failed(e)
            }),
    {
        match r {
            Ok(_) => StoreOutcome::Stored,
            Err(e) => if is_unique_violation(&e) {
                StoreOutcome::AlreadyPresent
            } else {
                StoreOutcome::Failed(e)
            },
        }
    }
}

/// The next action of a resolution, or its result.
pub enum ResolveStep {
    /// Look the identifier up as a name in the local store.
    FindIdByUsername(String),
    /// Look this id up in the local store.
    FindUsernameById(i64),
    /// Look the identifier up at the remote service.
    LookupRemote(String),
    /// Create this user row.
    StoreUser(NewDBUser),
    /// The resolution is over: the name and id, or `None` when nobody knows the user.
    Resolved(Option<(String, i64)>),
}

/// A resolution in progress.
pub struct Resolver {
    /// The identifier being resolved.
    pub identifier: String,
    /// The identifier read as a numeric id, when it is one.
    pub parsed: Option<i64>,
    /// The name and id found remotely, once the service has answered.
    pub pending: Option<(String, i64)>,
}

/// The row recorded for a user found remotely: its fields, with the name lower-cased.
pub open spec fn recorded_user(n: NewDBUser, u: APIUser) -> bool {
    &&& n.username@ == lower_of(u.username@)
    &&& n == new_user_of(APIUser { username: n.username, ..u })
}

fn copy_pending(p: &Option<(String, i64)>) -> (r: Option<(String, i64)>)
    ensures
        r == *p,
{
    match p {
        Some((name, id)) => Some((name.clone(), *id)),
        None => None,
    }
}

impl Resolver {
    /// Starts a resolution: the identifier is first looked up as a name.
    pub fn start(identifier: &str) -> (r: (Resolver, ResolveStep))
        ensures
            r.0.identifier@ == identifier@,
            r.0.parsed == parsed_i64(identifier@),
            r.0.pending is None,
            r.1 matches ResolveStep::FindIdByUsername(u) && u@ == identifier@,
    {
        let resolver = Resolver {
            identifier: identifier.to_owned(),
            parsed: parse_i64(identifier),
            pending: None,
        };
        (resolver, ResolveStep::FindIdByUsername(identifier.to_owned()))
    }

    /// After the lookup by name: a hit resolves; a miss goes on with the lookup
    /// by id when the identifier is a number, else with the remote service.
    pub fn on_id_by_username(&self, found: Option<i64>) -> (r: ResolveStep)
        ensures
            match found {
                Some(id) => r matches ResolveStep::Resolved(Some((name, i))) && name@
                    == self.identifier@ && i == id,
                None => match self.parsed {
                    Some(n) => r == ResolveStep::FindUsernameById(n),
                    None => r matches ResolveStep::LookupRemote(q) && q@ == self.identifier@,
                },
            },
    {
        match found {
            Some(id) => ResolveStep::Resolved(Some((self.identifier.clone(), id))),
            None => match self.parsed {
                Some(n) => ResolveStep::FindUsernameById(n),
                None => ResolveStep::LookupRemote(self.identifier.clone()),
            },
        }
    }

    /// After the lookup by id: a hit resolves to the stored name; a miss goes
    /// on with the remote service.
    pub fn on_username_by_id(&self, found: Option<String>) -> (r: ResolveStep)
        ensures
            match (found, self.parsed) {
                (Some(name), Some(id)) => r == ResolveStep::Resolved(Some((name, id))),
                _ => r matches ResolveStep::LookupRemote(q) && q@ == self.identifier@,
            },
    {
        match (found, self.parsed) {
            (Some(name), Some(id)) => ResolveStep::Resolved(Some((name, id))),
            _ => ResolveStep::LookupRemote(self.identifier.clone()),
        }
    }

    /// After the remote lookup: a user found is recorded under its lower-cased
    /// name; nobody found resolves to `None`.
    pub fn on_remote(&mut self, found: Option<APIUser>) -> (r: ResolveStep)
        ensures
            final(self).identifier == old(self).identifier,
            final(self).parsed == old(self).parsed,
            match found {
                Some(u) => (r matches ResolveStep::StoreUser(n) && recorded_user(n, u))
                    && (final(self).pending matches Some((name, id)) && name@ == lower_of(
                    u.username@,
                ) && id == u.id),
                None => r == ResolveStep::Resolved(None) && final(self).pending
                    == old(self).pending,
            },
    {
        match found {
            Some(user) => {
                let lowered = lowercase(user.username.as_str());
                self.pending = Some((lowered.clone(), user.id));
                let row = NewDBUser {
                    id: user.id,
                    username: lowered,
                    steam_id: user.steam_id,
                    time_registered: user.time_registered,
                    country: user.country,
                    avatar_url: user.avatar_url,
                };
                ResolveStep::StoreUser(row)
            },
            None => ResolveStep::Resolved(None),
        }
    }

    /// After the user row was written: created or already there (another
    /// resolution won the race), the resolution ends with the identity found
    /// remotely; any other failure of the store is an error.
    pub fn on_stored(&self, outcome: StoreOutcome) -> (r: Result<ResolveStep, UpdateUserError>)
        ensures
            match outcome {
                StoreOutcome::Failed(e) => r == Err::<ResolveStep, UpdateUserError>(
                    UpdateUserError::DBError(e),
                ),
                _ => r == Ok::<ResolveStep, UpdateUserError>(ResolveStep::Resolved(self.pending)),
            },
    {
        match outcome {
            StoreOutcome::Failed(e) => Err(UpdateUserError::DBError(e)),
            _ => Ok(ResolveStep::Resolved(copy_pending(&self.pending))),
        }
    }
}

} // verus!
