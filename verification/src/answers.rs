//! The collected answers of a setup session: which services are enabled and
//! their connection parameters, with the stated defaults applied to empty
//! input.  A token may stay empty; it is taken verbatim.

use vstd::prelude::*;
use crate::envfile::EnvValues;
use crate::envfile::EnvView;
use crate::text::defaulted;
use crate::text::or_default;

verus! {

/// Connection parameters of the Storage service.
pub struct StorageParams {
    pub url: String,
    pub user: String,
    pub token: String,
    pub http_port: String,
}

/// Connection parameters of the State service.
pub struct StateParams {
    pub url: String,
    pub token: String,
    pub run_id: String,
}

impl StorageParams {
    /// The parameters a disabled Storage service keeps: every field at its
    /// default, the token empty.
    pub fn defaults() -> (r: Self)
        ensures
            r.url@ == "localhost:50051"@,
            r.user@ == "admin"@,
            r.token@ == Seq::<char>::empty(),
            r.http_port@ == "3000"@,
    {
        StorageParams {
            url: String::from_str("localhost:50051"),
            user: String::from_str("admin"),
            token: String::new(),
            http_port: String::from_str("3000"),
        }
    }

    /// Builds the parameters from the typed answers: an empty answer takes
    /// the stated default, and the token is kept as typed (it may be empty).
    pub fn from_answers(url: String, user: String, token: String, http_port: String) -> (r: Self)
        ensures
            r.url@ == defaulted(url@, "localhost:50051"@),
            r.user@ == defaulted(user@, "admin"@),
            r.token@ == token@,
            r.http_port@ == defaulted(http_port@, "3000"@),
    {
        StorageParams {
            url: or_default(url, "localhost:50051"),
            user: or_default(user, "admin"),
            token,
            http_port: or_default(http_port, "3000"),
        }
    }
}

impl StateParams {
    /// The parameters a disabled State service keeps: every field at its
    /// default, the token empty.
    pub fn defaults() -> (r: Self)
        ensures
            r.url@ == "localhost:50051"@,
            r.token@ == Seq::<char>::empty(),
            r.run_id@ == "default"@,
    {
        StateParams {
            url: String::from_str("localhost:50051"),
            token: String::new(),
            run_id: String::from_str("default"),
        }
    }

    /// Builds the parameters from the typed answers: an empty answer takes
    /// the stated default, and the token is kept as typed (it may be empty).
    pub fn from_answers(url: String, token: String, run_id: String) -> (r: Self)
        ensures
            r.url@ == defaulted(url@, "localhost:50051"@),
            r.token@ == token@,
            r.run_id@ == defaulted(run_id@, "default"@),
    {
        StateParams {
            url: or_default(url, "localhost:50051"),
            token,
            run_id: or_default(run_id, "default"),
        }
    }
}

/// Everything a setup session asked for: the two enablement flags and both
/// parameter sets.  A disabled service carries its defaults, since the
/// environment file records all seven values regardless.
pub struct SetupAnswers {
    pub storage_enabled: bool,
    pub state_enabled: bool,
    pub storage: StorageParams,
    pub state: StateParams,
}

impl SetupAnswers {
    /// Whether the session goes ahead: at least one service is enabled.
    pub open spec fn proceeds(self) -> bool {
        self.storage_enabled || self.state_enabled
    }

    /// Tests whether the session goes ahead: declining both services aborts
    /// it.
    pub fn proceed(&self) -> (b: bool)
        ensures
            b == self.proceeds(),
    {
        self.storage_enabled || self.state_enabled
    }

    /// The seven environment values these answers persist.
    pub open spec fn env_view(self) -> EnvView {
        EnvView {
            storage_url: self.storage.url@,
            storage_user: self.storage.user@,
            storage_token: self.storage.token@,
            storage_http_port: self.storage.http_port@,
            state_url: self.state.url@,
            state_token: self.state.token@,
            state_run_id: self.state.run_id@,
        }
    }

    /// Collects the seven environment values these answers persist.
    pub fn to_env_values(&self) -> (v: EnvValues)
        ensures
            v@ == self.env_view(),
    {
        EnvValues {
            storage_url: self.storage.url.clone(),
            storage_user: self.storage.user.clone(),
            storage_token: self.storage.token.clone(),
            storage_http_port: self.storage.http_port.clone(),
            state_url: self.state.url.clone(),
            state_token: self.state.token.clone(),
            state_run_id: self.state.run_id.clone(),
        }
    }
}

} // verus!
