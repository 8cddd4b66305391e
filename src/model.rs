use vstd::prelude::*;

verus! {

/// What the server reports about its seal and initialization state.
#[derive(Debug, Clone)]
pub struct SealStatus {
    pub seal_type: String,
    pub initialized: bool,
    pub sealed: bool,
    /// Shares needed to unseal.
    pub t: u8,
    /// Total shares.
    pub n: u8,
    /// Shares submitted so far toward the threshold.
    pub progress: u8,
    pub nonce: String,
    pub version: String,
    pub build_date: String,
    pub migration: bool,
    pub recovery_seal: bool,
    pub storage_type: String,
}

impl SealStatus {
    /// A status that a well-behaved server reports: `progress <= t <= n`.
    pub open spec fn wf(&self) -> bool {
        self.progress <= self.t && self.t <= self.n
    }

    pub fn is_consistent(&self) -> (r: bool)
        ensures
            r == self.wf(),
    {
        self.progress <= self.t && self.t <= self.n
    }
}

/// Parameters of a new cluster.
#[derive(Debug, Clone, Copy, PartialEq, Eq, Structural)]
pub struct InitRequest {
    pub secret_shares: u8,
    pub secret_threshold: u8,
}

impl InitRequest {
    /// The only configuration this tool creates: one share, threshold one.
    pub fn single_share() -> (r: InitRequest)
        ensures
            r.secret_shares == 1,
            r.secret_threshold == 1,
    {
        InitRequest { secret_shares: 1, secret_threshold: 1 }
    }
}

/// The key material a successful initialization hands out, once.
#[derive(Debug, Clone)]
pub struct InitResult {
    pub keys: Vec<String>,
    pub keys_base64: Vec<String>,
    pub root_token: String,
}

/// One key share submitted toward the unseal threshold.
#[derive(Debug, Clone)]
pub struct UnsealRequest {
    pub key: String,
    pub reset: Option<bool>,
    pub migrate: Option<bool>,
}

impl UnsealRequest {
    /// A plain submission of `key`: neither `reset` nor `migrate` is set.
    pub fn with_key(key: String) -> (r: UnsealRequest)
        ensures
            r.key == key,
            r.reset is None,
            r.migrate is None,
    {
        UnsealRequest { key, reset: None, migrate: None }
    }
}

} // verus!
