use vstd::prelude::*;
use crate::error::{Error, Input};
use crate::source::{resolve, resolved, SnapshotRef, SnapshotSource};

verus! {

/// What the operator asked for.
#[derive(Debug, Clone, Copy, PartialEq, Eq, Structural)]
pub enum Mode {
    /// Wait until the server answers, and stop there.
    WaitForServer,
    /// Initialize an empty cluster and unseal it with the key it hands out.
    Bootstrap,
    /// Force a snapshot into the cluster and unseal it with the operator's key.
    Restore,
}

/// The operator's inputs, checked and bound once for a whole run.
#[derive(Debug, Clone)]
pub struct Plan {
    pub mode: Mode,
    /// The resolved snapshot; present exactly when restoring.
    pub snapshot: Option<SnapshotSource>,
    /// The operator's unseal key; present exactly when restoring.
    pub unseal_key: Option<String>,
    /// How many unanswered probes to tolerate; `None` waits for ever.
    pub probe_limit: Option<u64>,
}

impl Plan {
    /// A restore plan carries the snapshot and the key that the restore flow
    /// uses; any other plan carries neither.
    pub open spec fn wf(&self) -> bool {
        &&& self.mode == Mode::Restore ==> (self.snapshot is Some && self.unseal_key is Some)
        &&& self.mode != Mode::Restore ==> (self.snapshot is None && self.unseal_key is None)
    }
}

/// The plan that `prepare` builds from the operator's inputs.
pub open spec fn prepared(
    mode: Mode,
    snapshot: Option<SnapshotRef>,
    unseal_key: Option<String>,
    probe_limit: Option<u64>,
) -> Result<Plan, Error> {
    if mode != Mode::Restore {
        Ok(Plan { mode, snapshot: None, unseal_key: None, probe_limit })
    } else {
        match snapshot {
            None => Err(Error::MissingInput(Input::SnapshotSource)),
            Some(r) => match resolved(r) {
                Err(e) => Err(Error::SourceResolution(e)),
                Ok(s) => match unseal_key {
                    None => Err(Error::MissingInput(Input::UnsealKey)),
                    Some(k) => Ok(Plan { mode, snapshot: Some(s), unseal_key: Some(k), probe_limit }),
                },
            },
        }
    }
}

/// Checks the operator's inputs before any remote call. Waiting and
/// bootstrapping need neither a snapshot nor a key and drop them; restoring
/// needs both, and a snapshot whose reference resolves.
pub fn prepare(
    mode: Mode,
    snapshot: Option<SnapshotRef>,
    unseal_key: Option<String>,
    probe_limit: Option<u64>,
) -> (res: Result<Plan, Error>)
    ensures
        res == prepared(mode, snapshot, unseal_key, probe_limit),
        res is Ok ==> res->Ok_0.wf() && res->Ok_0.mode == mode,
        mode == Mode::Restore ==> (res is Ok <==> (snapshot is Some && resolved(
            snapshot->Some_0,
        ) is Ok && unseal_key is Some)),
        mode != Mode::Restore ==> res is Ok,
{
    if mode != Mode::Restore {
        return Ok(Plan { mode, snapshot: None, unseal_key: None, probe_limit });
    }
    let r = match snapshot {
        None => return Err(Error::MissingInput(Input::SnapshotSource)),
        Some(r) => r,
    };
    let s = match resolve(r) {
        Err(e) => return Err(Error::SourceResolution(e)),
        Ok(s) => s,
    };
    match unseal_key {
        None => Err(Error::MissingInput(Input::UnsealKey)),
        Some(k) => Ok(Plan { mode, snapshot: Some(s), unseal_key: Some(k), probe_limit }),
    }
}

} // verus!
