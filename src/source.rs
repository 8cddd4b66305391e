use vstd::prelude::*;
use crate::error::SourceError;

verus! {

/// A snapshot reference as the operator wrote it: its scheme and, for a `file`
/// reference, the local path it names.
#[derive(Debug, Clone)]
pub struct SnapshotRef {
    pub scheme: String,
    pub file_path: Option<String>,
}

/// A reference resolved to a handler that can stream the snapshot's bytes.
#[derive(Debug, Clone)]
pub enum SnapshotSource {
    /// A file on the local filesystem, streamed without buffering it whole.
    LocalFile { path: String },
}

impl SnapshotSource {
    /// An equal, separately owned source.
    pub fn duplicate(&self) -> (r: SnapshotSource)
        ensures
            r == *self,
    {
        match self {
            SnapshotSource::LocalFile { path } => SnapshotSource::LocalFile { path: path.clone() },
        }
    }
}

/// The scheme of a reference to a local file.
pub open spec fn file_scheme() -> Seq<char> {
    seq!['f', 'i', 'l', 'e']
}

/// What resolving `r` yields.
pub open spec fn resolved(r: SnapshotRef) -> Result<SnapshotSource, SourceError> {
    if r.scheme@ != file_scheme() {
        Err(SourceError::UnsupportedScheme(r.scheme))
    } else {
        match r.file_path {
            Some(path) => Ok(SnapshotSource::LocalFile { path }),
            None => Err(SourceError::NotALocalPath),
        }
    }
}

/// Picks the handler for a snapshot reference; a scheme without one is refused
/// at once.
pub fn resolve(r: SnapshotRef) -> (res: Result<SnapshotSource, SourceError>)
    ensures
        res == resolved(r),
{
    let file = "file".to_owned();
    proof {
        reveal_strlit("file");
        assert(file@ =~= file_scheme());
    }
    if r.scheme != file {
        return Err(SourceError::UnsupportedScheme(r.scheme));
    }
    match r.file_path {
        Some(path) => Ok(SnapshotSource::LocalFile { path }),
        None => Err(SourceError::NotALocalPath),
    }
}

} // verus!
