use vstd::prelude::*;

verus! {

/// The synchronous error tags that host-facing calls can return.
///
/// `LockFail` is reported by the embedding host when the guard around the
/// shared state cannot be acquired; the verified operations themselves take
/// the state by reference and never produce it.
#[derive(Clone, Copy, Debug, PartialEq, Eq, Structural)]
pub enum SpecterError {
    /// The guard around the shared state could not be acquired.
    LockFail,
    /// No resource with the given id and kind is registered.
    NotFound,
    /// A payload string was rejected by the JSON parser.
    InvalidJson,
    /// The initialization options do not have the expected shape.
    InvalidConfiguration,
    /// The referenced track handle is not registered.
    InvalidTrack,
    /// The transport engine rejected a synchronous operation.
    WebrtcError,
    /// A freshly generated identifier collided with one already used.
    ///
    /// Identifiers come from a generator whose outputs are random; the
    /// registry re-checks them instead of taking uniqueness on trust, and
    /// reports this error rather than silently replacing an entry.
    DuplicateId,
}

} // verus!
