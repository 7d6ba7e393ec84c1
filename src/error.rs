use vstd::prelude::*;

verus! {

/// Why an operation on a playlist failed.
#[derive(Clone, Copy, Debug, PartialEq, Eq, Structural)]
pub enum PlaylistError {
    /// The track to import or to play is not where it was looked for.
    NotFound,
    /// The file system refused to create a directory or to copy a file.
    Io,
    /// The audio output could not be opened, or the track could not be decoded.
    Playback,
}

} // verus!
