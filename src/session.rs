use vstd::prelude::*;

use crate::error::PlaylistError;

verus! {

/// Where an import of a track into a playlist stands: the work to do next, or how it ended.
///
/// Each step but the last two is done by the caller, who reports whether it succeeded
/// (for a check: whether the path exists) to `import_next`.
#[derive(Clone, Copy, Debug, PartialEq, Eq, Structural)]
pub enum ImportStep {
    /// Check that the track exists under `music/`.
    CheckSource,
    /// Check that the playlist's directory exists.
    CheckFolder,
    /// Create the playlist's directory, with its parents.
    CreateFolder,
    /// Copy the track into the playlist's directory, replacing a file of the same name.
    CopyTrack,
    /// The track was copied.
    Done,
    /// The import stopped with this error.
    Failed(PlaylistError),
}

/// The step that follows `step` when its work reported `ok`.
pub open spec fn import_next_of(step: ImportStep, ok: bool) -> ImportStep {
    match step {
        ImportStep::CheckSource => if ok {
            ImportStep::CheckFolder
        } else {
            ImportStep::Failed(PlaylistError::NotFound)
        },
        ImportStep::CheckFolder => if ok {
            ImportStep::CopyTrack
        } else {
            ImportStep::CreateFolder
        },
        ImportStep::CreateFolder => if ok {
            ImportStep::CopyTrack
        } else {
            ImportStep::Failed(PlaylistError::Io)
        },
        ImportStep::CopyTrack => if ok {
            ImportStep::Done
        } else {
            ImportStep::Failed(PlaylistError::Io)
        },
        ImportStep::Done => ImportStep::Done,
        ImportStep::Failed(e) => ImportStep::Failed(e),
    }
}

/// The step reached from `step` after the works report `reports`, in order.
pub open spec fn import_after(step: ImportStep, reports: Seq<bool>) -> ImportStep
    decreases reports.len(),
{
    if reports.len() == 0 {
        step
    } else {
        import_after(import_next_of(step, reports[0]), reports.drop_first())
    }
}

impl ImportStep {
    /// The first step of every import.
    pub fn start() -> (r: ImportStep)
        ensures
            r == ImportStep::CheckSource,
    {
        ImportStep::CheckSource
    }

    /// Whether the import has ended, well or not.
    pub fn is_finished(&self) -> (r: bool)
        ensures
            r == (*self is Done || *self is Failed),
    {
        match self {
            ImportStep::Done | ImportStep::Failed(_) => true,
            _ => false,
        }
    }

    /// How a finished import ended; `None` while work is left.
    pub fn outcome(&self) -> (r: Option<Result<(), PlaylistError>>)
        ensures
            r == match *self {
                ImportStep::Done => Some(Ok(())),
                ImportStep::Failed(e) => Some(Err(e)),
                _ => None,
            },
    {
        match self {
            ImportStep::Done => Some(Ok(())),
            ImportStep::Failed(e) => Some(Err(*e)),
            _ => None,
        }
    }
}

/// The step that follows `step` once its work has reported `ok`.
pub fn import_next(step: ImportStep, ok: bool) -> (r: ImportStep)
    ensures
        r == import_next_of(step, ok),
{
    match step {
        ImportStep::CheckSource => if ok {
            ImportStep::CheckFolder
        } else {
            ImportStep::Failed(PlaylistError::NotFound)
        },
        ImportStep::CheckFolder => if ok {
            ImportStep::CopyTrack
        } else {
            ImportStep::CreateFolder
        },
        ImportStep::CreateFolder => if ok {
            ImportStep::CopyTrack
        } else {
            ImportStep::Failed(PlaylistError::Io)
        },
        ImportStep::CopyTrack => if ok {
            ImportStep::Done
        } else {
            ImportStep::Failed(PlaylistError::Io)
        },
        ImportStep::Done => ImportStep::Done,
        ImportStep::Failed(e) => ImportStep::Failed(e),
    }
}

/// Where playing a track stands: the work to do next, or how it ended.
///
/// Each step but the last two is done by the caller, who reports whether it succeeded
/// (for the check: whether the track exists) to `play_next`.
#[derive(Clone, Copy, Debug, PartialEq, Eq, Structural)]
pub enum PlayStep {
    /// Check that the track exists in the playlist's directory.
    CheckTrack,
    /// Open the default audio output and a sink on it.
    OpenOutput,
    /// Open the track's file.
    ReadTrack,
    /// Decode the file's data into audio.
    DecodeTrack,
    /// Queue the decoded audio on the sink and wait until it has played.
    PlayToEnd,
    /// The track was played to its end.
    Done,
    /// Playing stopped with this error.
    Failed(PlaylistError),
}

/// The step that follows `step` when its work reported `ok`.
pub open spec fn play_next_of(step: PlayStep, ok: bool) -> PlayStep {
    match step {
        PlayStep::CheckTrack => if ok {
            PlayStep::OpenOutput
        } else {
            PlayStep::Failed(PlaylistError::NotFound)
        },
        PlayStep::OpenOutput => if ok {
            PlayStep::ReadTrack
        } else {
            PlayStep::Failed(PlaylistError::Playback)
        },
        PlayStep::ReadTrack => if ok {
            PlayStep::DecodeTrack
        } else {
            PlayStep::Failed(PlaylistError::Io)
        },
        PlayStep::DecodeTrack => if ok {
            PlayStep::PlayToEnd
        } else {
            PlayStep::Failed(PlaylistError::Playback)
        },
        PlayStep::PlayToEnd => PlayStep::Done,
        PlayStep::Done => PlayStep::Done,
        PlayStep::Failed(e) => PlayStep::Failed(e),
    }
}

/// The step reached from `step` after the works report `reports`, in order.
pub open spec fn play_after(step: PlayStep, reports: Seq<bool>) -> PlayStep
    decreases reports.len(),
{
    if reports.len() == 0 {
        step
    } else {
        play_after(play_next_of(step, reports[0]), reports.drop_first())
    }
}

impl PlayStep {
    /// The first step of every playback.
    pub fn start() -> (r: PlayStep)
        ensures
            r == PlayStep::CheckTrack,
    {
        PlayStep::CheckTrack
    }

    /// Whether playing has ended, well or not.
    pub fn is_finished(&self) -> (r: bool)
        ensures
            r == (*self is Done || *self is Failed),
    {
        match self {
            PlayStep::Done | PlayStep::Failed(_) => true,
            _ => false,
        }
    }

    /// How a finished playback ended; `None` while work is left.
    pub fn outcome(&self) -> (r: Option<Result<(), PlaylistError>>)
        ensures
            r == match *self {
                PlayStep::Done => Some(Ok(())),
                PlayStep::Failed(e) => Some(Err(e)),
                _ => None,
            },
    {
        match self {
            PlayStep::Done => Some(Ok(())),
            PlayStep::Failed(e) => Some(Err(*e)),
            _ => None,
        }
    }
}

/// The step that follows `step` once its work has reported `ok`.
pub fn play_next(step: PlayStep, ok: bool) -> (r: PlayStep)
    ensures
        r == play_next_of(step, ok),
{
    match step {
        PlayStep::CheckTrack => if ok {
            PlayStep::OpenOutput
        } else {
            PlayStep::Failed(PlaylistError::NotFound)
        },
        PlayStep::OpenOutput => if ok {
            PlayStep::ReadTrack
        } else {
            PlayStep::Failed(PlaylistError::Playback)
        },
        PlayStep::ReadTrack => if ok {
            PlayStep::DecodeTrack
        } else {
            PlayStep::Failed(PlaylistError::Io)
        },
        PlayStep::DecodeTrack => if ok {
            PlayStep::PlayToEnd
        } else {
            PlayStep::Failed(PlaylistError::Playback)
        },
        PlayStep::PlayToEnd => PlayStep::Done,
        PlayStep::Done => PlayStep::Done,
        PlayStep::Failed(e) => PlayStep::Failed(e),
    }
}

} // verus!
