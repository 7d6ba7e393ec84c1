use playlist_player::error::PlaylistError;
use playlist_player::session::{import_next, play_next, ImportStep, PlayStep};

fn run_import(reports: &[bool]) -> Vec<ImportStep> {
    let mut step = ImportStep::start();
    let mut seen = vec![step];
    for &ok in reports {
        step = import_next(step, ok);
        seen.push(step);
    }
    seen
}

fn run_play(reports: &[bool]) -> Vec<PlayStep> {
    let mut step = PlayStep::start();
    let mut seen = vec![step];
    for &ok in reports {
        step = play_next(step, ok);
        seen.push(step);
    }
    seen
}

#[test]
fn import_of_missing_track_fails_without_touching_the_playlist() {
    let seen = run_import(&[false, true, true, true]);
    assert_eq!(*seen.last().unwrap(), ImportStep::Failed(PlaylistError::NotFound));
    assert!(!seen.contains(&ImportStep::CreateFolder));
    assert!(!seen.contains(&ImportStep::CopyTrack));
    assert_eq!(seen.last().unwrap().outcome(), Some(Err(PlaylistError::NotFound)));
}

#[test]
fn import_creates_a_missing_playlist_before_copying() {
    let seen = run_import(&[true, false, true, true]);
    assert_eq!(
        seen,
        vec![
            ImportStep::CheckSource,
            ImportStep::CheckFolder,
            ImportStep::CreateFolder,
            ImportStep::CopyTrack,
            ImportStep::Done,
        ]
    );
    assert_eq!(ImportStep::Done.outcome(), Some(Ok(())));
}

#[test]
fn reimport_into_an_existing_playlist_copies_again() {
    let seen = run_import(&[true, true, true]);
    assert_eq!(
        seen,
        vec![ImportStep::CheckSource, ImportStep::CheckFolder, ImportStep::CopyTrack, ImportStep::Done]
    );
}

#[test]
fn import_reports_file_system_failures_as_io() {
    assert_eq!(*run_import(&[true, false, false]).last().unwrap(), ImportStep::Failed(PlaylistError::Io));
    assert_eq!(*run_import(&[true, true, false]).last().unwrap(), ImportStep::Failed(PlaylistError::Io));
}

#[test]
fn import_steps_before_the_end_have_no_outcome() {
    for step in [ImportStep::CheckSource, ImportStep::CheckFolder, ImportStep::CreateFolder, ImportStep::CopyTrack] {
        assert!(!step.is_finished());
        assert_eq!(step.outcome(), None);
    }
    assert!(ImportStep::Done.is_finished());
    assert!(ImportStep::Failed(PlaylistError::Io).is_finished());
}

#[test]
fn play_of_missing_track_fails_without_opening_the_output() {
    let seen = run_play(&[false, true, true, true, true]);
    assert_eq!(*seen.last().unwrap(), PlayStep::Failed(PlaylistError::NotFound));
    assert!(!seen.contains(&PlayStep::OpenOutput));
    assert!(!seen.contains(&PlayStep::PlayToEnd));
}

#[test]
fn play_reports_output_read_and_decode_failures() {
    assert_eq!(*run_play(&[true, false]).last().unwrap(), PlayStep::Failed(PlaylistError::Playback));
    assert_eq!(*run_play(&[true, true, false]).last().unwrap(), PlayStep::Failed(PlaylistError::Io));
    assert_eq!(*run_play(&[true, true, true, false]).last().unwrap(), PlayStep::Failed(PlaylistError::Playback));
}

#[test]
fn road_trip_import_then_play_succeeds_end_to_end() {
    let imported = run_import(&[true, false, true, true]);
    assert_eq!(imported.last().unwrap().outcome(), Some(Ok(())));
    let played = run_play(&[true, true, true, true, true]);
    assert_eq!(
        played,
        vec![
            PlayStep::CheckTrack,
            PlayStep::OpenOutput,
            PlayStep::ReadTrack,
            PlayStep::DecodeTrack,
            PlayStep::PlayToEnd,
            PlayStep::Done,
        ]
    );
    assert_eq!(PlayStep::Done.outcome(), Some(Ok(())));
    assert!(!PlayStep::PlayToEnd.is_finished());
}
