use vstd::prelude::*;

use crate::error::PlaylistError;
use crate::session::{import_after, import_next_of, play_after, play_next_of, ImportStep, PlayStep};

verus! {

/// Once an import has ended, later reports leave it as it is.
pub proof fn lemma_import_finished_stays(step: ImportStep, reports: Seq<bool>)
    requires
        step is Done || step is Failed,
    ensures
        import_after(step, reports) == step,
    decreases reports.len(),
{
    if reports.len() > 0 {
        lemma_import_finished_stays(import_next_of(step, reports[0]), reports.drop_first());
    }
}

/// Once playing has ended, later reports leave it as it is.
pub proof fn lemma_play_finished_stays(step: PlayStep, reports: Seq<bool>)
    requires
        step is Done || step is Failed,
    ensures
        play_after(step, reports) == step,
    decreases reports.len(),
{
    if reports.len() > 0 {
        lemma_play_finished_stays(play_next_of(step, reports[0]), reports.drop_first());
    }
}

/// Importing a track that is missing from `music/` fails with `NotFound`, whatever the
/// later reports say, and at no point asks for the playlist's directory to be created or
/// for a file to be copied: the destination is left untouched.
pub proof fn law_import_of_missing_track_fails(reports: Seq<bool>)
    requires
        reports.len() >= 1,
        !reports[0],
    ensures
        import_after(ImportStep::CheckSource, reports) == ImportStep::Failed(
            PlaylistError::NotFound,
        ),
        forall|k: int|
            0 <= k <= reports.len() ==> {
                let s = #[trigger] import_after(ImportStep::CheckSource, reports.take(k));
                !(s is CreateFolder) && !(s is CopyTrack)
            },
{
    lemma_import_finished_stays(ImportStep::Failed(PlaylistError::NotFound), reports.drop_first());
    assert forall|k: int| 0 <= k <= reports.len() implies {
        let s = #[trigger] import_after(ImportStep::CheckSource, reports.take(k));
        !(s is CreateFolder) && !(s is CopyTrack)
    } by {
        if k > 0 {
            assert(reports.take(k)[0] == reports[0]);
            lemma_import_finished_stays(
                ImportStep::Failed(PlaylistError::NotFound),
                reports.take(k).drop_first(),
            );
        }
    }
}

/// Importing a track that exists into a playlist whose directory is missing creates that
/// directory next; once it is created and the track copied, the import is done.
pub proof fn law_import_creates_missing_playlist(reports: Seq<bool>)
    requires
        reports.len() >= 2,
        reports[0],
        !reports[1],
    ensures
        import_after(ImportStep::CheckSource, reports.take(2)) == ImportStep::CreateFolder,
        reports.len() >= 4 && reports[2] && reports[3] ==> import_after(
            ImportStep::CheckSource,
            reports,
        ) == ImportStep::Done,
{
    reveal_with_fuel(import_after, 5);
    let t = reports.take(2);
    assert(t.drop_first().drop_first().len() == 0);
    if reports.len() >= 4 && reports[2] && reports[3] {
        let rest = reports.drop_first().drop_first().drop_first().drop_first();
        lemma_import_finished_stays(ImportStep::Done, rest);
    }
}

/// Importing a track that exists into a playlist whose directory exists goes straight to
/// the copy, with no check on a file of the same name already there: a track imported
/// again replaces the earlier copy, and the import is done once the copy succeeds.
pub proof fn law_import_into_existing_playlist_copies(reports: Seq<bool>)
    requires
        reports.len() >= 2,
        reports[0],
        reports[1],
    ensures
        import_after(ImportStep::CheckSource, reports.take(2)) == ImportStep::CopyTrack,
        reports.len() >= 3 && reports[2] ==> import_after(ImportStep::CheckSource, reports)
            == ImportStep::Done,
{
    reveal_with_fuel(import_after, 4);
    let t = reports.take(2);
    assert(t.drop_first().drop_first().len() == 0);
    if reports.len() >= 3 && reports[2] {
        lemma_import_finished_stays(
            ImportStep::Done,
            reports.drop_first().drop_first().drop_first(),
        );
    }
}

/// Playing a track that is missing from the playlist's directory fails with `NotFound`,
/// whatever the later reports say, and at no point asks for the audio output to be opened
/// or for audio to be played.
pub proof fn law_play_of_missing_track_fails(reports: Seq<bool>)
    requires
        reports.len() >= 1,
        !reports[0],
    ensures
        play_after(PlayStep::CheckTrack, reports) == PlayStep::Failed(PlaylistError::NotFound),
        forall|k: int|
            0 <= k <= reports.len() ==> {
                let s = #[trigger] play_after(PlayStep::CheckTrack, reports.take(k));
                !(s is OpenOutput) && !(s is PlayToEnd)
            },
{
    lemma_play_finished_stays(PlayStep::Failed(PlaylistError::NotFound), reports.drop_first());
    assert forall|k: int| 0 <= k <= reports.len() implies {
        let s = #[trigger] play_after(PlayStep::CheckTrack, reports.take(k));
        !(s is OpenOutput) && !(s is PlayToEnd)
    } by {
        if k > 0 {
            assert(reports.take(k)[0] == reports[0]);
            lemma_play_finished_stays(
                PlayStep::Failed(PlaylistError::NotFound),
                reports.take(k).drop_first(),
            );
        }
    }
}

/// Reports handed in two parts lead where the whole of them leads.
pub proof fn lemma_play_after_concat(step: PlayStep, a: Seq<bool>, b: Seq<bool>)
    ensures
        play_after(step, a + b) == play_after(play_after(step, a), b),
    decreases a.len(),
{
    if a.len() > 0 {
        assert((a + b).drop_first() =~= a.drop_first() + b);
        lemma_play_after_concat(play_next_of(step, a[0]), a.drop_first(), b);
    }
}

/// Playing a track ends well exactly when the check, the output, the read and the decoding
/// all succeed; and it ends well only after the step that waits for the audio to finish.
pub proof fn law_play_succeeds_through_every_step(reports: Seq<bool>)
    requires
        reports.len() >= 5,
    ensures
        (play_after(PlayStep::CheckTrack, reports) == PlayStep::Done) <==> (reports[0]
            && reports[1] && reports[2] && reports[3]),
        play_after(PlayStep::CheckTrack, reports) == PlayStep::Done ==> play_after(
            PlayStep::CheckTrack,
            reports.take(4),
        ) == PlayStep::PlayToEnd,
{
    reveal_with_fuel(play_after, 6);
    let head = reports.take(5);
    let tail = reports.skip(5);
    assert(reports =~= head + tail);
    lemma_play_after_concat(PlayStep::CheckTrack, head, tail);
    let mid = play_after(PlayStep::CheckTrack, head);
    assert(head.drop_first().drop_first().drop_first().drop_first().drop_first().len() == 0);
    assert(mid is Done || mid is Failed);
    lemma_play_finished_stays(mid, tail);
    let four = reports.take(4);
    assert(four.drop_first().drop_first().drop_first().drop_first().len() == 0);
}

} // verus!
