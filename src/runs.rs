//! Whole runs of a session, and what holds of them.
use vstd::prelude::*;
use crate::naming::{file_name_of, joined};
use crate::session::{initial, ActionModel, EventModel, ImageModel, Phase, RunError, SessionModel};

verus! {

/// The session once the listing `images` has arrived.
pub open spec fn listed(dir: Seq<char>, images: Seq<ImageModel>) -> SessionModel {
    initial(dir).after(EventModel::Listed(images))
}

/// Drives a session for at most `fuel` steps against the set of files that
/// exist: each question about a file is answered from the set, and each save
/// succeeds and adds its path to the set. Stops early at an action that is
/// neither.
pub open spec fn drive(s: SessionModel, files: Set<Seq<char>>, fuel: nat) -> (SessionModel, Set<
    Seq<char>,
>)
    decreases fuel,
{
    if fuel == 0 {
        (s, files)
    } else {
        match s.pending() {
            ActionModel::CheckExists { path } => drive(
                s.after(EventModel::Exists(files.contains(path))),
                files,
                (fuel - 1) as nat,
            ),
            ActionModel::Save { url, path } => drive(
                s.after(EventModel::Saved),
                files.insert(path),
                (fuel - 1) as nat,
            ),
            _ => (s, files),
        }
    }
}

/// The actions a session asks for, one after each event.
pub open spec fn actions(s: SessionModel, events: Seq<EventModel>) -> Seq<ActionModel>
    decreases events.len(),
{
    if events.len() == 0 {
        Seq::empty()
    } else {
        let t = s.after(events[0]);
        seq![t.pending()] + actions(t, events.drop_first())
    }
}

/// Steps a run from `s` needs at most until it is done.
pub open spec fn steps_left(s: SessionModel) -> int {
    2 * (s.images.len() - s.index) - (if s.phase is Saving { 1int } else { 0int })
}

/// Every event keeps a session well formed.
pub proof fn lemma_after_wf(s: SessionModel, e: EventModel)
    requires
        s.wf(),
    ensures
        s.after(e).wf(),
{
}

/// The file name of a picture depends on its date and attribution alone, and
/// so does the path it is saved under in a given directory.
pub proof fn lemma_file_name_deterministic(dir: Seq<char>, a: ImageModel, b: ImageModel)
    requires
        a.date_stamp == b.date_stamp,
        a.attribution == b.attribution,
    ensures
        file_name_of(a.date_stamp, a.attribution) == file_name_of(b.date_stamp, b.attribution),
        joined(dir, file_name_of(a.date_stamp, a.attribution)) == joined(
            dir,
            file_name_of(b.date_stamp, b.attribution),
        ),
{
}

/// A picture whose file exists is never downloaded: the answer that the file
/// exists never leads to a download, and a download is asked for only right
/// after the answer that the same file is missing, or again while it is still
/// pending.
pub proof fn lemma_skip_before_fetch(s: SessionModel, e: EventModel)
    requires
        s.wf(),
    ensures
        s.phase is Checking && e == EventModel::Exists(true) ==> !(s.after(e).pending() is Save),
        s.after(e).pending() is Save ==> {
            ||| s.phase is Checking && e == EventModel::Exists(false) && s.after(e).index
                == s.index && s.pending() == (ActionModel::CheckExists {
                path: s.after(e).pending()->Save_path,
            })
            ||| s.phase is Saving && s.after(e) == s
        },
{
}

proof fn lemma_aborted_stays(s: SessionModel, err: RunError, events: Seq<EventModel>)
    requires
        s.phase == Phase::Aborted(err),
    ensures
        forall|i: int|
            0 <= i < events.len() ==> #[trigger] actions(s, events)[i] == ActionModel::Abort(err),
    decreases events.len(),
{
    if events.len() > 0 {
        let t = s.after(events[0]);
        assert(t == s);
        lemma_aborted_stays(t, err, events.drop_first());
        lemma_actions_len(t, events.drop_first());
        assert forall|i: int| 0 <= i < events.len() implies #[trigger] actions(s, events)[i]
            == ActionModel::Abort(err) by {
            if i > 0 {
                assert(actions(s, events)[i] == actions(t, events.drop_first())[i - 1]);
            }
        }
    }
}

/// A listing that cannot be read ends the run with a parse error, whatever
/// is reported afterwards: no picture is downloaded or written.
pub proof fn lemma_parse_failure_aborts(dir: Seq<char>, later: Seq<EventModel>)
    ensures
        initial(dir).pending() is FetchListing,
        ({
            let events = seq![EventModel::Failed(RunError::Parse)] + later;
            let acts = actions(initial(dir), events);
            &&& acts.len() == events.len()
            &&& forall|i: int|
                0 <= i < acts.len() ==> #[trigger] acts[i] == ActionModel::Abort(RunError::Parse)
        }),
{
    let events = seq![EventModel::Failed(RunError::Parse)] + later;
    let t = initial(dir).after(events[0]);
    assert(events.drop_first() =~= later);
    lemma_actions_len(t, later);
    lemma_aborted_stays(t, RunError::Parse, later);
    let acts = actions(initial(dir), events);
    assert forall|i: int| 0 <= i < acts.len() implies #[trigger] acts[i] == ActionModel::Abort(
        RunError::Parse,
    ) by {
        if i > 0 {
            assert(acts[i] == actions(t, later)[i - 1]);
        }
    }
}

proof fn lemma_actions_len(s: SessionModel, events: Seq<EventModel>)
    ensures
        actions(s, events).len() == events.len(),
    decreases events.len(),
{
    if events.len() > 0 {
        lemma_actions_len(s.after(events[0]), events.drop_first());
    }
}

/// A run with enough steps ends done, having added the path of every picture
/// from the current one on to the files, and removed none.
proof fn lemma_run_saves_all(s: SessionModel, files: Set<Seq<char>>, fuel: nat)
    requires
        s.wf(),
        s.phase is Checking || s.phase is Saving || s.phase is Done,
        fuel >= steps_left(s),
    ensures
        ({
            let (t, out) = drive(s, files, fuel);
            &&& t.phase is Done
            &&& t.dir == s.dir
            &&& t.images == s.images
            &&& files.subset_of(out)
            &&& forall|k: int| s.index <= k < s.images.len() ==> out.contains(#[trigger] s.path_of(k))
        }),
    decreases fuel,
{
    if fuel > 0 {
        match s.pending() {
            ActionModel::CheckExists { path } => {
                let t = s.after(EventModel::Exists(files.contains(path)));
                lemma_run_saves_all(t, files, (fuel - 1) as nat);
                let out = drive(t, files, (fuel - 1) as nat).1;
                assert forall|k: int| s.index <= k < s.images.len() implies out.contains(
                    #[trigger] s.path_of(k),
                ) by {
                    assert(t.path_of(k) == s.path_of(k));
                    if k == s.index && files.contains(path) {
                        assert(files.contains(s.path_of(k)));
                    }
                }
            },
            ActionModel::Save { url, path } => {
                let t = s.after(EventModel::Saved);
                lemma_run_saves_all(t, files.insert(path), (fuel - 1) as nat);
                let out = drive(t, files.insert(path), (fuel - 1) as nat).1;
                assert forall|k: int| s.index <= k < s.images.len() implies out.contains(
                    #[trigger] s.path_of(k),
                ) by {
                    assert(t.path_of(k) == s.path_of(k));
                    if k == s.index {
                        assert(files.insert(path).contains(s.path_of(k)));
                    }
                }
            },
            _ => {},
        }
    }
}

/// A run in which every file from the current picture on exists skips them
/// all and leaves the files as they are.
proof fn lemma_run_skips_present(s: SessionModel, files: Set<Seq<char>>, fuel: nat)
    requires
        s.wf(),
        s.phase is Checking || s.phase is Done,
        fuel >= s.images.len() - s.index,
        forall|k: int| s.index <= k < s.images.len() ==> files.contains(#[trigger] s.path_of(k)),
    ensures
        ({
            let (t, out) = drive(s, files, fuel);
            &&& t.phase is Done
            &&& t.skipped == s.skipped + s.images.len() - s.index
            &&& t.downloaded == s.downloaded
            &&& t.images == s.images
            &&& out == files
        }),
    decreases fuel,
{
    if fuel > 0 && s.phase is Checking {
        let t = s.after(EventModel::Exists(true));
        assert(files.contains(s.path_of(s.index as int)));
        assert forall|k: int| t.index <= k < t.images.len() implies files.contains(
            #[trigger] t.path_of(k),
        ) by {
            assert(t.path_of(k) == s.path_of(k));
        }
        lemma_run_skips_present(t, files, (fuel - 1) as nat);
    }
}

/// Running twice against the same listing, with every download of the first
/// run succeeding, the second run downloads nothing and skips every picture.
pub proof fn lemma_second_run_skips_all(
    dir: Seq<char>,
    images: Seq<ImageModel>,
    files: Set<Seq<char>>,
)
    ensures
        ({
            let fuel = 2 * images.len();
            let (first, after_first) = drive(listed(dir, images), files, fuel);
            let (second, after_second) = drive(listed(dir, images), after_first, fuel);
            &&& first.phase is Done
            &&& second.phase is Done
            &&& second.pending() == (ActionModel::Finish {
                total: images.len(),
                downloaded: 0,
                skipped: images.len(),
            })
            &&& after_second == after_first
        }),
{
    let s = listed(dir, images);
    let fuel = 2 * images.len();
    lemma_run_saves_all(s, files, fuel);
    let after_first = drive(s, files, fuel).1;
    lemma_run_skips_present(s, after_first, fuel);
}

/// The path a picture is saved under in `dir`.
pub open spec fn target_path(dir: Seq<char>, d: ImageModel) -> Seq<char> {
    joined(dir, file_name_of(d.date_stamp, d.attribution))
}

/// How many pictures from position `k` on have their file among `files`.
pub open spec fn present_from(
    dir: Seq<char>,
    images: Seq<ImageModel>,
    files: Set<Seq<char>>,
    k: int,
) -> nat
    decreases images.len() - k,
{
    if k < 0 || k >= images.len() {
        0
    } else {
        (if files.contains(target_path(dir, images[k])) {
            1nat
        } else {
            0nat
        }) + present_from(dir, images, files, k + 1)
    }
}

/// No two pictures from position `k` on share a path.
pub open spec fn distinct_from(dir: Seq<char>, images: Seq<ImageModel>, k: int) -> bool {
    forall|i: int, j: int|
        k <= i < j < images.len() ==> target_path(dir, images[i]) != target_path(dir, images[j])
}

proof fn lemma_present_insert_other(
    dir: Seq<char>,
    images: Seq<ImageModel>,
    files: Set<Seq<char>>,
    p: Seq<char>,
    k: int,
)
    requires
        0 <= k,
        forall|j: int| k <= j < images.len() ==> target_path(dir, #[trigger] images[j]) != p,
    ensures
        present_from(dir, images, files.insert(p), k) == present_from(dir, images, files, k),
    decreases images.len() - k,
{
    if k < images.len() {
        lemma_present_insert_other(dir, images, files, p, k + 1);
    }
}

proof fn lemma_run_counts(s: SessionModel, files: Set<Seq<char>>, fuel: nat)
    requires
        s.wf(),
        s.phase is Checking || s.phase is Done,
        fuel >= steps_left(s),
        distinct_from(s.dir, s.images, s.index as int),
    ensures
        ({
            let (t, out) = drive(s, files, fuel);
            let present = present_from(s.dir, s.images, files, s.index as int);
            &&& t.phase is Done
            &&& t.images == s.images
            &&& t.skipped == s.skipped + present
            &&& t.downloaded + present == s.downloaded + s.images.len() - s.index
        }),
    decreases fuel,
{
    if s.phase is Checking {
        let k = s.index as int;
        let path = s.path_of(k);
        assert(path == target_path(s.dir, s.images[k]));
        if files.contains(path) {
            let t = s.after(EventModel::Exists(true));
            lemma_run_counts(t, files, (fuel - 1) as nat);
        } else {
            let u = s.after(EventModel::Exists(false));
            let t = u.after(EventModel::Saved);
            assert(u.pending() == (ActionModel::Save { url: s.url_of(k), path }));
            assert(drive(u, files, (fuel - 1) as nat) == drive(
                t,
                files.insert(path),
                (fuel - 2) as nat,
            ));
            lemma_present_insert_other(s.dir, s.images, files, path, k + 1);
            lemma_run_counts(t, files.insert(path), (fuel - 2) as nat);
        }
    }
}

/// When no two pictures of the listing share a file name, the summary of a
/// run in which every download succeeds counts every picture once: those
/// whose file existed before the run as skipped, the others as downloaded.
pub proof fn lemma_summary_counts(dir: Seq<char>, images: Seq<ImageModel>, files: Set<Seq<char>>)
    requires
        distinct_from(dir, images, 0),
    ensures
        ({
            let (end, _) = drive(listed(dir, images), files, 2 * images.len());
            let present = present_from(dir, images, files, 0);
            &&& present <= images.len()
            &&& end.pending() == (ActionModel::Finish {
                total: images.len(),
                downloaded: (images.len() - present) as nat,
                skipped: present,
            })
        }),
{
    lemma_run_counts(listed(dir, images), files, 2 * images.len());
}

} // verus!
