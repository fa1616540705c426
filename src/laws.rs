use vstd::prelude::*;

use crate::artifact::{artifact_dir_spec, is_artifact, locate, DirEntry};
use crate::error::{outcome_view, BuildError, BuildErrorView};
use crate::invocation::docker_argv;
use crate::options::BuildCommand;
use crate::orchestrator::{begin, next, ActionView, Event, PathReading, PhaseView};

verus! {

/// The actions that the events bring about, one each, from phase `p` on.
pub open spec fn run_from(o: BuildCommand, image: Seq<char>, p: PhaseView, events: Seq<Event>) -> Seq<
    ActionView,
>
    decreases events.len(),
{
    if events.len() == 0 {
        Seq::empty()
    } else {
        let (q, a) = next(o, image, p, events[0]);
        seq![a] + run_from(o, image, q, events.drop_first())
    }
}

/// All the actions of a run: the first one, then one for each event.
pub open spec fn session(o: BuildCommand, image: Seq<char>, events: Seq<Event>) -> Seq<ActionView> {
    let (p, a) = begin(o, image);
    seq![a] + run_from(o, image, p, events)
}

/// How many of the actions warn that verification is skipped.
pub open spec fn warning_count(actions: Seq<ActionView>) -> nat
    decreases actions.len(),
{
    if actions.len() == 0 {
        0
    } else {
        (if actions[0] is WarnAndRunLocal {
            1nat
        } else {
            0nat
        }) + warning_count(actions.drop_first())
    }
}

/// The events that settle the project root: none when the options give it,
/// else the reading of the current working directory `cwd`.
pub open spec fn lead_in(o: BuildCommand, cwd: String) -> Seq<Event> {
    if o.manifest_path is Some {
        Seq::empty()
    } else {
        seq![Event::CurrentDir(PathReading::Utf8(cwd))]
    }
}

/// The project root: the one the options give, else `cwd`.
pub open spec fn project_root(o: BuildCommand, cwd: String) -> Seq<char> {
    match o.manifest_path {
        Some(m) => m@,
        None => cwd@,
    }
}

proof fn lemma_local_phases_never_launch(
    o: BuildCommand,
    image: Seq<char>,
    p: PhaseView,
    events: Seq<Event>,
)
    requires
        p is BuildingLocally || p is Finished,
    ensures
        forall|i: int| 0 <= i < run_from(o, image, p, events).len() ==> !(run_from(o, image, p, events)[i] is LaunchContainer),
    decreases events.len(),
{
    if events.len() > 0 {
        let (q, a) = next(o, image, p, events[0]);
        lemma_local_phases_never_launch(o, image, q, events.drop_first());
        let rest = run_from(o, image, q, events.drop_first());
        assert(run_from(o, image, p, events) == seq![a] + rest);
        assert forall|i: int| 0 <= i < run_from(o, image, p, events).len() implies !(run_from(
            o,
            image,
            p,
            events,
        )[i] is LaunchContainer) by {
            if i > 0 {
                assert(run_from(o, image, p, events)[i] == rest[i - 1]);
            }
        }
    }
}

/// When a local build is asked for, no container is ever launched, whatever
/// happens; and the run's outcome is the local build's.
pub proof fn local_build_skips_container(
    o: BuildCommand,
    image: Seq<char>,
    events: Seq<Event>,
    r: Result<String, BuildError>,
)
    requires
        o.no_docker,
    ensures
        forall|i: int| 0 <= i < session(o, image, events).len() ==> !(session(o, image, events)[i] is LaunchContainer),
        session(o, image, seq![Event::LocalBuildFinished(r)]) == seq![
            ActionView::RunLocal,
            ActionView::Finish(outcome_view(r)),
        ],
{
    lemma_local_phases_never_launch(o, image, PhaseView::BuildingLocally, events);
    let s = session(o, image, events);
    let rest = run_from(o, image, PhaseView::BuildingLocally, events);
    assert forall|i: int| 0 <= i < s.len() implies !(s[i] is LaunchContainer) by {
        if i > 0 {
            assert(s[i] == rest[i - 1]);
        }
    }
    reveal_with_fuel(run_from, 2);
    assert(session(o, image, seq![Event::LocalBuildFinished(r)]) =~= seq![
        ActionView::RunLocal,
        ActionView::Finish(outcome_view(r)),
    ]);
}

/// The actions of a run in which the container path ends with `failure`
/// and the local build then with `r`.
pub open spec fn fallback_session(
    o: BuildCommand,
    image: Seq<char>,
    cwd: String,
    failure: Event,
    r: Result<String, BuildError>,
) -> Seq<ActionView> {
    session(o, image, lead_in(o, cwd) + seq![failure, Event::LocalBuildFinished(r)])
}

proof fn lemma_fallback(
    o: BuildCommand,
    image: Seq<char>,
    cwd: String,
    failure: Event,
    r: Result<String, BuildError>,
)
    requires
        !o.no_docker,
        failure is ContainerLaunchFailed || failure == (Event::ContainerExited { success: false }),
    ensures
        fallback_session(o, image, cwd, failure, r) == seq![
            ActionView::LaunchContainer(docker_argv(o, project_root(o, cwd), image)),
            ActionView::WarnAndRunLocal,
            ActionView::Finish(outcome_view(r)),
        ] || fallback_session(o, image, cwd, failure, r) == seq![
            ActionView::ReadCurrentDir,
            ActionView::LaunchContainer(docker_argv(o, project_root(o, cwd), image)),
            ActionView::WarnAndRunLocal,
            ActionView::Finish(outcome_view(r)),
        ],
{
    reveal_with_fuel(run_from, 4);
    let events = lead_in(o, cwd) + seq![failure, Event::LocalBuildFinished(r)];
    if o.manifest_path is Some {
        assert(events =~= seq![failure, Event::LocalBuildFinished(r)]);
        assert(events.drop_first() =~= seq![Event::LocalBuildFinished(r)]);
        assert(events.drop_first().drop_first() =~= Seq::<Event>::empty());
        assert(fallback_session(o, image, cwd, failure, r) =~= seq![
            ActionView::LaunchContainer(docker_argv(o, project_root(o, cwd), image)),
            ActionView::WarnAndRunLocal,
            ActionView::Finish(outcome_view(r)),
        ]);
    } else {
        let cur = Event::CurrentDir(PathReading::Utf8(cwd));
        assert(events =~= seq![cur, failure, Event::LocalBuildFinished(r)]);
        assert(events.drop_first() =~= seq![failure, Event::LocalBuildFinished(r)]);
        assert(events.drop_first().drop_first() =~= seq![Event::LocalBuildFinished(r)]);
        assert(events.drop_first().drop_first().drop_first() =~= Seq::<Event>::empty());
        assert(fallback_session(o, image, cwd, failure, r) =~= seq![
            ActionView::ReadCurrentDir,
            ActionView::LaunchContainer(docker_argv(o, project_root(o, cwd), image)),
            ActionView::WarnAndRunLocal,
            ActionView::Finish(outcome_view(r)),
        ]);
    }
}

proof fn lemma_fallback_facts(
    o: BuildCommand,
    image: Seq<char>,
    cwd: String,
    failure: Event,
    r: Result<String, BuildError>,
)
    requires
        !o.no_docker,
        failure is ContainerLaunchFailed || failure == (Event::ContainerExited { success: false }),
    ensures
        fallback_session(o, image, cwd, failure, r).contains(
            ActionView::LaunchContainer(docker_argv(o, project_root(o, cwd), image)),
        ),
        fallback_session(o, image, cwd, failure, r).last() == ActionView::Finish(outcome_view(r)),
        warning_count(fallback_session(o, image, cwd, failure, r)) == 1,
{
    lemma_fallback(o, image, cwd, failure, r);
    let s = fallback_session(o, image, cwd, failure, r);
    reveal_with_fuel(warning_count, 5);
    if s.len() == 3 {
        assert(s[0] == ActionView::LaunchContainer(docker_argv(o, project_root(o, cwd), image)));
        assert(s.drop_first().drop_first().drop_first() =~= Seq::<ActionView>::empty());
    } else {
        assert(s[1] == ActionView::LaunchContainer(docker_argv(o, project_root(o, cwd), image)));
        assert(s.drop_first().drop_first().drop_first().drop_first() =~= Seq::<ActionView>::empty());
    }
}

/// When the container process cannot be launched, the run warns exactly
/// once and its outcome is the local build's.
pub proof fn launch_failure_falls_back(
    o: BuildCommand,
    image: Seq<char>,
    cwd: String,
    r: Result<String, BuildError>,
)
    requires
        !o.no_docker,
    ensures
        fallback_session(o, image, cwd, Event::ContainerLaunchFailed, r).contains(
            ActionView::LaunchContainer(docker_argv(o, project_root(o, cwd), image)),
        ),
        fallback_session(o, image, cwd, Event::ContainerLaunchFailed, r).last()
            == ActionView::Finish(outcome_view(r)),
        warning_count(fallback_session(o, image, cwd, Event::ContainerLaunchFailed, r)) == 1,
{
    lemma_fallback_facts(o, image, cwd, Event::ContainerLaunchFailed, r);
}

/// When the container build exits unsuccessfully, the run warns exactly
/// once and its outcome is the local build's.
pub proof fn failed_container_falls_back(
    o: BuildCommand,
    image: Seq<char>,
    cwd: String,
    r: Result<String, BuildError>,
)
    requires
        !o.no_docker,
    ensures
        fallback_session(o, image, cwd, Event::ContainerExited { success: false }, r).contains(
            ActionView::LaunchContainer(docker_argv(o, project_root(o, cwd), image)),
        ),
        fallback_session(o, image, cwd, Event::ContainerExited { success: false }, r).last()
            == ActionView::Finish(outcome_view(r)),
        warning_count(fallback_session(o, image, cwd, Event::ContainerExited { success: false }, r))
            == 1,
{
    lemma_fallback_facts(o, image, cwd, Event::ContainerExited { success: false }, r);
}

proof fn lemma_locate_first(dir: Seq<char>, entries: Seq<DirEntry>, k: int)
    requires
        0 <= k < entries.len(),
        is_artifact(entries[k]),
        forall|j: int| 0 <= j < k ==> !is_artifact(#[trigger] entries[j]),
    ensures
        locate(dir, entries) == (if entries[k].is_utf8 {
            Ok(entries[k].path@)
        } else {
            Err(BuildErrorView::PathConversionFailure { raw: entries[k].path@ })
        }),
    decreases k,
{
    if k > 0 {
        assert(!is_artifact(entries[0]));
        let rest = entries.drop_first();
        assert forall|j: int| 0 <= j < k - 1 implies !is_artifact(#[trigger] rest[j]) by {
            assert(rest[j] == entries[j + 1]);
        }
        lemma_locate_first(dir, rest, k - 1);
    }
}

/// The actions of a run whose container build succeeds and whose output
/// directory then lists `entries`.
pub open spec fn container_session(
    o: BuildCommand,
    image: Seq<char>,
    cwd: String,
    entries: Vec<DirEntry>,
) -> Seq<ActionView> {
    session(
        o,
        image,
        lead_in(o, cwd) + seq![Event::ContainerExited { success: true }, Event::DirectoryListed(entries)],
    )
}

/// When the container build succeeds and its output directory holds exactly
/// one artifact, whose path is valid UTF-8, the outcome is that path, the
/// directory listed is `<root>/target/near`, and nothing warns.
pub proof fn container_success_finds_artifact(
    o: BuildCommand,
    image: Seq<char>,
    cwd: String,
    entries: Vec<DirEntry>,
    k: int,
)
    requires
        !o.no_docker,
        0 <= k < entries@.len(),
        is_artifact(entries@[k]),
        entries@[k].is_utf8,
        forall|j: int| 0 <= j < entries@.len() && j != k ==> !is_artifact(#[trigger] entries@[j]),
    ensures
        container_session(o, image, cwd, entries).contains(
            ActionView::ListDirectory(artifact_dir_spec(project_root(o, cwd))),
        ),
        container_session(o, image, cwd, entries).last() == ActionView::Finish(
            Ok(entries@[k].path@),
        ),
        warning_count(container_session(o, image, cwd, entries)) == 0,
{
    let dir = artifact_dir_spec(project_root(o, cwd));
    lemma_locate_first(dir, entries@, k);
    reveal_with_fuel(run_from, 4);
    reveal_with_fuel(warning_count, 5);
    let ok = Event::ContainerExited { success: true };
    let listed = Event::DirectoryListed(entries);
    let events = lead_in(o, cwd) + seq![ok, listed];
    let launch = ActionView::LaunchContainer(docker_argv(o, project_root(o, cwd), image));
    let s = container_session(o, image, cwd, entries);
    let fin = ActionView::Finish(Ok(entries@[k].path@));
    if o.manifest_path is Some {
        assert(events =~= seq![ok, listed]);
        assert(events.drop_first() =~= seq![listed]);
        assert(events.drop_first().drop_first() =~= Seq::<Event>::empty());
        assert(s =~= seq![launch, ActionView::ListDirectory(dir), fin]);
        assert(s[1] == ActionView::ListDirectory(dir));
        assert(s.drop_first().drop_first().drop_first() =~= Seq::<ActionView>::empty());
    } else {
        let cur = Event::CurrentDir(PathReading::Utf8(cwd));
        assert(events =~= seq![cur, ok, listed]);
        assert(events.drop_first() =~= seq![ok, listed]);
        assert(events.drop_first().drop_first() =~= seq![listed]);
        assert(events.drop_first().drop_first().drop_first() =~= Seq::<Event>::empty());
        assert(s =~= seq![ActionView::ReadCurrentDir, launch, ActionView::ListDirectory(dir), fin]);
        assert(s[2] == ActionView::ListDirectory(dir));
        assert(s.drop_first().drop_first().drop_first().drop_first() =~= Seq::<ActionView>::empty());
    }
}

/// Looking in an empty directory fails with `ArtifactNotFound`, naming the
/// directory; a directory that cannot be listed fails with
/// `DirectoryUnreadable`, naming the directory and the cause.
pub proof fn locator_failures(
    o: BuildCommand,
    image: Seq<char>,
    dir: Seq<char>,
    empty: Vec<DirEntry>,
    cause: String,
)
    requires
        empty@.len() == 0,
    ensures
        locate(dir, empty@) == Err::<Seq<char>, BuildErrorView>(
            BuildErrorView::ArtifactNotFound { dir },
        ),
        next(o, image, PhaseView::LocatingArtifact { dir }, Event::DirectoryListed(empty)) == (
            PhaseView::Finished,
            ActionView::Finish(Err(BuildErrorView::ArtifactNotFound { dir })),
        ),
        next(o, image, PhaseView::LocatingArtifact { dir }, Event::DirectoryUnreadable { cause })
            == (
            PhaseView::Finished,
            ActionView::Finish(Err(BuildErrorView::DirectoryUnreadable { dir, cause: cause@ })),
        ),
{
}

/// Two runs with the same options against the same project, with the
/// container unavailable, go the same way and end with the same outcome
/// when the local builds do.
pub proof fn fallback_runs_agree(
    o: BuildCommand,
    image: Seq<char>,
    cwd1: String,
    cwd2: String,
    r1: Result<String, BuildError>,
    r2: Result<String, BuildError>,
)
    requires
        !o.no_docker,
        cwd1@ == cwd2@,
        outcome_view(r1) == outcome_view(r2),
    ensures
        fallback_session(o, image, cwd1, Event::ContainerLaunchFailed, r1) == fallback_session(
            o,
            image,
            cwd2,
            Event::ContainerLaunchFailed,
            r2,
        ),
{
    lemma_fallback(o, image, cwd1, Event::ContainerLaunchFailed, r1);
    lemma_fallback(o, image, cwd2, Event::ContainerLaunchFailed, r2);
    let s1 = fallback_session(o, image, cwd1, Event::ContainerLaunchFailed, r1);
    let s2 = fallback_session(o, image, cwd2, Event::ContainerLaunchFailed, r2);
    assert(s1 =~= s2);
}

} // verus!
