use vstd::prelude::*;

verus! {

/// What a session waits for.
#[derive(PartialEq, Eq, Structural, Clone, Copy, Debug)]
pub enum Phase {
    /// The answer of the first attempt to open the documentation.
    AwaitOpen,
    /// Whether the local copy exists on disk.
    AwaitProbe,
    /// The answer of the documentation build.
    AwaitBuild,
    /// The answer of the second, last attempt to open the documentation.
    AwaitRetry,
    /// Nothing: the session is over.
    Done,
}

/// What the outside world answered.
#[derive(PartialEq, Eq, Structural, Clone, Copy, Debug)]
pub enum Event {
    /// The documentation was opened.
    Opened,
    /// The documentation could not be opened.
    OpenFailed,
    /// The local copy exists on disk.
    ArtifactFound,
    /// The local copy does not exist on disk.
    ArtifactMissing,
    /// The build ran and reported success.
    BuildSucceeded,
    /// The build ran and reported failure.
    BuildFailed,
    /// The build could not be started.
    BuildNotStarted,
}

/// Why a session ended without the documentation open.
#[derive(PartialEq, Eq, Structural, Clone, Copy, Debug)]
pub enum Failure {
    /// The documentation could not be opened, and nothing more could be tried.
    Open,
    /// The local copy exists, yet it could not be opened.
    NotAvailableLocally,
    /// The documentation build failed or could not be started.
    Build,
}

/// What to do next.
#[derive(PartialEq, Eq, Structural, Clone, Copy, Debug)]
pub enum Step {
    /// Check whether the local copy exists on disk.
    Probe,
    /// Build the documentation.
    Build,
    /// Try to open the documentation once more.
    OpenAgain,
    /// Report that the documentation is open.
    Succeed,
    /// Report the failure.
    Fail(Failure),
}

/// The events that a session in `phase` takes.
pub open spec fn takes(phase: Phase, e: Event) -> bool {
    match phase {
        Phase::AwaitOpen | Phase::AwaitRetry => e is Opened || e is OpenFailed,
        Phase::AwaitProbe => e is ArtifactFound || e is ArtifactMissing,
        Phase::AwaitBuild => e is BuildSucceeded || e is BuildFailed || e is BuildNotStarted,
        Phase::Done => false,
    }
}

/// Where a session goes on event `e`, and what it asks for. Only a failure to
/// open a local copy leads to the probe; a build comes only after a missing
/// copy, and a second attempt to open only after a successful build.
pub open spec fn transition(local: bool, phase: Phase, e: Event) -> (Phase, Step) {
    match (phase, e) {
        (Phase::AwaitOpen, Event::Opened) => (Phase::Done, Step::Succeed),
        (Phase::AwaitOpen, _) => if local {
            (Phase::AwaitProbe, Step::Probe)
        } else {
            (Phase::Done, Step::Fail(Failure::Open))
        },
        (Phase::AwaitProbe, Event::ArtifactFound) => (
            Phase::Done,
            Step::Fail(Failure::NotAvailableLocally),
        ),
        (Phase::AwaitProbe, _) => (Phase::AwaitBuild, Step::Build),
        (Phase::AwaitBuild, Event::BuildSucceeded) => (Phase::AwaitRetry, Step::OpenAgain),
        (Phase::AwaitBuild, _) => (Phase::Done, Step::Fail(Failure::Build)),
        (Phase::AwaitRetry, Event::Opened) => (Phase::Done, Step::Succeed),
        (Phase::AwaitRetry, _) => (Phase::Done, Step::Fail(Failure::Open)),
        (Phase::Done, _) => (Phase::Done, Step::Fail(Failure::Open)),
    }
}

/// The events, in order, that a session in `phase` takes one after the other.
pub open spec fn takes_all(local: bool, phase: Phase, events: Seq<Event>) -> bool
    decreases events.len(),
{
    events.len() == 0 || (takes(phase, events[0]) && takes_all(
        local,
        transition(local, phase, events[0]).0,
        events.drop_first(),
    ))
}

/// The steps that a session in `phase` asks for on `events`, in order.
pub open spec fn steps_of(local: bool, phase: Phase, events: Seq<Event>) -> Seq<Step>
    decreases events.len(),
{
    if events.len() == 0 {
        Seq::empty()
    } else {
        let (next, step) = transition(local, phase, events[0]);
        seq![step] + steps_of(local, next, events.drop_first())
    }
}

/// The attempt to open a crate's documentation, after the first try was made:
/// on the failure of a local copy it probes, builds once and tries once more.
pub struct Session {
    pub local: bool,
    pub phase: Phase,
}

impl Session {
    /// A session waiting for the answer of the first attempt to open.
    pub fn new(local: bool) -> (r: Session)
        ensures
            r.local == local,
            r.phase == Phase::AwaitOpen,
    {
        Session { local, phase: Phase::AwaitOpen }
    }

    /// Whether the session takes `e` now.
    pub fn takes(&self, e: Event) -> (r: bool)
        ensures
            r == takes(self.phase, e),
    {
        match self.phase {
            Phase::AwaitOpen | Phase::AwaitRetry => matches!(e, Event::Opened | Event::OpenFailed),
            Phase::AwaitProbe => matches!(e, Event::ArtifactFound | Event::ArtifactMissing),
            Phase::AwaitBuild => matches!(
                e,
                Event::BuildSucceeded | Event::BuildFailed | Event::BuildNotStarted
            ),
            Phase::Done => false,
        }
    }

    /// Whether the session is over.
    pub fn is_done(&self) -> (r: bool)
        ensures
            r == (self.phase == Phase::Done),
    {
        matches!(self.phase, Phase::Done)
    }

    /// Takes the answer `e` and says what to do next.
    pub fn advance(&mut self, e: Event) -> (r: Step)
        requires
            takes(old(self).phase, e),
        ensures
            final(self).local == old(self).local,
            (final(self).phase, r) == transition(old(self).local, old(self).phase, e),
    {
        let (phase, step) = match (self.phase, e) {
            (Phase::AwaitOpen, Event::Opened) => (Phase::Done, Step::Succeed),
            (Phase::AwaitOpen, _) => if self.local {
                (Phase::AwaitProbe, Step::Probe)
            } else {
                (Phase::Done, Step::Fail(Failure::Open))
            },
            (Phase::AwaitProbe, Event::ArtifactFound) => (
                Phase::Done,
                Step::Fail(Failure::NotAvailableLocally),
            ),
            (Phase::AwaitProbe, _) => (Phase::AwaitBuild, Step::Build),
            (Phase::AwaitBuild, Event::BuildSucceeded) => (Phase::AwaitRetry, Step::OpenAgain),
            (Phase::AwaitBuild, _) => (Phase::Done, Step::Fail(Failure::Build)),
            (Phase::AwaitRetry, Event::Opened) => (Phase::Done, Step::Succeed),
            (Phase::AwaitRetry, _) => (Phase::Done, Step::Fail(Failure::Open)),
            (Phase::Done, _) => (Phase::Done, Step::Fail(Failure::Open)),
        };
        self.phase = phase;
        step
    }
}

/// How many more events a session in `phase` can take.
pub open spec fn budget(phase: Phase) -> nat {
    match phase {
        Phase::AwaitOpen => 4,
        Phase::AwaitProbe => 3,
        Phase::AwaitBuild => 2,
        Phase::AwaitRetry => 1,
        Phase::Done => 0,
    }
}

proof fn lemma_run_shape(local: bool, phase: Phase, events: Seq<Event>)
    requires
        takes_all(local, phase, events),
    ensures
        events.len() <= budget(phase),
        steps_of(local, phase, events).len() == events.len(),
        forall|a: int, b: int|
            0 <= a < b < events.len() ==> !(#[trigger] steps_of(local, phase, events)[a] is Build
                && #[trigger] steps_of(local, phase, events)[b] is Build),
        forall|a: int, b: int|
            0 <= a < b < events.len() ==> !(#[trigger] steps_of(local, phase, events)[a] is OpenAgain
                && #[trigger] steps_of(local, phase, events)[b] is OpenAgain),
        phase == Phase::AwaitRetry ==> forall|k: int|
            0 <= k < events.len() ==> !(#[trigger] steps_of(local, phase, events)[k] is Build),
        (phase == Phase::AwaitRetry || phase == Phase::AwaitBuild) ==> forall|k: int|
            0 < k < events.len() ==> !(#[trigger] steps_of(local, phase, events)[k] is Build),
    decreases events.len(),
{
    if events.len() > 0 {
        let (next, step) = transition(local, phase, events[0]);
        let rest = events.drop_first();
        lemma_run_shape(local, next, rest);
        let steps = steps_of(local, phase, events);
        let later = steps_of(local, next, rest);
        assert(steps == seq![step] + later);
        assert forall|k: int| 0 < k < events.len() implies steps[k] == later[k - 1] by {}
        assert forall|k: int| 0 < k < events.len() implies !(#[trigger] steps[k] is Build) || (
        phase != Phase::AwaitRetry && phase != Phase::AwaitBuild) by {
            assert(steps[k] == later[k - 1]);
        }
        assert forall|k: int| 0 < k < events.len() implies !(#[trigger] steps[k] is OpenAgain) || (
        phase != Phase::AwaitBuild && phase != Phase::AwaitRetry) by {
            assert(steps[k] == later[k - 1]);
            if phase == Phase::AwaitBuild && rest.len() > 0 {
                assert(next == Phase::AwaitRetry || next == Phase::Done);
            }
        }
    }
}

/// Whatever the opener, the probe and the build answer, a session takes at
/// most four answers, so it always comes to an end; it builds at most once and
/// tries to open a second time at most once.
pub proof fn lemma_rebuild_at_most_once(local: bool, events: Seq<Event>)
    requires
        takes_all(local, Phase::AwaitOpen, events),
    ensures
        events.len() <= 4,
        forall|a: int, b: int|
            0 <= a < b < events.len() ==> !(#[trigger] steps_of(local, Phase::AwaitOpen, events)[a] is Build
                && #[trigger] steps_of(local, Phase::AwaitOpen, events)[b] is Build),
        forall|a: int, b: int|
            0 <= a < b < events.len() ==> !(#[trigger] steps_of(
                local,
                Phase::AwaitOpen,
                events,
            )[a] is OpenAgain && #[trigger] steps_of(local, Phase::AwaitOpen, events)[b] is OpenAgain),
{
    lemma_run_shape(local, Phase::AwaitOpen, events);
}

} // verus!
