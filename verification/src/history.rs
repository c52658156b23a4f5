//! What holds of every run, whatever the operating system answers.
//!
//! A run is described by the events that came in, in their order. From them
//! follow the stage reached and the requests made. The proof functions of
//! this module state what the requests of a run can and cannot be.

use crate::injector;
use crate::launcher;
use crate::launcher::ProcessHandlePair;
use crate::pipeline::{answers, next_stage, request_at, Error, Event, Request, Stage};
use vstd::prelude::*;

verus! {

/// The stage at which every run starts.
pub open spec fn start() -> Stage {
    Stage::Launching(launcher::Stage::LocatingCover)
}

/// The stage that a run has reached once `events` have come in, in this
/// order. `sizes` holds, for each library, the bytes that its path takes.
pub open spec fn replay(sizes: Seq<usize>, events: Seq<Event>) -> Stage
    decreases events.len(),
{
    if events.len() == 0 {
        start()
    } else {
        next_stage(sizes, replay(sizes, events.drop_last()), events.last())
    }
}

/// Whether each of `events` answers the request that was due when it came.
pub open spec fn in_turn(sizes: Seq<usize>, events: Seq<Event>) -> bool
    decreases events.len(),
{
    events.len() == 0 || {
        &&& in_turn(sizes, events.drop_last())
        &&& answers(request_at(sizes, replay(sizes, events.drop_last())), events.last())
    }
}

/// The requests that a run has made once `events` have come in: the first
/// one, and one after each event.
pub open spec fn requests(sizes: Seq<usize>, events: Seq<Event>) -> Seq<Request>
    decreases events.len(),
{
    if events.len() == 0 {
        seq![request_at(sizes, start())]
    } else {
        requests(sizes, events.drop_last()).push(request_at(sizes, replay(sizes, events)))
    }
}

/// The processes that `events` report as created, in order.
pub open spec fn launched(events: Seq<Event>) -> Seq<ProcessHandlePair>
    decreases events.len(),
{
    if events.len() == 0 {
        Seq::empty()
    } else {
        match events.last() {
            Event::Launcher(launcher::Event::ProcessCreated(Ok(pair))) => launched(
                events.drop_last(),
            ).push(pair),
            _ => launched(events.drop_last()),
        }
    }
}

/// The regions that `events` report as allocated in the target, in order.
pub open spec fn allocated(events: Seq<Event>) -> Seq<usize>
    decreases events.len(),
{
    if events.len() == 0 {
        Seq::empty()
    } else {
        match events.last() {
            Event::Injector(injector::Event::Allocated { region, .. }) if region != 0 => allocated(
                events.drop_last(),
            ).push(region),
            _ => allocated(events.drop_last()),
        }
    }
}

/// The regions that `requests` ask to release, in order.
pub open spec fn released(requests: Seq<Request>) -> Seq<usize>
    decreases requests.len(),
{
    if requests.len() == 0 {
        Seq::empty()
    } else {
        match requests.last() {
            Request::Injector { request: injector::Request::Free { region, .. }, .. } => released(
                requests.drop_last(),
            ).push(region),
            _ => released(requests.drop_last()),
        }
    }
}

/// The libraries for which `requests` ask to start a thread in the target,
/// each by its place in the list, in order.
pub open spec fn started(requests: Seq<Request>) -> Seq<usize>
    decreases requests.len(),
{
    if requests.len() == 0 {
        Seq::empty()
    } else {
        match requests.last() {
            Request::Injector { dependency, request: injector::Request::StartThread { .. } } => started(
                requests.drop_last(),
            ).push(dependency),
            _ => started(requests.drop_last()),
        }
    }
}

/// The libraries for whose thread `requests` ask to wait, each by its place
/// in the list, in order.
pub open spec fn awaited(requests: Seq<Request>) -> Seq<usize>
    decreases requests.len(),
{
    if requests.len() == 0 {
        Seq::empty()
    } else {
        match requests.last() {
            Request::Injector { dependency, request: injector::Request::Wait { .. } } => awaited(
                requests.drop_last(),
            ).push(dependency),
            _ => awaited(requests.drop_last()),
        }
    }
}

/// The threads that `requests` ask to resume, in order.
pub open spec fn resumed(requests: Seq<Request>) -> Seq<usize>
    decreases requests.len(),
{
    if requests.len() == 0 {
        Seq::empty()
    } else {
        match requests.last() {
            Request::Launcher(launcher::Request::ResumeThread { thread }) => resumed(
                requests.drop_last(),
            ).push(thread),
            _ => resumed(requests.drop_last()),
        }
    }
}

/// The handles that `requests` ask to close, in order.
pub open spec fn closed(requests: Seq<Request>) -> Seq<usize>
    decreases requests.len(),
{
    if requests.len() == 0 {
        Seq::empty()
    } else {
        match requests.last() {
            Request::Launcher(launcher::Request::CloseHandle { handle }) => closed(
                requests.drop_last(),
            ).push(handle),
            _ => closed(requests.drop_last()),
        }
    }
}

/// The number of times that `requests` ask to create the process.
pub open spec fn creations(requests: Seq<Request>) -> nat
    decreases requests.len(),
{
    if requests.len() == 0 {
        0
    } else {
        match requests.last() {
            Request::Launcher(launcher::Request::CreateSuspended { .. }) => creations(
                requests.drop_last(),
            ) + 1,
            _ => creations(requests.drop_last()),
        }
    }
}

/// Whether every request of `requests` that concerns a library concerns one
/// before place `bound` of the list.
pub open spec fn libraries_before(requests: Seq<Request>, bound: int) -> bool {
    forall|k: int|
        0 <= k < requests.len() ==> (#[trigger] requests[k] matches Request::Injector {
            dependency,
            ..
        } ==> dependency < bound)
}

/// The places `0`, `1`, and so on, up to but without `count`.
pub open spec fn places(count: int) -> Seq<usize> {
    Seq::new(count as nat, |i: int| i as usize)
}

/// The stages that a run can be in: a launch or an injection that has ended
/// is never held, a library being injected is one of the list, and memory is
/// given back after a failure only for a failure that follows its
/// allocation.
spec fn sound(sizes: Seq<usize>, stage: Stage) -> bool {
    match stage {
        Stage::Launching(launch) => launch !is Finished,
        Stage::Injecting { index, stage, .. } => {
            &&& index < sizes.len()
            &&& stage !is Finished
            &&& stage matches injector::Stage::Freeing { failure: Some(error), .. } ==> (error is RemoteWriteFailed
                || error is RemoteThreadCreateFailed)
        },
        _ => true,
    }
}

proof fn lemma_sound(sizes: Seq<usize>, events: Seq<Event>)
    requires
        sizes.len() <= usize::MAX,
        in_turn(sizes, events),
    ensures
        sound(sizes, replay(sizes, events)),
    decreases events.len(),
{
    if events.len() > 0 {
        lemma_sound(sizes, events.drop_last());
    }
}

/// Unfolds the history of a run by its last event.
proof fn lemma_last(sizes: Seq<usize>, events: Seq<Event>)
    requires
        events.len() > 0,
    ensures
        requests(sizes, events).drop_last() == requests(sizes, events.drop_last()),
        requests(sizes, events).last() == request_at(sizes, replay(sizes, events)),
        requests(sizes, events).len() == events.len() + 1,
    decreases events.len(),
{
    let asked = requests(sizes, events.drop_last());
    let due = request_at(sizes, replay(sizes, events));
    assert(asked.push(due).drop_last() == asked);
    if events.len() > 1 {
        lemma_last(sizes, events.drop_last());
    }
}

/// Unfolds a run by the event that came last: the stage, the requests, and
/// whether the events came in turn, each from what held before that event.
pub proof fn lemma_step(sizes: Seq<usize>, events: Seq<Event>, event: Event)
    ensures
        replay(sizes, events.push(event)) == next_stage(sizes, replay(sizes, events), event),
        in_turn(sizes, events.push(event)) == (in_turn(sizes, events) && answers(
            request_at(sizes, replay(sizes, events)),
            event,
        )),
        requests(sizes, events.push(event)) == requests(sizes, events).push(
            request_at(sizes, replay(sizes, events.push(event))),
        ),
{
    assert(events.push(event).drop_last() == events);
}

/// An event that does not answer the request that is due changes nothing,
/// at whatever stage a run is.
pub proof fn law_out_of_turn_ignored(sizes: Seq<usize>, events: Seq<Event>, event: Event)
    requires
        sizes.len() <= usize::MAX,
        in_turn(sizes, events),
        !answers(request_at(sizes, replay(sizes, events)), event),
    ensures
        next_stage(sizes, replay(sizes, events), event) == replay(sizes, events),
{
    lemma_sound(sizes, events);
}

/// What the first request of a run comes to: nothing but the lookup of the
/// cover process has been asked for.
proof fn lemma_first(sizes: Seq<usize>)
    ensures
        requests(sizes, Seq::empty()) == seq![Request::Launcher(launcher::Request::LocateCover)],
        released(requests(sizes, Seq::empty())) == Seq::<usize>::empty(),
        started(requests(sizes, Seq::empty())) == Seq::<usize>::empty(),
        awaited(requests(sizes, Seq::empty())) == Seq::<usize>::empty(),
        resumed(requests(sizes, Seq::empty())) == Seq::<usize>::empty(),
        closed(requests(sizes, Seq::empty())) == Seq::<usize>::empty(),
        creations(requests(sizes, Seq::empty())) == 0,
{
    let asked = requests(sizes, Seq::empty());
    assert(asked.drop_last() == Seq::<Request>::empty());
    assert(released(asked.drop_last()) == Seq::<usize>::empty());
    assert(started(asked.drop_last()) == Seq::<usize>::empty());
    assert(awaited(asked.drop_last()) == Seq::<usize>::empty());
    assert(resumed(asked.drop_last()) == Seq::<usize>::empty());
    assert(closed(asked.drop_last()) == Seq::<usize>::empty());
    assert(creations(asked.drop_last()) == 0);
}

/// The thread that is owed a resumption once `pairs` have been created: that
/// of the first pair.
pub open spec fn owed_resumption(pairs: Seq<ProcessHandlePair>) -> Seq<usize> {
    if pairs.len() == 0 {
        Seq::empty()
    } else {
        seq![pairs[0].thread_handle]
    }
}

/// The handles that are owed a closing once `pairs` have been created: the
/// process handle and then the thread handle of the first pair.
pub open spec fn owed_closing(pairs: Seq<ProcessHandlePair>) -> Seq<usize> {
    if pairs.len() == 0 {
        Seq::empty()
    } else {
        seq![pairs[0].process_handle, pairs[0].thread_handle]
    }
}

/// What holds, at each stage, of the process created and of what has been
/// asked for its handles.
spec fn handles_settled(sizes: Seq<usize>, events: Seq<Event>) -> bool {
    let pairs = launched(events);
    let asked = requests(sizes, events);
    match replay(sizes, events) {
        Stage::Launching(launch) => {
            &&& pairs =~= Seq::<ProcessHandlePair>::empty()
            &&& resumed(asked) =~= Seq::<usize>::empty()
            &&& closed(asked) =~= Seq::<usize>::empty()
            &&& creations(asked) == if launch is Creating {
                1nat
            } else {
                0nat
            }
        },
        Stage::Injecting { pair, .. } => {
            &&& pairs =~= seq![pair]
            &&& resumed(asked) =~= Seq::<usize>::empty()
            &&& closed(asked) =~= Seq::<usize>::empty()
            &&& creations(asked) == 1
        },
        Stage::Resuming { pair } => {
            &&& pairs =~= seq![pair]
            &&& resumed(asked) =~= seq![pair.thread_handle]
            &&& closed(asked) =~= Seq::<usize>::empty()
            &&& creations(asked) == 1
        },
        Stage::ClosingProcess { pair } => {
            &&& pairs =~= seq![pair]
            &&& resumed(asked) =~= seq![pair.thread_handle]
            &&& closed(asked) =~= seq![pair.process_handle]
            &&& creations(asked) == 1
        },
        Stage::ClosingThread { pair } => {
            &&& pairs =~= seq![pair]
            &&& resumed(asked) =~= seq![pair.thread_handle]
            &&& closed(asked) =~= seq![pair.process_handle, pair.thread_handle]
            &&& creations(asked) == 1
        },
        Stage::Finished(Ok(_)) => {
            &&& pairs.len() == 1
            &&& resumed(asked) =~= seq![pairs[0].thread_handle]
            &&& closed(asked) =~= seq![pairs[0].process_handle, pairs[0].thread_handle]
            &&& creations(asked) == 1
        },
        Stage::Finished(Err(Error::LaunchFailed(error))) => {
            &&& pairs =~= Seq::<ProcessHandlePair>::empty()
            &&& resumed(asked) =~= Seq::<usize>::empty()
            &&& closed(asked) =~= Seq::<usize>::empty()
            &&& creations(asked) == if error is ProcessCreateFailed {
                1nat
            } else {
                0nat
            }
        },
        Stage::Finished(Err(Error::InjectFailed(_))) => {
            &&& pairs.len() == 1
            &&& resumed(asked) =~= Seq::<usize>::empty()
            &&& closed(asked) =~= Seq::<usize>::empty()
            &&& creations(asked) == 1
        },
    }
}

proof fn lemma_handles_settled(sizes: Seq<usize>, events: Seq<Event>)
    requires
        sizes.len() <= usize::MAX,
        in_turn(sizes, events),
    ensures
        handles_settled(sizes, events),
    decreases events.len(),
{
    if events.len() == 0 {
        assert(events == Seq::<Event>::empty());
        lemma_first(sizes);
    } else {
        lemma_handles_settled(sizes, events.drop_last());
        lemma_sound(sizes, events.drop_last());
        lemma_last(sizes, events);
    }
}

/// The process is created at most once, its thread is resumed at most once,
/// and each of its handles is closed at most once.
///
/// In every run whose events come in turn: the process is asked for at most
/// once; the only thread ever asked to be resumed is that of the process
/// created, and the only handles ever asked to be closed are its process
/// handle and then its thread handle, each once; nothing is closed before
/// the thread was resumed; a run that succeeds has done all three; and a run
/// that fails has done none of them, so that the process, if there is one,
/// stays suspended with its handles open.
pub proof fn law_handles_once(sizes: Seq<usize>, events: Seq<Event>)
    requires
        sizes.len() <= usize::MAX,
        in_turn(sizes, events),
    ensures
        creations(requests(sizes, events)) <= 1,
        launched(events).len() <= creations(requests(sizes, events)),
        resumed(requests(sizes, events)).is_prefix_of(owed_resumption(launched(events))),
        closed(requests(sizes, events)).is_prefix_of(owed_closing(launched(events))),
        closed(requests(sizes, events)).len() > 0 ==> resumed(requests(sizes, events)).len() == 1,
        replay(sizes, events) == Stage::Finished(Ok(())) ==> {
            &&& launched(events).len() == 1
            &&& resumed(requests(sizes, events)) == owed_resumption(launched(events))
            &&& closed(requests(sizes, events)) == owed_closing(launched(events))
        },
        replay(sizes, events) matches Stage::Finished(Err(_)) ==> {
            &&& resumed(requests(sizes, events)) == Seq::<usize>::empty()
            &&& closed(requests(sizes, events)) == Seq::<usize>::empty()
        },
{
    lemma_handles_settled(sizes, events);
}

/// A launch that fails before the process is asked for creates no process.
///
/// Where a run has ended with an error of the launch, no process was
/// reported as created; and the creation was asked for only where the error
/// is that of the creation itself. So a cover process that is not found or
/// cannot be opened, a token that cannot be opened, and an attribute list
/// that cannot be set up each end the run with nothing to release.
pub proof fn law_failed_setup_creates_nothing(sizes: Seq<usize>, events: Seq<Event>)
    requires
        sizes.len() <= usize::MAX,
        in_turn(sizes, events),
        replay(sizes, events) matches Stage::Finished(Err(Error::LaunchFailed(_))),
    ensures
        launched(events) == Seq::<ProcessHandlePair>::empty(),
        replay(sizes, events) matches Stage::Finished(Err(Error::LaunchFailed(error))) && (creations(
            requests(sizes, events),
        ) == if error is ProcessCreateFailed {
            1nat
        } else {
            0nat
        }),
{
    lemma_handles_settled(sizes, events);
}

/// Whether an injection at `stage` has asked for its thread.
spec fn thread_asked(stage: injector::Stage) -> bool {
    match stage {
        injector::Stage::StartingThread { .. } | injector::Stage::Waiting { .. } => true,
        injector::Stage::Freeing { failure, .. } => !(failure matches Some(
            injector::Error::RemoteWriteFailed(_),
        )),
        _ => false,
    }
}

/// Whether an injection at `stage` has asked to wait for its thread.
spec fn wait_asked(stage: injector::Stage) -> bool {
    match stage {
        injector::Stage::Waiting { .. } => true,
        injector::Stage::Freeing { failure, .. } => failure is None,
        _ => false,
    }
}

/// What holds, at each stage, of the threads asked for and waited for.
spec fn threads_settled(sizes: Seq<usize>, events: Seq<Event>) -> bool {
    let threads = started(requests(sizes, events));
    let waits = awaited(requests(sizes, events));
    &&& threads =~= places(threads.len() as int)
    &&& waits =~= places(waits.len() as int)
    &&& waits.len() <= threads.len() <= waits.len() + 1
    &&& threads.len() <= sizes.len()
    &&& match replay(sizes, events) {
        Stage::Launching(_) | Stage::Finished(Err(Error::LaunchFailed(_))) => threads.len() == 0,
        Stage::Injecting { index, stage, .. } => {
            &&& threads.len() == index + if thread_asked(stage) {
                1int
            } else {
                0int
            }
            &&& waits.len() == index + if wait_asked(stage) {
                1int
            } else {
                0int
            }
        },
        Stage::Finished(Err(Error::InjectFailed(_))) => {
            &&& events.len() > 0
            &&& replay(sizes, events.drop_last()) matches Stage::Injecting { index, .. }
            &&& threads.len() <= index + 1
        },
        _ => threads.len() == sizes.len() && waits.len() == sizes.len(),
    }
}

proof fn lemma_threads_settled(sizes: Seq<usize>, events: Seq<Event>)
    requires
        sizes.len() <= usize::MAX,
        in_turn(sizes, events),
    ensures
        threads_settled(sizes, events),
    decreases events.len(),
{
    if events.len() == 0 {
        assert(events == Seq::<Event>::empty());
        lemma_first(sizes);
    } else {
        lemma_threads_settled(sizes, events.drop_last());
        lemma_sound(sizes, events.drop_last());
        lemma_last(sizes, events);
    }
}

/// The libraries are loaded one at a time, in the order of the list, and a
/// run that succeeds has loaded each of them.
///
/// In every run whose events come in turn: the threads asked for in the
/// target are, in order, those of the libraries at places 0, 1, 2 and so on,
/// and so are the threads waited for; no thread is asked for while an
/// earlier one has not been waited for; and a run that succeeds has asked
/// for one thread for each library of the list, no more, and has waited for
/// each.
pub proof fn law_libraries_in_order(sizes: Seq<usize>, events: Seq<Event>)
    requires
        sizes.len() <= usize::MAX,
        in_turn(sizes, events),
    ensures
        started(requests(sizes, events)) == places(started(requests(sizes, events)).len() as int),
        awaited(requests(sizes, events)) == places(awaited(requests(sizes, events)).len() as int),
        awaited(requests(sizes, events)).len() <= started(requests(sizes, events)).len()
            <= awaited(requests(sizes, events)).len() + 1,
        started(requests(sizes, events)).len() <= sizes.len(),
        replay(sizes, events) == Stage::Finished(Ok(())) ==> {
            &&& started(requests(sizes, events)) == places(sizes.len() as int)
            &&& awaited(requests(sizes, events)) == places(sizes.len() as int)
        },
{
    lemma_threads_settled(sizes, events);
}

/// What holds, at each stage, of the libraries that the requests concern.
spec fn libraries_settled(sizes: Seq<usize>, events: Seq<Event>) -> bool {
    let asked = requests(sizes, events);
    &&& libraries_before(asked, sizes.len() as int)
    &&& match replay(sizes, events) {
        Stage::Launching(_) | Stage::Finished(Err(Error::LaunchFailed(_))) => libraries_before(
            asked,
            0,
        ),
        Stage::Injecting { index, .. } => libraries_before(asked, index + 1),
        Stage::Finished(Err(Error::InjectFailed(_))) => {
            &&& events.len() > 0
            &&& replay(sizes, events.drop_last()) matches Stage::Injecting { index, .. }
            &&& libraries_before(asked, index + 1)
        },
        _ => true,
    }
}

proof fn lemma_libraries_settled(sizes: Seq<usize>, events: Seq<Event>)
    requires
        sizes.len() <= usize::MAX,
        in_turn(sizes, events),
    ensures
        libraries_settled(sizes, events),
    decreases events.len(),
{
    if events.len() == 0 {
        assert(events == Seq::<Event>::empty());
        lemma_first(sizes);
    } else {
        let before = events.drop_last();
        lemma_libraries_settled(sizes, before);
        lemma_sound(sizes, before);
        lemma_sound(sizes, events);
        lemma_last(sizes, events);
        let asked = requests(sizes, events);
        assert forall|k: int| 0 <= k < asked.len() - 1 implies #[trigger] asked[k] == requests(
            sizes,
            before,
        )[k] by {}
    }
}

/// A run without libraries starts no thread in the target.
///
/// Where the list is empty, no request of the run concerns a library, and a
/// launch that succeeds leads straight to the resumption of the thread.
pub proof fn law_no_library_no_thread(sizes: Seq<usize>, events: Seq<Event>)
    requires
        sizes.len() == 0,
        in_turn(sizes, events),
    ensures
        forall|k: int|
            0 <= k < requests(sizes, events).len() ==> !(#[trigger] requests(sizes, events)[k]
                is Injector),
        started(requests(sizes, events)) == Seq::<usize>::empty(),
        forall|token: usize, cover: usize, pair: ProcessHandlePair|
            next_stage(
                sizes,
                Stage::Launching(launcher::Stage::Creating { token, cover }),
                Event::Launcher(launcher::Event::ProcessCreated(Ok(pair))),
            ) == (Stage::Resuming { pair }),
{
    lemma_libraries_settled(sizes, events);
    lemma_threads_settled(sizes, events);
}

/// A failed injection ends the run: no later library is tried, and the
/// thread is not resumed.
///
/// Where a run has ended with the error of an injection, the error came
/// while some library of the list was being injected; no request of the run
/// concerns a library after that one; and no request asks to resume a
/// thread or to close a handle.
pub proof fn law_failed_injection_ends_run(sizes: Seq<usize>, events: Seq<Event>)
    requires
        sizes.len() <= usize::MAX,
        in_turn(sizes, events),
        replay(sizes, events) matches Stage::Finished(Err(Error::InjectFailed(_))),
    ensures
        events.len() > 0,
        replay(sizes, events.drop_last()) matches Stage::Injecting { index, .. } && {
            &&& index < sizes.len()
            &&& libraries_before(requests(sizes, events), index + 1)
            &&& started(requests(sizes, events)).len() <= index + 1
        },
        resumed(requests(sizes, events)) == Seq::<usize>::empty(),
        closed(requests(sizes, events)) == Seq::<usize>::empty(),
{
    lemma_libraries_settled(sizes, events);
    lemma_threads_settled(sizes, events);
    lemma_handles_settled(sizes, events);
    lemma_sound(sizes, events.drop_last());
}

/// The region that a run holds in the target at `stage`, if it holds one:
/// the one allocated for the library being injected and not yet asked to be
/// released.
pub open spec fn region_held(stage: Stage) -> Option<usize> {
    match stage {
        Stage::Injecting { stage: injector::Stage::Writing { region, .. }, .. } => Some(region),
        Stage::Injecting { stage: injector::Stage::StartingThread { region, .. }, .. } => Some(
            region,
        ),
        Stage::Injecting { stage: injector::Stage::Waiting { region, .. }, .. } => Some(region),
        _ => None,
    }
}

/// What holds, at each stage, of the memory allocated and released.
spec fn memory_settled(sizes: Seq<usize>, events: Seq<Event>) -> bool {
    let held = allocated(events);
    let given_back = released(requests(sizes, events));
    match region_held(replay(sizes, events)) {
        Some(region) => held =~= given_back.push(region),
        None => held =~= given_back,
    }
}

proof fn lemma_memory_settled(sizes: Seq<usize>, events: Seq<Event>)
    requires
        sizes.len() <= usize::MAX,
        in_turn(sizes, events),
    ensures
        memory_settled(sizes, events),
    decreases events.len(),
{
    if events.len() == 0 {
        assert(events == Seq::<Event>::empty());
        lemma_first(sizes);
    } else {
        lemma_memory_settled(sizes, events.drop_last());
        lemma_sound(sizes, events.drop_last());
        lemma_last(sizes, events);
    }
}

/// Memory allocated in the target is given back before the injection that
/// allocated it ends, with success or with an error.
///
/// In every run whose events come in turn: the regions asked to be released
/// are, in the same order, the regions allocated, but for the one that the
/// injection under way still holds; so no region is released before it was
/// allocated, or twice, and whenever no injection holds a region, between two
/// injections and at the end of a run that launched its process, every
/// region allocated has been asked to be released.
pub proof fn law_memory_released(sizes: Seq<usize>, events: Seq<Event>)
    requires
        sizes.len() <= usize::MAX,
        in_turn(sizes, events),
    ensures
        released(requests(sizes, events)).is_prefix_of(allocated(events)),
        match region_held(replay(sizes, events)) {
            Some(region) => allocated(events) == released(requests(sizes, events)).push(region),
            None => allocated(events) == released(requests(sizes, events)),
        },
{
    lemma_memory_settled(sizes, events);
}

/// A run in which the shell's window is not found creates no process.
///
/// Where the first reply reports no thread behind the window, the run ends
/// there with `CoverProcessNotFound`: its only request was the lookup, and no
/// event can follow in turn.
pub proof fn law_no_cover_no_process(sizes: Seq<usize>, events: Seq<Event>, process_id: u32)
    requires
        in_turn(sizes, events),
        events.len() > 0,
        events[0] == Event::Launcher(launcher::Event::CoverLocated { thread_id: 0, process_id }),
    ensures
        events.len() == 1,
        replay(sizes, events) == Stage::Finished(
            Err(Error::LaunchFailed(launcher::Error::CoverProcessNotFound)),
        ),
        requests(sizes, events) == seq![
            Request::Launcher(launcher::Request::LocateCover),
            Request::Finish(Err(Error::LaunchFailed(launcher::Error::CoverProcessNotFound))),
        ],
        creations(requests(sizes, events)) == 0,
    decreases events.len(),
{
    let before = events.drop_last();
    if before.len() > 0 {
        assert(before[0] == events[0]);
        law_no_cover_no_process(sizes, before, process_id);
        assert(false);
    } else {
        assert(events.last() == events[0]);
        lemma_last(sizes, events);
        let asked = requests(sizes, events);
        assert(asked.drop_last() == seq![Request::Launcher(launcher::Request::LocateCover)]);
        assert(asked == asked.drop_last().push(asked.last()));
        assert(asked.drop_last().drop_last() == Seq::<Request>::empty());
        reveal_with_fuel(creations, 3);
    }
}

} // verus!
