//! Loading one library into the target process: its path is written into
//! memory allocated in the target, and a thread started there runs the
//! system's library loader on it.
//!
//! An injection is a fixed series of operating-system requests. [`Stage`]
//! says how far it has come, [`request_at`] which request is due at a stage,
//! and [`next_stage`] where the reply to it leads. Memory allocated in the
//! target is freed on every path that follows the allocation.

use crate::wide::{wide_terminated, WidePath};
use vstd::prelude::*;

verus! {

/// The module that holds the library loader. The operating system maps it
/// into every process, at the same place in each.
pub const LOADER_MODULE: &'static str = "kernel32.dll";

/// The name under which the module exports its loader for wide-character
/// paths.
pub const LOADER_ENTRY: &'static str = "LoadLibraryW";

/// Why an injection failed. The number is the status code that the operating
/// system gave for the failed request.
#[derive(Clone, Copy, Debug, PartialEq, Eq)]
pub enum Error {
    /// The module that holds the library loader is not loaded.
    LoaderModuleNotFound(i32),
    /// The module does not export the library loader.
    LoaderEntryPointNotFound,
    /// No memory could be allocated in the target.
    RemoteAllocationFailed(i32),
    /// The path could not be written into the target.
    RemoteWriteFailed(i32),
    /// No thread could be started in the target.
    RemoteThreadCreateFailed(i32),
    /// The memory in the target could not be freed. The library was loaded
    /// all the same.
    RemoteFreeFailed(i32),
}

/// What the caller is asked to do next.
#[derive(Clone, Copy, Debug, PartialEq, Eq)]
pub enum Request {
    /// Find, in the calling process, the module [`LOADER_MODULE`].
    FindLoaderModule,
    /// Find in `module` the address that it exports as [`LOADER_ENTRY`].
    FindLoaderEntry { module: usize },
    /// Allocate `size` bytes of readable and writable memory in `process`.
    Allocate { process: usize, size: usize },
    /// Copy the first `size` bytes of the injection's path to `region` in
    /// `process`.
    Write { process: usize, region: usize, size: usize },
    /// Start a thread in `process` that calls `entry` with `argument`.
    StartThread { process: usize, entry: usize, argument: usize },
    /// Wait, without a time limit, until `thread` has ended.
    Wait { thread: usize },
    /// Release `region` in `process`.
    Free { process: usize, region: usize },
    /// Nothing is left to do: the injection has ended with this result.
    Finish(Result<(), Error>),
}

/// What the operating system answered to a request.
#[derive(Clone, Copy, Debug, PartialEq, Eq)]
pub enum Event {
    /// The module's handle, or the status code.
    LoaderModuleFound(Result<usize, i32>),
    /// The loader's address, if the module exports it.
    LoaderEntryFound(Option<usize>),
    /// The address of the allocated memory, zero where there is none, and
    /// the status code that the operating system holds after the request.
    Allocated { region: usize, status: i32 },
    Written(Result<(), i32>),
    /// The thread's handle, or the status code.
    ThreadStarted(Result<usize, i32>),
    Waited,
    Freed(Result<(), i32>),
}

/// How far an injection has come. Each stage but the last waits for the
/// reply to one request.
#[derive(Clone, Copy, Debug, PartialEq, Eq)]
pub enum Stage {
    FindingLoaderModule,
    FindingLoaderEntry { module: usize },
    Allocating { entry: usize },
    Writing { entry: usize, region: usize },
    StartingThread { entry: usize, region: usize },
    Waiting { region: usize, thread: usize },
    /// The memory is being given back; `failure` is the step that failed
    /// since it was allocated, if one did.
    Freeing { region: usize, failure: Option<Error> },
    Finished(Result<(), Error>),
}

/// The request that is due at `stage`, in an injection into `process` of a
/// path that takes `size` bytes.
pub open spec fn request_at(process: usize, size: usize, stage: Stage) -> Request {
    match stage {
        Stage::FindingLoaderModule => Request::FindLoaderModule,
        Stage::FindingLoaderEntry { module } => Request::FindLoaderEntry { module },
        Stage::Allocating { .. } => Request::Allocate { process, size },
        Stage::Writing { region, .. } => Request::Write { process, region, size },
        Stage::StartingThread { entry, region } => Request::StartThread {
            process,
            entry,
            argument: region,
        },
        Stage::Waiting { thread, .. } => Request::Wait { thread },
        Stage::Freeing { region, .. } => Request::Free { process, region },
        Stage::Finished(result) => Request::Finish(result),
    }
}

/// Whether `event` is the kind of reply that `request` calls for.
pub open spec fn answers(request: Request, event: Event) -> bool {
    match request {
        Request::FindLoaderModule => event is LoaderModuleFound,
        Request::FindLoaderEntry { .. } => event is LoaderEntryFound,
        Request::Allocate { .. } => event is Allocated,
        Request::Write { .. } => event is Written,
        Request::StartThread { .. } => event is ThreadStarted,
        Request::Wait { .. } => event is Waited,
        Request::Free { .. } => event is Freed,
        Request::Finish(_) => false,
    }
}

/// The result of an injection whose memory has been given back with the
/// reply `freed`: the step that failed before, if one did, else what the
/// release itself came to.
pub open spec fn result_after_free(failure: Option<Error>, freed: Result<(), i32>) -> Result<
    (),
    Error,
> {
    match (failure, freed) {
        (Some(error), _) => Err(error),
        (None, Ok(_)) => Ok(()),
        (None, Err(code)) => Err(Error::RemoteFreeFailed(code)),
    }
}

/// The stage after `event` has come in at `stage`. A request that fails
/// before memory is allocated ends the injection; one that fails after
/// leads to the release of the memory first. An event that does not answer
/// the request due at `stage` changes nothing.
pub open spec fn next_stage(stage: Stage, event: Event) -> Stage {
    match (stage, event) {
        (Stage::FindingLoaderModule, Event::LoaderModuleFound(found)) => match found {
            Ok(module) => Stage::FindingLoaderEntry { module },
            Err(code) => Stage::Finished(Err(Error::LoaderModuleNotFound(code))),
        },
        (Stage::FindingLoaderEntry { .. }, Event::LoaderEntryFound(found)) => match found {
            Some(entry) => Stage::Allocating { entry },
            None => Stage::Finished(Err(Error::LoaderEntryPointNotFound)),
        },
        (Stage::Allocating { entry }, Event::Allocated { region, status }) => if region == 0 {
            Stage::Finished(Err(Error::RemoteAllocationFailed(status)))
        } else {
            Stage::Writing { entry, region }
        },
        (Stage::Writing { entry, region }, Event::Written(done)) => match done {
            Ok(_) => Stage::StartingThread { entry, region },
            Err(code) => Stage::Freeing {
                region,
                failure: Some(Error::RemoteWriteFailed(code)),
            },
        },
        (Stage::StartingThread { region, .. }, Event::ThreadStarted(started)) => match started {
            Ok(thread) => Stage::Waiting { region, thread },
            Err(code) => Stage::Freeing {
                region,
                failure: Some(Error::RemoteThreadCreateFailed(code)),
            },
        },
        (Stage::Waiting { region, .. }, Event::Waited) => Stage::Freeing { region, failure: None },
        (Stage::Freeing { failure, .. }, Event::Freed(freed)) => Stage::Finished(
            result_after_free(failure, freed),
        ),
        _ => stage,
    }
}

/// The request that is due at `stage`, in an injection into `process` of a
/// path that takes `size` bytes.
pub fn request(process: usize, size: usize, stage: Stage) -> (due: Request)
    ensures
        due == request_at(process, size, stage),
{
    match stage {
        Stage::FindingLoaderModule => Request::FindLoaderModule,
        Stage::FindingLoaderEntry { module } => Request::FindLoaderEntry { module },
        Stage::Allocating { .. } => Request::Allocate { process, size },
        Stage::Writing { region, .. } => Request::Write { process, region, size },
        Stage::StartingThread { entry, region } => Request::StartThread {
            process,
            entry,
            argument: region,
        },
        Stage::Waiting { thread, .. } => Request::Wait { thread },
        Stage::Freeing { region, .. } => Request::Free { process, region },
        Stage::Finished(result) => Request::Finish(result),
    }
}

/// Whether `event` answers the request that is due at `stage`.
pub fn expects(stage: Stage, event: Event) -> (expected: bool)
    ensures
        forall|process: usize, size: usize|
            expected == answers(#[trigger] request_at(process, size, stage), event),
{
    match (stage, event) {
        (Stage::FindingLoaderModule, Event::LoaderModuleFound(_)) => true,
        (Stage::FindingLoaderEntry { .. }, Event::LoaderEntryFound(_)) => true,
        (Stage::Allocating { .. }, Event::Allocated { .. }) => true,
        (Stage::Writing { .. }, Event::Written(_)) => true,
        (Stage::StartingThread { .. }, Event::ThreadStarted(_)) => true,
        (Stage::Waiting { .. }, Event::Waited) => true,
        (Stage::Freeing { .. }, Event::Freed(_)) => true,
        _ => false,
    }
}

/// Decides what an injection comes to once its memory has been given back.
pub fn conclude(failure: Option<Error>, freed: Result<(), i32>) -> (result: Result<(), Error>)
    ensures
        result == result_after_free(failure, freed),
{
    match failure {
        Some(error) => Err(error),
        None => match freed {
            Ok(_) => Ok(()),
            Err(code) => Err(Error::RemoteFreeFailed(code)),
        },
    }
}

/// Takes `event` in at `stage` and gives the stage that follows.
pub fn step(stage: Stage, event: Event) -> (next: Stage)
    ensures
        next == next_stage(stage, event),
{
    match (stage, event) {
        (Stage::FindingLoaderModule, Event::LoaderModuleFound(found)) => match found {
            Ok(module) => Stage::FindingLoaderEntry { module },
            Err(code) => Stage::Finished(Err(Error::LoaderModuleNotFound(code))),
        },
        (Stage::FindingLoaderEntry { .. }, Event::LoaderEntryFound(found)) => match found {
            Some(entry) => Stage::Allocating { entry },
            None => Stage::Finished(Err(Error::LoaderEntryPointNotFound)),
        },
        (Stage::Allocating { entry }, Event::Allocated { region, status }) => {
            if region == 0 {
                Stage::Finished(Err(Error::RemoteAllocationFailed(status)))
            } else {
                Stage::Writing { entry, region }
            }
        },
        (Stage::Writing { entry, region }, Event::Written(done)) => match done {
            Ok(_) => Stage::StartingThread { entry, region },
            Err(code) => Stage::Freeing {
                region,
                failure: Some(Error::RemoteWriteFailed(code)),
            },
        },
        (Stage::StartingThread { region, .. }, Event::ThreadStarted(started)) => match started {
            Ok(thread) => Stage::Waiting { region, thread },
            Err(code) => Stage::Freeing {
                region,
                failure: Some(Error::RemoteThreadCreateFailed(code)),
            },
        },
        (Stage::Waiting { region, .. }, Event::Waited) => Stage::Freeing { region, failure: None },
        (Stage::Freeing { failure, .. }, Event::Freed(freed)) => Stage::Finished(
            conclude(failure, freed),
        ),
        (stage, _) => stage,
    }
}

/// What an [`Injection`] holds.
pub struct InjectionView {
    /// The handle of the target process.
    pub process: usize,
    /// The library's path as a wide string.
    pub path: Seq<u16>,
    /// The number of bytes that `path` takes.
    pub size: usize,
    pub stage: Stage,
    /// The events taken in so far, in their order.
    pub events: Seq<Event>,
}

/// One injection under way: the target, the path to load, and the stage
/// reached.
pub struct Injection {
    process: usize,
    path: WidePath,
    size: usize,
    progress: Progress,
}

/// The stage of an injection, with the events that led to it.
struct Progress {
    stage: Stage,
    events: Ghost<Seq<Event>>,
}

impl View for Injection {
    type V = InjectionView;

    closed spec fn view(&self) -> InjectionView {
        InjectionView {
            process: self.process,
            path: self.path@,
            size: self.size,
            stage: self.progress.stage,
            events: self.progress.events@,
        }
    }
}

impl Injection {
    #[verifier::type_invariant]
    spec fn borne_out(&self) -> bool {
        &&& self.progress.stage == replay(self.progress.events@)
        &&& in_turn(self.process, self.size, self.progress.events@)
    }

    /// An injection of the encoded `path` into `process`, with nothing done
    /// yet.
    pub fn new(process: usize, path: WidePath) -> (injection: Injection)
        ensures
            injection@.process == process,
            injection@.path == path@,
            injection@.size == 2 * path@.len(),
            injection@.stage == Stage::FindingLoaderModule,
            injection@.events == Seq::<Event>::empty(),
    {
        let size = path.byte_len();
        Injection {
            process,
            path,
            size,
            progress: Progress { stage: Stage::FindingLoaderModule, events: Ghost(Seq::empty()) },
        }
    }

    /// The units that the target is to receive.
    pub fn path(&self) -> (units: &Vec<u16>)
        ensures
            units@ == self@.path,
    {
        self.path.units()
    }

    /// The stage reached.
    pub fn stage(&self) -> (stage: Stage)
        ensures
            stage == self@.stage,
    {
        self.progress.stage
    }

    /// The request that is due now. It is the one that the events taken in
    /// so far lead to, and each of them came in turn.
    pub fn request(&self) -> (due: Request)
        ensures
            due == request_at(self@.process, self@.size, self@.stage),
            self@.stage == replay(self@.events),
            in_turn(self@.process, self@.size, self@.events),
    {
        proof {
            use_type_invariant(self);
        }
        request(self.process, self.size, self.progress.stage)
    }

    /// The result of the injection, once it has ended.
    pub fn outcome(&self) -> (outcome: Option<Result<(), Error>>)
        ensures
            outcome == match self@.stage {
                Stage::Finished(result) => Some(result),
                _ => None,
            },
    {
        match self.progress.stage {
            Stage::Finished(result) => Some(result),
            _ => None,
        }
    }

    /// Takes in the reply to the request that is due. An event that does not
    /// answer it is turned down and changes nothing.
    pub fn advance(&mut self, event: Event) -> (accepted: bool)
        ensures
            accepted == answers(
                request_at(old(self)@.process, old(self)@.size, old(self)@.stage),
                event,
            ),
            final(self)@ == (InjectionView {
                stage: next_stage(old(self)@.stage, event),
                events: if accepted {
                    old(self)@.events.push(event)
                } else {
                    old(self)@.events
                },
                ..old(self)@
            }),
            final(self)@.stage == replay(final(self)@.events),
            in_turn(final(self)@.process, final(self)@.size, final(self)@.events),
    {
        proof {
            use_type_invariant(&*self);
            lemma_step(self.process, self.size, self.progress.events@, event);
        }
        let accepted = expects(self.progress.stage, event);
        let events: Ghost<Seq<Event>> = Ghost(
            if accepted {
                self.progress.events@.push(event)
            } else {
                self.progress.events@
            },
        );
        self.progress = Progress { stage: step(self.progress.stage, event), events };
        accepted
    }
}

/// Starts the injection of the library at `path` into the process behind
/// `handle`. Whether a file is there is not looked at. There is no injection
/// where the bytes of the encoded path could not be counted in a `usize`.
pub fn inject(handle: usize, path: &str) -> (started: Option<Injection>)
    ensures
        match started {
            Some(injection) => {
                &&& injection@.process == handle
                &&& injection@.path == wide_terminated(path@)
                &&& injection@.size == 2 * wide_terminated(path@).len()
                &&& injection@.stage == Stage::FindingLoaderModule
                &&& injection@.events == Seq::<Event>::empty()
            },
            None => 2 * wide_terminated(path@).len() > usize::MAX,
        },
        2 * wide_terminated(path@).len() <= usize::MAX ==> started is Some,
{
    match WidePath::encode(path) {
        Some(encoded) => Some(Injection::new(handle, encoded)),
        None => None,
    }
}

/// The stage that an injection has reached once `events` have come in, in
/// this order.
pub open spec fn replay(events: Seq<Event>) -> Stage
    decreases events.len(),
{
    if events.len() == 0 {
        Stage::FindingLoaderModule
    } else {
        next_stage(replay(events.drop_last()), events.last())
    }
}

/// Whether each of `events` answers the request that was due when it came.
pub open spec fn in_turn(process: usize, size: usize, events: Seq<Event>) -> bool
    decreases events.len(),
{
    events.len() == 0 || {
        &&& in_turn(process, size, events.drop_last())
        &&& answers(request_at(process, size, replay(events.drop_last())), events.last())
    }
}

/// The requests that an injection has made once `events` have come in: the
/// first one, and one after each event.
pub open spec fn requests(process: usize, size: usize, events: Seq<Event>) -> Seq<Request>
    decreases events.len(),
{
    if events.len() == 0 {
        seq![request_at(process, size, Stage::FindingLoaderModule)]
    } else {
        requests(process, size, events.drop_last()).push(
            request_at(process, size, replay(events)),
        )
    }
}

/// Unfolds an injection by the event that came last: the stage, the
/// requests, and whether the events came in turn, each from what held before
/// that event.
pub proof fn lemma_step(process: usize, size: usize, events: Seq<Event>, event: Event)
    ensures
        replay(events.push(event)) == next_stage(replay(events), event),
        in_turn(process, size, events.push(event)) == (in_turn(process, size, events) && answers(
            request_at(process, size, replay(events)),
            event,
        )),
        requests(process, size, events.push(event)) == requests(process, size, events).push(
            request_at(process, size, replay(events.push(event))),
        ),
{
    assert(events.push(event).drop_last() == events);
}

/// The regions that `events` report as allocated, in order.
pub open spec fn allocated(events: Seq<Event>) -> Seq<usize>
    decreases events.len(),
{
    if events.len() == 0 {
        Seq::empty()
    } else {
        match events.last() {
            Event::Allocated { region, .. } if region != 0 => allocated(events.drop_last()).push(
                region,
            ),
            _ => allocated(events.drop_last()),
        }
    }
}

/// The regions that `requests` ask to release, in order.
pub open spec fn released(requests: Seq<Request>) -> Seq<usize>
    decreases requests.len(),
{
    if requests.len() == 0 {
        Seq::empty()
    } else {
        match requests.last() {
            Request::Free { region, .. } => released(requests.drop_last()).push(region),
            _ => released(requests.drop_last()),
        }
    }
}

/// The threads that `requests` ask to start, each by the argument that it is
/// started with.
pub open spec fn started(requests: Seq<Request>) -> Seq<usize>
    decreases requests.len(),
{
    if requests.len() == 0 {
        Seq::empty()
    } else {
        match requests.last() {
            Request::StartThread { argument, .. } => started(requests.drop_last()).push(argument),
            _ => started(requests.drop_last()),
        }
    }
}

/// What holds of an injection's history at each stage.
spec fn settled(process: usize, size: usize, events: Seq<Event>) -> bool {
    let held = allocated(events);
    let given_back = released(requests(process, size, events));
    let threads = started(requests(process, size, events));
    match replay(events) {
        Stage::FindingLoaderModule | Stage::FindingLoaderEntry { .. } | Stage::Allocating { .. } => {
            &&& held == Seq::<usize>::empty()
            &&& given_back == Seq::<usize>::empty()
            &&& threads == Seq::<usize>::empty()
        },
        Stage::Writing { region, .. } => {
            &&& held == seq![region]
            &&& given_back == Seq::<usize>::empty()
            &&& threads == Seq::<usize>::empty()
        },
        Stage::StartingThread { region, .. } | Stage::Waiting { region, .. } => {
            &&& held == seq![region]
            &&& given_back == Seq::<usize>::empty()
            &&& threads == seq![region]
        },
        Stage::Freeing { region, failure } => {
            &&& held == seq![region]
            &&& given_back == seq![region]
            &&& threads == Seq::<usize>::empty() || threads == seq![region]
            &&& failure is None ==> threads == seq![region]
        },
        Stage::Finished(result) => {
            &&& held == given_back
            &&& held.len() <= 1
            &&& threads.is_prefix_of(held)
            &&& result is Ok ==> threads.len() == 1 && threads == held
        },
    }
}

proof fn lemma_settled(process: usize, size: usize, events: Seq<Event>)
    requires
        in_turn(process, size, events),
    ensures
        settled(process, size, events),
    decreases events.len(),
{
    if events.len() == 0 {
        assert(requests(process, size, events).drop_last() == Seq::<Request>::empty());
        assert(released(requests(process, size, events).drop_last()) == Seq::<usize>::empty());
        assert(started(requests(process, size, events).drop_last()) == Seq::<usize>::empty());
    } else {
        let before = events.drop_last();
        lemma_settled(process, size, before);
        let asked = requests(process, size, before);
        let due = request_at(process, size, replay(events));
        assert(asked.push(due).drop_last() == asked);
        assert(asked.push(due).last() == due);
    }
}

/// Memory allocated in the target is given back before the injection ends,
/// whatever the replies are.
///
/// In every injection whose events come in turn, at most one region is
/// allocated; at every moment the regions asked to be released are among
/// those allocated, in the same order, so nothing is released before it was
/// allocated, or twice; and once the injection has ended, with success or
/// with an error, every region allocated has been asked to be released.
pub proof fn law_allocation_released(process: usize, size: usize, events: Seq<Event>)
    requires
        in_turn(process, size, events),
    ensures
        allocated(events).len() <= 1,
        released(requests(process, size, events)).is_prefix_of(allocated(events)),
        replay(events) is Finished ==> released(requests(process, size, events)) == allocated(
            events,
        ),
{
    lemma_settled(process, size, events);
}

/// An injection starts at most one thread in the target, on the memory that
/// holds the path, and one that ends with success has started exactly one.
pub proof fn law_one_thread(process: usize, size: usize, events: Seq<Event>)
    requires
        in_turn(process, size, events),
    ensures
        started(requests(process, size, events)).is_prefix_of(allocated(events)),
        replay(events) == Stage::Finished(Ok(())) ==> started(requests(process, size, events))
            == allocated(events) && allocated(events).len() == 1,
{
    lemma_settled(process, size, events);
}

} // verus!
