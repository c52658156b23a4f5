//! The whole run: launch the program suspended, load each library in the
//! order given, resume the program, and give its handles up.
//!
//! The first failure ends the run. A run that fails after the launch leaves
//! the process suspended and its handles open: what becomes of it is for the
//! caller to decide.

use crate::config::Config;
use crate::history::{in_turn, law_out_of_turn_ignored, lemma_step, replay};
use crate::injector;
use crate::launcher;
use crate::launcher::ProcessHandlePair;
use crate::wide::{wide_terminated, WidePath};
use vstd::prelude::*;

verus! {

/// Why a run failed: the part that failed, and its error.
#[derive(Clone, Copy, Debug, PartialEq, Eq)]
pub enum Error {
    LaunchFailed(launcher::Error),
    InjectFailed(injector::Error),
}

/// What the caller is asked to do next.
#[derive(Clone, Copy, Debug, PartialEq, Eq)]
pub enum Request {
    /// A request about the process itself: a step of its launch, the
    /// resumption of its thread, or the closing of one of its handles.
    Launcher(launcher::Request),
    /// A step of loading the library at place `dependency` of the list.
    Injector { dependency: usize, request: injector::Request },
    /// Nothing is left to do: the run has ended with this result.
    Finish(Result<(), Error>),
}

/// What the operating system answered to a request.
#[derive(Clone, Copy, Debug, PartialEq, Eq)]
pub enum Event {
    Launcher(launcher::Event),
    Injector(injector::Event),
}

/// How far a run has come.
#[derive(Clone, Copy, Debug, PartialEq, Eq)]
pub enum Stage {
    /// No process yet: the launch is at the stage given.
    Launching(launcher::Stage),
    /// The process is suspended, the libraries before place `index` are
    /// loaded, and the injection of the one at `index` is at `stage`.
    Injecting { pair: ProcessHandlePair, index: usize, stage: injector::Stage },
    /// Every library is loaded; the thread is being resumed.
    Resuming { pair: ProcessHandlePair },
    /// The program runs; its process handle is being closed.
    ClosingProcess { pair: ProcessHandlePair },
    /// The process handle is closed; the thread handle is being closed.
    ClosingThread { pair: ProcessHandlePair },
    Finished(Result<(), Error>),
}

/// The stage at which a run turns to the library at place `index`: its
/// injection where there is such a library, the resumption of the thread
/// where the list is at its end. `sizes` holds, for each library, the bytes
/// that its path takes.
pub open spec fn turn_to(sizes: Seq<usize>, pair: ProcessHandlePair, index: int) -> Stage {
    if 0 <= index < sizes.len() {
        Stage::Injecting { pair, index: index as usize, stage: injector::Stage::FindingLoaderModule }
    } else {
        Stage::Resuming { pair }
    }
}

/// The request that is due at `stage`.
pub open spec fn request_at(sizes: Seq<usize>, stage: Stage) -> Request {
    match stage {
        Stage::Launching(launch) => Request::Launcher(launcher::request_at(launch)),
        Stage::Injecting { pair, index, stage } => Request::Injector {
            dependency: index,
            request: injector::request_at(pair.process_handle, sizes[index as int], stage),
        },
        Stage::Resuming { pair } => Request::Launcher(
            launcher::Request::ResumeThread { thread: pair.thread_handle },
        ),
        Stage::ClosingProcess { pair } => Request::Launcher(
            launcher::Request::CloseHandle { handle: pair.process_handle },
        ),
        Stage::ClosingThread { pair } => Request::Launcher(
            launcher::Request::CloseHandle { handle: pair.thread_handle },
        ),
        Stage::Finished(result) => Request::Finish(result),
    }
}

/// Whether `event` is the kind of reply that `request` calls for.
pub open spec fn answers(request: Request, event: Event) -> bool {
    match (request, event) {
        (Request::Launcher(asked), Event::Launcher(reply)) => launcher::answers(asked, reply),
        (Request::Injector { request, .. }, Event::Injector(reply)) => injector::answers(
            request,
            reply,
        ),
        _ => false,
    }
}

/// The stage after `event` has come in at `stage`. A launch that succeeds
/// leads to the first library, an injection that succeeds to the next one,
/// the last one to the resumption of the thread, and that to the closing of
/// the process handle and then of the thread handle. A launch or an
/// injection that fails ends the run. An event that does not answer the
/// request due at `stage` changes nothing.
pub open spec fn next_stage(sizes: Seq<usize>, stage: Stage, event: Event) -> Stage {
    match (stage, event) {
        (Stage::Launching(launch), Event::Launcher(reply)) => match launcher::next_stage(
            launch,
            reply,
        ) {
            launcher::Stage::Finished(Ok(pair)) => turn_to(sizes, pair, 0),
            launcher::Stage::Finished(Err(error)) => Stage::Finished(
                Err(Error::LaunchFailed(error)),
            ),
            next => Stage::Launching(next),
        },
        (Stage::Injecting { pair, index, stage: injection }, Event::Injector(reply)) => match injector::next_stage(
            injection,
            reply,
        ) {
            injector::Stage::Finished(Ok(_)) => turn_to(sizes, pair, index + 1),
            injector::Stage::Finished(Err(error)) => Stage::Finished(
                Err(Error::InjectFailed(error)),
            ),
            next => Stage::Injecting { pair, index, stage: next },
        },
        (Stage::Resuming { pair }, Event::Launcher(launcher::Event::ThreadResumed)) => {
            Stage::ClosingProcess { pair }
        },
        (Stage::ClosingProcess { pair }, Event::Launcher(launcher::Event::HandleClosed)) => {
            Stage::ClosingThread { pair }
        },
        (Stage::ClosingThread { .. }, Event::Launcher(launcher::Event::HandleClosed)) => {
            Stage::Finished(Ok(()))
        },
        _ => stage,
    }
}

/// What a [`Pipeline`] holds.
pub struct PipelineView {
    pub executable_path: Seq<char>,
    pub working_directory: Seq<char>,
    /// The path of each library as a wide string.
    pub paths: Seq<Seq<u16>>,
    /// The number of bytes that each of `paths` takes.
    pub sizes: Seq<usize>,
    pub stage: Stage,
    /// The events taken in so far, in their order.
    pub events: Seq<Event>,
}

/// One run under way.
pub struct Pipeline {
    executable_path: String,
    working_directory: String,
    paths: Vec<WidePath>,
    progress: Progress,
}

/// The stage of a run, with the events that led to it.
struct Progress {
    stage: Stage,
    events: Ghost<Seq<Event>>,
}

impl View for Pipeline {
    type V = PipelineView;

    closed spec fn view(&self) -> PipelineView {
        PipelineView {
            executable_path: self.executable_path@,
            working_directory: self.working_directory@,
            paths: Seq::new(self.paths@.len(), |i: int| self.paths@[i]@),
            sizes: self.sizes(),
            stage: self.progress.stage,
            events: self.progress.events@,
        }
    }
}

/// Whether the bytes of each of `dependencies`, encoded as a wide string,
/// can be counted in a `usize`.
pub open spec fn all_fit(dependencies: Seq<String>) -> bool {
    forall|i: int|
        0 <= i < dependencies.len() ==> 2 * wide_terminated(#[trigger] dependencies[i]@).len()
            <= usize::MAX
}

/// Whether `view` is a run of `executable_path` in `working_directory` with
/// the libraries `dependencies`, at its start.
pub open spec fn starts(
    view: PipelineView,
    executable_path: Seq<char>,
    working_directory: Seq<char>,
    dependencies: Seq<String>,
) -> bool {
    &&& view.executable_path == executable_path
    &&& view.working_directory == working_directory
    &&& view.stage == Stage::Launching(launcher::Stage::LocatingCover)
    &&& view.events == Seq::<Event>::empty()
    &&& view.paths.len() == dependencies.len()
    &&& view.sizes.len() == dependencies.len()
    &&& forall|i: int|
        0 <= i < dependencies.len() ==> {
            &&& #[trigger] view.paths[i] == wide_terminated(dependencies[i]@)
            &&& view.sizes[i] == 2 * view.paths[i].len()
        }
}

impl Pipeline {
    spec fn sizes(&self) -> Seq<usize> {
        Seq::new(self.paths@.len(), |i: int| self.paths@[i].byte_size())
    }

    #[verifier::type_invariant]
    spec fn borne_out(&self) -> bool {
        &&& self.progress.stage matches Stage::Injecting { index, .. } ==> index
            < self.paths@.len()
        &&& self.progress.stage == replay(self.sizes(), self.progress.events@)
        &&& in_turn(self.sizes(), self.progress.events@)
    }

    /// A run of `executable_path` in `working_directory` that loads
    /// `dependencies`, with nothing done yet. There is none where the bytes
    /// of an encoded dependency could not be counted in a `usize`.
    pub fn new(executable_path: String, working_directory: String, dependencies: &Vec<String>) -> (run:
        Option<Pipeline>)
        ensures
            run matches Some(pipeline) ==> starts(
                pipeline@,
                executable_path@,
                working_directory@,
                dependencies@,
            ),
            run is Some <==> all_fit(dependencies@),
    {
        let mut paths: Vec<WidePath> = Vec::new();
        let mut i: usize = 0;
        while i < dependencies.len()
            invariant
                i <= dependencies.len(),
                paths@.len() == i,
                forall|k: int|
                    0 <= k < i ==> {
                        &&& (#[trigger] paths@[k])@ == wide_terminated(dependencies@[k]@)
                        &&& paths@[k].byte_size() == 2 * paths@[k]@.len()
                    },
            decreases dependencies.len() - i,
        {
            match WidePath::encode(dependencies[i].as_str()) {
                Some(encoded) => {
                    paths.push(encoded);
                },
                None => {
                    return None;
                },
            }
            i = i + 1;
        }
        let pipeline = Pipeline {
            executable_path,
            working_directory,
            paths,
            progress: Progress {
                stage: Stage::Launching(launcher::Stage::LocatingCover),
                events: Ghost(Seq::empty()),
            },
        };
        assert forall|k: int| 0 <= k < dependencies@.len() implies 2 * wide_terminated(
            #[trigger] dependencies@[k]@,
        ).len() <= usize::MAX by {
            assert(pipeline.paths@[k]@ == wide_terminated(dependencies@[k]@));
        }
        Some(pipeline)
    }

    /// The path handed to the operating system as the application name.
    pub fn executable_path(&self) -> (path: &String)
        ensures
            path@ == self@.executable_path,
    {
        &self.executable_path
    }

    /// The directory in which the process starts.
    pub fn working_directory(&self) -> (directory: &String)
        ensures
            directory@ == self@.working_directory,
    {
        &self.working_directory
    }

    /// The stage reached.
    pub fn stage(&self) -> (stage: Stage)
        ensures
            stage == self@.stage,
    {
        self.progress.stage
    }

    /// The units that the target is to receive for the library that is being
    /// injected, if one is.
    pub fn path(&self) -> (units: Option<&Vec<u16>>)
        ensures
            match self@.stage {
                Stage::Injecting { index, .. } => {
                    &&& index < self@.paths.len()
                    &&& units matches Some(path)
                    &&& path@ == self@.paths[index as int]
                },
                _ => units is None,
            },
    {
        proof {
            use_type_invariant(self);
        }
        match self.progress.stage {
            Stage::Injecting { index, .. } => Some(self.paths[index].units()),
            _ => None,
        }
    }

    /// The request that is due now. It is the one that the events taken in
    /// so far lead to, and each of them came in turn.
    pub fn request(&self) -> (due: Request)
        ensures
            due == request_at(self@.sizes, self@.stage),
            self@.stage == replay(self@.sizes, self@.events),
            in_turn(self@.sizes, self@.events),
            self@.sizes.len() <= usize::MAX,
    {
        proof {
            use_type_invariant(self);
            assert(self.paths@.len() == self.paths.len());
        }
        match self.progress.stage {
            Stage::Launching(launch) => Request::Launcher(launcher::request(launch)),
            Stage::Injecting { pair, index, stage } => Request::Injector {
                dependency: index,
                request: injector::request(
                    pair.process_handle,
                    self.paths[index].byte_len(),
                    stage,
                ),
            },
            Stage::Resuming { pair } => Request::Launcher(launcher::resume_process(&pair)),
            Stage::ClosingProcess { pair } => Request::Launcher(launcher::free_info(pair).0),
            Stage::ClosingThread { pair } => Request::Launcher(launcher::free_info(pair).1),
            Stage::Finished(result) => Request::Finish(result),
        }
    }

    /// The result of the run, once it has ended.
    pub fn outcome(&self) -> (outcome: Option<Result<(), Error>>)
        ensures
            outcome == match self@.stage {
                Stage::Finished(result) => Some(result),
                _ => None,
            },
    {
        match self.progress.stage {
            Stage::Finished(result) => Some(result),
            _ => None,
        }
    }

    /// Whether `event` answers the request that is due now.
    pub fn expects(&self, event: Event) -> (expected: bool)
        ensures
            expected == answers(request_at(self@.sizes, self@.stage), event),
    {
        match (self.progress.stage, event) {
            (Stage::Launching(launch), Event::Launcher(reply)) => launcher::expects(launch, reply),
            (Stage::Injecting { stage, .. }, Event::Injector(reply)) => injector::expects(
                stage,
                reply,
            ),
            (Stage::Resuming { .. }, Event::Launcher(launcher::Event::ThreadResumed)) => true,
            (Stage::ClosingProcess { .. }, Event::Launcher(launcher::Event::HandleClosed)) => true,
            (Stage::ClosingThread { .. }, Event::Launcher(launcher::Event::HandleClosed)) => true,
            _ => false,
        }
    }

    /// The stage at which the run turns to the library at place `index`.
    fn turn(&self, pair: ProcessHandlePair, index: usize) -> (stage: Stage)
        ensures
            stage == turn_to(self@.sizes, pair, index as int),
            stage matches Stage::Injecting { index, .. } ==> index < self.paths@.len(),
    {
        if index < self.paths.len() {
            Stage::Injecting { pair, index, stage: injector::Stage::FindingLoaderModule }
        } else {
            Stage::Resuming { pair }
        }
    }

    /// Takes in the reply to the request that is due. An event that does not
    /// answer it is turned down and changes nothing.
    pub fn advance(&mut self, event: Event) -> (accepted: bool)
        ensures
            accepted == answers(request_at(old(self)@.sizes, old(self)@.stage), event),
            final(self)@ == (PipelineView {
                stage: next_stage(old(self)@.sizes, old(self)@.stage, event),
                events: if accepted {
                    old(self)@.events.push(event)
                } else {
                    old(self)@.events
                },
                ..old(self)@
            }),
            final(self)@.stage == replay(final(self)@.sizes, final(self)@.events),
            in_turn(final(self)@.sizes, final(self)@.events),
    {
        proof {
            use_type_invariant(&*self);
            assert(self.paths@.len() == self.paths.len());
            lemma_step(self.sizes(), self.progress.events@, event);
            if !answers(request_at(self.sizes(), self.progress.stage), event) {
                law_out_of_turn_ignored(self.sizes(), self.progress.events@, event);
            }
        }
        let accepted = self.expects(event);
        let events: Ghost<Seq<Event>> = Ghost(
            if accepted {
                self.progress.events@.push(event)
            } else {
                self.progress.events@
            },
        );
        let next = match (self.progress.stage, event) {
            (Stage::Launching(launch), Event::Launcher(reply)) => match launcher::step(
                launch,
                reply,
            ) {
                launcher::Stage::Finished(Ok(pair)) => self.turn(pair, 0),
                launcher::Stage::Finished(Err(error)) => Stage::Finished(
                    Err(Error::LaunchFailed(error)),
                ),
                next => Stage::Launching(next),
            },
            (Stage::Injecting { pair, index, stage: injection }, Event::Injector(reply)) => {
                match injector::step(injection, reply) {
                    injector::Stage::Finished(Ok(_)) => self.turn(pair, index + 1),
                    injector::Stage::Finished(Err(error)) => Stage::Finished(
                        Err(Error::InjectFailed(error)),
                    ),
                    next => Stage::Injecting { pair, index, stage: next },
                }
            },
            (Stage::Resuming { pair }, Event::Launcher(launcher::Event::ThreadResumed)) => {
                Stage::ClosingProcess { pair }
            },
            (Stage::ClosingProcess { pair }, Event::Launcher(launcher::Event::HandleClosed)) => {
                Stage::ClosingThread { pair }
            },
            (Stage::ClosingThread { .. }, Event::Launcher(launcher::Event::HandleClosed)) => {
                Stage::Finished(Ok(()))
            },
            (stage, _) => stage,
        };
        self.progress = Progress { stage: next, events };
        accepted
    }
}

/// Starts the run that `config` describes. The process will start in the
/// directory that `config` names, or else in the one that holds the
/// executable. There is no run where neither is to be had, or where the bytes
/// of an encoded dependency could not be counted in a `usize`.
pub fn run(config: &Config) -> (started: Option<Pipeline>)
    ensures
        started matches Some(pipeline) ==> {
            &&& all_fit(config.dependency_paths())
            &&& starts(
                pipeline@,
                config.executable_path@,
                pipeline@.working_directory,
                config.dependency_paths(),
            )
            &&& config.current_directory matches Some(given) ==> pipeline@.working_directory
                == given@
        },
        config.current_directory is Some ==> (started is Some <==> all_fit(
            config.dependency_paths(),
        )),
        config.current_directory is None && config.executable_path@.len() == 0 ==> started is None,
{
    let directory = launcher::working_directory(
        config.executable_path.as_str(),
        config.current_directory.as_ref(),
    );
    match directory {
        Some(directory) => match &config.dependencies {
            Some(dependencies) => Pipeline::new(
                config.executable_path.clone(),
                directory,
                dependencies,
            ),
            None => Pipeline::new(config.executable_path.clone(), directory, &Vec::new()),
        },
        None => None,
    }
}

} // verus!
