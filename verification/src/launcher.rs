//! Creating the target process: suspended, and with a cover process reported
//! as its parent.
//!
//! A launch is a fixed series of operating-system requests. [`Stage`] says how
//! far a launch has come, [`request_at`] which request is due at a stage, and
//! [`next_stage`] where the reply to it leads. The caller performs each
//! request and hands the reply back as an [`Event`].

use vstd::prelude::*;

verus! {

/// Why a launch ended without a process. The number is the status code that
/// the operating system gave for the failed request.
#[derive(Clone, Copy, Debug, PartialEq, Eq)]
pub enum Error {
    /// The desktop shell has no window, or the window's process is unknown.
    CoverProcessNotFound,
    /// The security token of the calling process could not be opened.
    TokenOpenFailed(i32),
    /// The cover process could not be opened.
    CoverProcessOpenFailed(i32),
    /// The attribute list could not be initialized in its buffer.
    AttributeListInitFailed(i32),
    /// The cover process could not be registered as the parent.
    AttributeUpdateFailed(i32),
    /// The operating system refused to create the process.
    ProcessCreateFailed(i32),
}

/// The handles and identifiers of a created process and of its primary
/// thread. Whoever holds the pair owns both handles.
#[derive(Clone, Copy, Debug, PartialEq, Eq)]
pub struct ProcessHandlePair {
    pub process_handle: usize,
    pub thread_handle: usize,
    pub process_id: u32,
    pub thread_id: u32,
}

/// What the caller is asked to do next.
#[derive(Clone, Copy, Debug, PartialEq, Eq)]
pub enum Request {
    /// Find the top-level window of the desktop shell, then the thread and
    /// the process that own it.
    LocateCover,
    /// Open the security token of the calling process with full access.
    OpenToken,
    /// Open the process `process_id` with full access.
    OpenCover { process_id: u32 },
    /// Ask how many bytes an attribute list with one attribute takes.
    SizeAttributeList,
    /// Allocate `size` bytes and initialize in them an attribute list for
    /// one attribute.
    InitializeAttributeList { size: usize },
    /// Register in the attribute list that the reported parent is `cover`.
    SetParent { cover: usize },
    /// Create the process under `token`: the launch's executable path as the
    /// application name, no command line, the launch's working directory,
    /// the attribute list in an extended startup structure, and the primary
    /// thread suspended.
    CreateSuspended { token: usize },
    /// Resume the suspended thread `thread`.
    ResumeThread { thread: usize },
    /// Close `handle`.
    CloseHandle { handle: usize },
    /// Nothing is left to do: the launch has ended with this result. The
    /// attribute list and the handle of the cover process have served their
    /// purpose and may be released; the handles of a created process stay
    /// open and belong to the caller.
    Finish(Result<ProcessHandlePair, Error>),
}

/// What the operating system answered to a request.
#[derive(Clone, Copy, Debug, PartialEq, Eq)]
pub enum Event {
    /// The thread and the process that own the shell's window; the thread is
    /// zero where there is no window or its owner is unknown.
    CoverLocated { thread_id: u32, process_id: u32 },
    /// The token's handle, or the status code.
    TokenOpened(Result<usize, i32>),
    /// The cover process's handle, or the status code.
    CoverOpened(Result<usize, i32>),
    /// The number of bytes that the attribute list takes.
    AttributeListSized(usize),
    AttributeListInitialized(Result<(), i32>),
    ParentSet(Result<(), i32>),
    /// The new process, or the status code.
    ProcessCreated(Result<ProcessHandlePair, i32>),
    ThreadResumed,
    HandleClosed,
}

/// How far a launch has come. Each stage but the last waits for the reply to
/// one request.
#[derive(Clone, Copy, Debug, PartialEq, Eq)]
pub enum Stage {
    LocatingCover,
    OpeningToken { cover_id: u32 },
    OpeningCover { cover_id: u32, token: usize },
    SizingAttributes { token: usize, cover: usize },
    InitializingAttributes { token: usize, cover: usize, size: usize },
    SettingParent { token: usize, cover: usize },
    Creating { token: usize, cover: usize },
    Finished(Result<ProcessHandlePair, Error>),
}

/// The process behind the shell's window, if the lookup found one: the
/// operating system reports thread zero where it did not.
pub open spec fn cover_process(thread_id: u32, process_id: u32) -> Option<u32> {
    if thread_id == 0 {
        None
    } else {
        Some(process_id)
    }
}

/// The request that is due at `stage`.
pub open spec fn request_at(stage: Stage) -> Request {
    match stage {
        Stage::LocatingCover => Request::LocateCover,
        Stage::OpeningToken { .. } => Request::OpenToken,
        Stage::OpeningCover { cover_id, .. } => Request::OpenCover { process_id: cover_id },
        Stage::SizingAttributes { .. } => Request::SizeAttributeList,
        Stage::InitializingAttributes { size, .. } => Request::InitializeAttributeList { size },
        Stage::SettingParent { cover, .. } => Request::SetParent { cover },
        Stage::Creating { token, .. } => Request::CreateSuspended { token },
        Stage::Finished(result) => Request::Finish(result),
    }
}

/// Whether `event` is the kind of reply that `request` calls for.
pub open spec fn answers(request: Request, event: Event) -> bool {
    match request {
        Request::LocateCover => event is CoverLocated,
        Request::OpenToken => event is TokenOpened,
        Request::OpenCover { .. } => event is CoverOpened,
        Request::SizeAttributeList => event is AttributeListSized,
        Request::InitializeAttributeList { .. } => event is AttributeListInitialized,
        Request::SetParent { .. } => event is ParentSet,
        Request::CreateSuspended { .. } => event is ProcessCreated,
        Request::ResumeThread { .. } => event is ThreadResumed,
        Request::CloseHandle { .. } => event is HandleClosed,
        Request::Finish(_) => false,
    }
}

/// The stage after `event` has come in at `stage`. A failed request ends the
/// launch with the error of its step; an event that does not answer the
/// request due at `stage` changes nothing.
pub open spec fn next_stage(stage: Stage, event: Event) -> Stage {
    match (stage, event) {
        (Stage::LocatingCover, Event::CoverLocated { thread_id, process_id }) => match cover_process(
            thread_id,
            process_id,
        ) {
            Some(cover_id) => Stage::OpeningToken { cover_id },
            None => Stage::Finished(Err(Error::CoverProcessNotFound)),
        },
        (Stage::OpeningToken { cover_id }, Event::TokenOpened(opened)) => match opened {
            Ok(token) => Stage::OpeningCover { cover_id, token },
            Err(code) => Stage::Finished(Err(Error::TokenOpenFailed(code))),
        },
        (Stage::OpeningCover { token, .. }, Event::CoverOpened(opened)) => match opened {
            Ok(cover) => Stage::SizingAttributes { token, cover },
            Err(code) => Stage::Finished(Err(Error::CoverProcessOpenFailed(code))),
        },
        (Stage::SizingAttributes { token, cover }, Event::AttributeListSized(size)) => {
            Stage::InitializingAttributes { token, cover, size }
        },
        (
            Stage::InitializingAttributes { token, cover, .. },
            Event::AttributeListInitialized(done),
        ) => match done {
            Ok(_) => Stage::SettingParent { token, cover },
            Err(code) => Stage::Finished(Err(Error::AttributeListInitFailed(code))),
        },
        (Stage::SettingParent { token, cover }, Event::ParentSet(done)) => match done {
            Ok(_) => Stage::Creating { token, cover },
            Err(code) => Stage::Finished(Err(Error::AttributeUpdateFailed(code))),
        },
        (Stage::Creating { .. }, Event::ProcessCreated(created)) => match created {
            Ok(pair) => Stage::Finished(Ok(pair)),
            Err(code) => Stage::Finished(Err(Error::ProcessCreateFailed(code))),
        },
        _ => stage,
    }
}

/// Reads the reply to the shell lookup: the cover process, unless the thread
/// is zero.
pub fn get_cover_process(thread_id: u32, process_id: u32) -> (cover: Option<u32>)
    ensures
        cover == cover_process(thread_id, process_id),
{
    if thread_id == 0 {
        None
    } else {
        Some(process_id)
    }
}

/// The request that is due at `stage`.
pub fn request(stage: Stage) -> (due: Request)
    ensures
        due == request_at(stage),
{
    match stage {
        Stage::LocatingCover => Request::LocateCover,
        Stage::OpeningToken { .. } => Request::OpenToken,
        Stage::OpeningCover { cover_id, .. } => Request::OpenCover { process_id: cover_id },
        Stage::SizingAttributes { .. } => Request::SizeAttributeList,
        Stage::InitializingAttributes { size, .. } => Request::InitializeAttributeList { size },
        Stage::SettingParent { cover, .. } => Request::SetParent { cover },
        Stage::Creating { token, .. } => Request::CreateSuspended { token },
        Stage::Finished(result) => Request::Finish(result),
    }
}

/// Whether `event` answers the request that is due at `stage`.
pub fn expects(stage: Stage, event: Event) -> (expected: bool)
    ensures
        expected == answers(request_at(stage), event),
{
    match (stage, event) {
        (Stage::LocatingCover, Event::CoverLocated { .. }) => true,
        (Stage::OpeningToken { .. }, Event::TokenOpened(_)) => true,
        (Stage::OpeningCover { .. }, Event::CoverOpened(_)) => true,
        (Stage::SizingAttributes { .. }, Event::AttributeListSized(_)) => true,
        (Stage::InitializingAttributes { .. }, Event::AttributeListInitialized(_)) => true,
        (Stage::SettingParent { .. }, Event::ParentSet(_)) => true,
        (Stage::Creating { .. }, Event::ProcessCreated(_)) => true,
        _ => false,
    }
}

/// Takes `event` in at `stage` and gives the stage that follows.
pub fn step(stage: Stage, event: Event) -> (next: Stage)
    ensures
        next == next_stage(stage, event),
{
    match (stage, event) {
        (Stage::LocatingCover, Event::CoverLocated { thread_id, process_id }) => {
            match get_cover_process(thread_id, process_id) {
                Some(cover_id) => Stage::OpeningToken { cover_id },
                None => Stage::Finished(Err(Error::CoverProcessNotFound)),
            }
        },
        (Stage::OpeningToken { cover_id }, Event::TokenOpened(opened)) => match opened {
            Ok(token) => Stage::OpeningCover { cover_id, token },
            Err(code) => Stage::Finished(Err(Error::TokenOpenFailed(code))),
        },
        (Stage::OpeningCover { token, .. }, Event::CoverOpened(opened)) => match opened {
            Ok(cover) => Stage::SizingAttributes { token, cover },
            Err(code) => Stage::Finished(Err(Error::CoverProcessOpenFailed(code))),
        },
        (Stage::SizingAttributes { token, cover }, Event::AttributeListSized(size)) => {
            Stage::InitializingAttributes { token, cover, size }
        },
        (
            Stage::InitializingAttributes { token, cover, .. },
            Event::AttributeListInitialized(done),
        ) => match done {
            Ok(_) => Stage::SettingParent { token, cover },
            Err(code) => Stage::Finished(Err(Error::AttributeListInitFailed(code))),
        },
        (Stage::SettingParent { token, cover }, Event::ParentSet(done)) => match done {
            Ok(_) => Stage::Creating { token, cover },
            Err(code) => Stage::Finished(Err(Error::AttributeUpdateFailed(code))),
        },
        (Stage::Creating { .. }, Event::ProcessCreated(created)) => match created {
            Ok(pair) => Stage::Finished(Ok(pair)),
            Err(code) => Stage::Finished(Err(Error::ProcessCreateFailed(code))),
        },
        (stage, _) => stage,
    }
}

/// The request that resumes the primary thread of `pi`.
pub fn resume_process(pi: &ProcessHandlePair) -> (due: Request)
    ensures
        due == (Request::ResumeThread { thread: pi.thread_handle }),
{
    Request::ResumeThread { thread: pi.thread_handle }
}

/// Gives up `pi`: the requests that close its process handle and its thread
/// handle, in the order in which they are due.
pub fn free_info(pi: ProcessHandlePair) -> (due: (Request, Request))
    ensures
        due.0 == (Request::CloseHandle { handle: pi.process_handle }),
        due.1 == (Request::CloseHandle { handle: pi.thread_handle }),
{
    (
        Request::CloseHandle { handle: pi.process_handle },
        Request::CloseHandle { handle: pi.thread_handle },
    )
}

/// `std::path::Path::parent`, on a path held as text: the path without its
/// last component. The separators, and what counts as a root, are those of
/// the platform, so the contract states only what holds on each of them: the
/// empty path has no parent.
#[verifier::external_body]
fn parent_directory(path: &str) -> (parent: Option<String>)
    ensures
        path@.len() == 0 ==> parent is None,
{
    match std::path::Path::new(path).parent() {
        Some(directory) => Some(directory.to_string_lossy().into_owned()),
        None => None,
    }
}

/// Picks the directory in which the process starts: the one supplied, or
/// else `parent`, the directory that holds the executable.
pub fn choose_working_directory(supplied: Option<&String>, parent: Option<String>) -> (directory:
    Option<String>)
    ensures
        directory == match supplied {
            Some(given) => Some(*given),
            None => parent,
        },
{
    match supplied {
        Some(given) => Some(given.clone()),
        None => parent,
    }
}

/// The directory in which the process starts: `supplied` where there is one,
/// otherwise the parent directory of `executable_path`, if it has one.
pub fn working_directory(executable_path: &str, supplied: Option<&String>) -> (directory: Option<
    String,
>)
    ensures
        supplied matches Some(given) ==> directory == Some(*given),
        supplied is None && executable_path@.len() == 0 ==> directory is None,
{
    match supplied {
        Some(_) => choose_working_directory(supplied, None),
        None => choose_working_directory(supplied, parent_directory(executable_path)),
    }
}

/// What a [`Launch`] holds.
pub struct LaunchView {
    pub executable_path: Seq<char>,
    pub working_directory: Seq<char>,
    pub stage: Stage,
}

/// One launch under way: the paths that the process is created with, and the
/// stage reached.
pub struct Launch {
    executable_path: String,
    working_directory: String,
    stage: Stage,
}

impl View for Launch {
    type V = LaunchView;

    closed spec fn view(&self) -> LaunchView {
        LaunchView {
            executable_path: self.executable_path@,
            working_directory: self.working_directory@,
            stage: self.stage,
        }
    }
}

impl Launch {
    /// A launch of `executable_path` in `working_directory`, with nothing
    /// done yet.
    pub fn new(executable_path: String, working_directory: String) -> (launch: Launch)
        ensures
            launch@ == (LaunchView {
                executable_path: executable_path@,
                working_directory: working_directory@,
                stage: Stage::LocatingCover,
            }),
    {
        Launch { executable_path, working_directory, stage: Stage::LocatingCover }
    }

    /// The path handed to the operating system as the application name.
    pub fn executable_path(&self) -> (path: &String)
        ensures
            path@ == self@.executable_path,
    {
        &self.executable_path
    }

    /// The directory in which the process starts.
    pub fn working_directory(&self) -> (directory: &String)
        ensures
            directory@ == self@.working_directory,
    {
        &self.working_directory
    }

    /// The stage reached.
    pub fn stage(&self) -> (stage: Stage)
        ensures
            stage == self@.stage,
    {
        self.stage
    }

    /// The request that is due now.
    pub fn request(&self) -> (due: Request)
        ensures
            due == request_at(self@.stage),
    {
        request(self.stage)
    }

    /// The result of the launch, once it has ended.
    pub fn outcome(&self) -> (outcome: Option<Result<ProcessHandlePair, Error>>)
        ensures
            outcome == match self@.stage {
                Stage::Finished(result) => Some(result),
                _ => None,
            },
    {
        match self.stage {
            Stage::Finished(result) => Some(result),
            _ => None,
        }
    }

    /// Takes in the reply to the request that is due. An event that does not
    /// answer it is turned down and changes nothing.
    pub fn advance(&mut self, event: Event) -> (accepted: bool)
        ensures
            accepted == answers(request_at(old(self)@.stage), event),
            final(self)@ == (LaunchView { stage: next_stage(old(self)@.stage, event), ..old(self)@ }),
    {
        let accepted = expects(self.stage, event);
        self.stage = step(self.stage, event);
        accepted
    }
}

/// Starts the launch of `path`. The process will start in `cwd` where one is
/// given, otherwise in the directory that holds `path`; a path without such
/// a directory cannot be launched. The command line is not passed on.
pub fn launch(path: &String, _cmdline: Option<&Vec<String>>, cwd: Option<&String>) -> (started:
    Option<Launch>)
    ensures
        match started {
            Some(launch) => {
                &&& launch@.executable_path == path@
                &&& launch@.stage == Stage::LocatingCover
                &&& cwd matches Some(given) ==> launch@.working_directory == given@
            },
            None => cwd is None,
        },
        cwd is None && path@.len() == 0 ==> started is None,
{
    match working_directory(path.as_str(), cwd) {
        Some(directory) => Some(Launch::new(path.clone(), directory)),
        None => None,
    }
}

} // verus!
