use launch_inject::config::Config;
use launch_inject::injector;
use launch_inject::launcher;
use launch_inject::launcher::ProcessHandlePair;
use launch_inject::pipeline::{run, Error, Event, Pipeline, Request, Stage};

const TOKEN: usize = 0x10;
const COVER: usize = 0x20;
const COVER_ID: u32 = 1234;
const MODULE: usize = 0x7000;
const ENTRY: usize = 0x7100;

fn pair() -> ProcessHandlePair {
    ProcessHandlePair { process_handle: 0x30, thread_handle: 0x34, process_id: 4100, thread_id: 4104 }
}

fn region(dependency: usize) -> usize {
    0x9000 + 0x1000 * dependency
}

fn remote_thread(dependency: usize) -> usize {
    0x50 + dependency
}

fn config(dependencies: Option<Vec<&str>>) -> Config {
    Config {
        executable_path: "C:\\app\\app.exe".to_string(),
        current_directory: Some("C:\\app".to_string()),
        dependencies: dependencies.map(|paths| paths.into_iter().map(String::from).collect()),
        args: None,
    }
}

/// The reply of an operating system on which every request succeeds.
fn granted(request: Request) -> Event {
    match request {
        Request::Launcher(asked) => Event::Launcher(match asked {
            launcher::Request::LocateCover => {
                launcher::Event::CoverLocated { thread_id: 77, process_id: COVER_ID }
            }
            launcher::Request::OpenToken => launcher::Event::TokenOpened(Ok(TOKEN)),
            launcher::Request::OpenCover { .. } => launcher::Event::CoverOpened(Ok(COVER)),
            launcher::Request::SizeAttributeList => launcher::Event::AttributeListSized(48),
            launcher::Request::InitializeAttributeList { .. } => {
                launcher::Event::AttributeListInitialized(Ok(()))
            }
            launcher::Request::SetParent { .. } => launcher::Event::ParentSet(Ok(())),
            launcher::Request::CreateSuspended { .. } => launcher::Event::ProcessCreated(Ok(pair())),
            launcher::Request::ResumeThread { .. } => launcher::Event::ThreadResumed,
            launcher::Request::CloseHandle { .. } => launcher::Event::HandleClosed,
            launcher::Request::Finish(_) => unreachable!(),
        }),
        Request::Injector { dependency, request } => Event::Injector(match request {
            injector::Request::FindLoaderModule => injector::Event::LoaderModuleFound(Ok(MODULE)),
            injector::Request::FindLoaderEntry { .. } => injector::Event::LoaderEntryFound(Some(ENTRY)),
            injector::Request::Allocate { .. } => {
                injector::Event::Allocated { region: region(dependency), status: 0 }
            }
            injector::Request::Write { .. } => injector::Event::Written(Ok(())),
            injector::Request::StartThread { .. } => {
                injector::Event::ThreadStarted(Ok(remote_thread(dependency)))
            }
            injector::Request::Wait { .. } => injector::Event::Waited,
            injector::Request::Free { .. } => injector::Event::Freed(Ok(())),
            injector::Request::Finish(_) => unreachable!(),
        }),
        Request::Finish(_) => unreachable!(),
    }
}

/// Runs `pipeline` to its end against `reply` and gives every request made,
/// the last one included.
fn play(pipeline: &mut Pipeline, reply: &dyn Fn(Request) -> Event) -> Vec<Request> {
    let mut asked = Vec::new();
    loop {
        let request = pipeline.request();
        asked.push(request);
        if let Request::Finish(_) = request {
            return asked;
        }
        assert!(asked.len() < 1000);
        assert!(pipeline.advance(reply(request)));
    }
}

fn launch_requests() -> Vec<Request> {
    vec![
        Request::Launcher(launcher::Request::LocateCover),
        Request::Launcher(launcher::Request::OpenToken),
        Request::Launcher(launcher::Request::OpenCover { process_id: COVER_ID }),
        Request::Launcher(launcher::Request::SizeAttributeList),
        Request::Launcher(launcher::Request::InitializeAttributeList { size: 48 }),
        Request::Launcher(launcher::Request::SetParent { cover: COVER }),
        Request::Launcher(launcher::Request::CreateSuspended { token: TOKEN }),
    ]
}

fn injection_requests(dependency: usize, size: usize) -> Vec<Request> {
    let process = pair().process_handle;
    [
        injector::Request::FindLoaderModule,
        injector::Request::FindLoaderEntry { module: MODULE },
        injector::Request::Allocate { process, size },
        injector::Request::Write { process, region: region(dependency), size },
        injector::Request::StartThread { process, entry: ENTRY, argument: region(dependency) },
        injector::Request::Wait { thread: remote_thread(dependency) },
        injector::Request::Free { process, region: region(dependency) },
    ]
    .into_iter()
    .map(|request| Request::Injector { dependency, request })
    .collect()
}

fn handover_requests() -> Vec<Request> {
    vec![
        Request::Launcher(launcher::Request::ResumeThread { thread: pair().thread_handle }),
        Request::Launcher(launcher::Request::CloseHandle { handle: pair().process_handle }),
        Request::Launcher(launcher::Request::CloseHandle { handle: pair().thread_handle }),
        Request::Finish(Ok(())),
    ]
}

fn count(asked: &[Request], wanted: &dyn Fn(&Request) -> bool) -> usize {
    asked.iter().filter(|request| wanted(request)).count()
}

fn starts_thread(request: &Request) -> bool {
    matches!(request, Request::Injector { request: injector::Request::StartThread { .. }, .. })
}

fn resumes(request: &Request) -> bool {
    matches!(request, Request::Launcher(launcher::Request::ResumeThread { .. }))
}

fn closes(request: &Request) -> bool {
    matches!(request, Request::Launcher(launcher::Request::CloseHandle { .. }))
}

fn creates(request: &Request) -> bool {
    matches!(request, Request::Launcher(launcher::Request::CreateSuspended { .. }))
}

#[test]
fn two_libraries_are_loaded_in_order_and_the_program_is_resumed() {
    let mut pipeline = run(&config(Some(vec!["C:\\app\\a.dll", "C:\\app\\b.dll"]))).unwrap();
    assert_eq!(pipeline.executable_path(), "C:\\app\\app.exe");
    assert_eq!(pipeline.working_directory(), "C:\\app");
    let asked = play(&mut pipeline, &granted);
    let mut expected = launch_requests();
    expected.extend(injection_requests(0, 26));
    expected.extend(injection_requests(1, 26));
    expected.extend(handover_requests());
    assert_eq!(asked, expected);
    assert_eq!(pipeline.outcome(), Some(Ok(())));
}

#[test]
fn each_library_is_written_as_its_own_wide_string() {
    let mut pipeline = run(&config(Some(vec!["C:\\app\\a.dll", "C:\\b.dll"]))).unwrap();
    let mut written: Vec<Vec<u16>> = Vec::new();
    loop {
        let request = pipeline.request();
        match request {
            Request::Finish(_) => break,
            Request::Injector { request: injector::Request::Write { size, .. }, .. } => {
                let units = pipeline.path().unwrap().clone();
                assert_eq!(size, 2 * units.len());
                written.push(units);
            }
            _ => {}
        }
        assert!(pipeline.advance(granted(request)));
    }
    let first: Vec<u16> = "C:\\app\\a.dll\0".encode_utf16().collect();
    let second: Vec<u16> = "C:\\b.dll\0".encode_utf16().collect();
    assert_eq!(written, vec![first, second]);
}

#[test]
fn a_library_that_is_not_on_disk_is_injected_like_any_other() {
    // What the loader made of the path is not among the replies: the thread
    // is waited for, the memory is released, and the next library follows.
    let mut pipeline = run(&config(Some(vec!["C:\\app\\a.dll", "C:\\app\\b.dll"]))).unwrap();
    let asked = play(&mut pipeline, &granted);
    assert_eq!(count(&asked, &starts_thread), 2);
    let first_release = asked
        .iter()
        .position(|request| {
            *request
                == Request::Injector {
                    dependency: 0,
                    request: injector::Request::Free { process: 0x30, region: region(0) },
                }
        })
        .unwrap();
    assert_eq!(
        asked[first_release + 1],
        Request::Injector { dependency: 1, request: injector::Request::FindLoaderModule }
    );
    assert_eq!(pipeline.outcome(), Some(Ok(())));
}

#[test]
fn without_libraries_the_program_is_launched_and_resumed() {
    for dependencies in [None, Some(Vec::new())] {
        let mut pipeline = run(&config(dependencies)).unwrap();
        let asked = play(&mut pipeline, &granted);
        let mut expected = launch_requests();
        expected.extend(handover_requests());
        assert_eq!(asked, expected);
        assert_eq!(count(&asked, &starts_thread), 0);
    }
}

#[test]
fn as_many_threads_are_started_as_there_are_libraries() {
    for libraries in 0..6usize {
        let names: Vec<String> = (0..libraries).map(|i| format!("C:\\app\\{}.dll", i)).collect();
        let mut pipeline =
            run(&config(Some(names.iter().map(|name| name.as_str()).collect()))).unwrap();
        let asked = play(&mut pipeline, &granted);
        assert_eq!(count(&asked, &starts_thread), libraries);
        assert_eq!(count(&asked, &creates), 1);
        assert_eq!(count(&asked, &resumes), 1);
        assert_eq!(count(&asked, &closes), 2);
        let order: Vec<usize> = asked
            .iter()
            .filter(|request| starts_thread(request))
            .map(|request| match request {
                Request::Injector { dependency, .. } => *dependency,
                _ => unreachable!(),
            })
            .collect();
        assert_eq!(order, (0..libraries).collect::<Vec<usize>>());
    }
}

#[test]
fn a_thread_is_waited_for_before_the_next_is_started() {
    let mut pipeline = run(&config(Some(vec!["a.dll", "b.dll", "c.dll"]))).unwrap();
    let asked = play(&mut pipeline, &granted);
    let mut running = 0;
    for request in &asked {
        match request {
            Request::Injector { request: injector::Request::StartThread { .. }, .. } => {
                assert_eq!(running, 0);
                running += 1;
            }
            Request::Injector { request: injector::Request::Wait { .. }, .. } => {
                assert_eq!(running, 1);
                running -= 1;
            }
            _ => {}
        }
    }
    assert_eq!(running, 0);
}

#[test]
fn no_process_is_created_when_the_shell_window_is_missing() {
    let mut pipeline = run(&config(Some(vec!["C:\\app\\a.dll"]))).unwrap();
    let asked = play(&mut pipeline, &|request| match request {
        Request::Launcher(launcher::Request::LocateCover) => {
            Event::Launcher(launcher::Event::CoverLocated { thread_id: 0, process_id: 0 })
        }
        other => granted(other),
    });
    let failure = Err(Error::LaunchFailed(launcher::Error::CoverProcessNotFound));
    assert_eq!(
        asked,
        vec![Request::Launcher(launcher::Request::LocateCover), Request::Finish(failure)]
    );
    assert_eq!(count(&asked, &creates), 0);
    assert_eq!(pipeline.outcome(), Some(failure));
}

#[test]
fn a_failed_launch_step_ends_the_run_with_its_error() {
    let mut pipeline = run(&config(Some(vec!["C:\\app\\a.dll"]))).unwrap();
    let asked = play(&mut pipeline, &|request| match request {
        Request::Launcher(launcher::Request::CreateSuspended { .. }) => {
            Event::Launcher(launcher::Event::ProcessCreated(Err(740)))
        }
        other => granted(other),
    });
    assert_eq!(
        pipeline.outcome(),
        Some(Err(Error::LaunchFailed(launcher::Error::ProcessCreateFailed(740))))
    );
    assert_eq!(asked.len(), launch_requests().len() + 1);
    assert_eq!(count(&asked, &resumes), 0);
}

#[test]
fn a_failed_injection_stops_the_run_before_the_next_library() {
    let mut pipeline = run(&config(Some(vec!["a.dll", "b.dll", "c.dll"]))).unwrap();
    let asked = play(&mut pipeline, &|request| match request {
        Request::Injector { dependency: 1, request: injector::Request::StartThread { .. } } => {
            Event::Injector(injector::Event::ThreadStarted(Err(5)))
        }
        other => granted(other),
    });
    assert_eq!(
        pipeline.outcome(),
        Some(Err(Error::InjectFailed(injector::Error::RemoteThreadCreateFailed(5))))
    );
    assert!(asked
        .iter()
        .all(|request| !matches!(request, Request::Injector { dependency: 2, .. })));
    assert_eq!(count(&asked, &resumes), 0);
    assert_eq!(count(&asked, &closes), 0);
    // The memory of the failed injection is given back before the run ends.
    assert_eq!(
        asked[asked.len() - 2],
        Request::Injector {
            dependency: 1,
            request: injector::Request::Free { process: 0x30, region: region(1) },
        }
    );
}

#[test]
fn a_failed_first_injection_leaves_the_process_suspended() {
    let mut pipeline = run(&config(Some(vec!["a.dll", "b.dll"]))).unwrap();
    let asked = play(&mut pipeline, &|request| match request {
        Request::Injector { dependency: 0, request: injector::Request::Allocate { .. } } => {
            Event::Injector(injector::Event::Allocated { region: 0, status: 8 })
        }
        other => granted(other),
    });
    assert_eq!(
        pipeline.outcome(),
        Some(Err(Error::InjectFailed(injector::Error::RemoteAllocationFailed(8))))
    );
    assert_eq!(count(&asked, &starts_thread), 0);
    assert_eq!(count(&asked, &resumes), 0);
    assert!(asked
        .iter()
        .all(|request| !matches!(request, Request::Injector { dependency: 1, .. })));
}

#[test]
fn every_region_allocated_is_released_whatever_fails() {
    for failing in 0..4usize {
        let mut pipeline = run(&config(Some(vec!["a.dll", "b.dll", "c.dll"]))).unwrap();
        let asked = play(&mut pipeline, &|request| match request {
            Request::Injector { dependency, request: injector::Request::Write { .. } }
                if dependency == failing =>
            {
                Event::Injector(injector::Event::Written(Err(1)))
            }
            other => granted(other),
        });
        let allocated: Vec<usize> = asked
            .iter()
            .filter_map(|request| match request {
                Request::Injector { dependency, request: injector::Request::Allocate { .. } } => {
                    Some(region(*dependency))
                }
                _ => None,
            })
            .collect();
        let released: Vec<usize> = asked
            .iter()
            .filter_map(|request| match request {
                Request::Injector { request: injector::Request::Free { region, .. }, .. } => {
                    Some(*region)
                }
                _ => None,
            })
            .collect();
        assert_eq!(allocated, released);
        assert_eq!(allocated.len(), (failing + 1).min(3));
    }
}

#[test]
fn a_pipeline_event_out_of_turn_is_turned_down() {
    let mut pipeline = run(&config(Some(vec!["a.dll"]))).unwrap();
    assert!(!pipeline.expects(Event::Injector(injector::Event::Waited)));
    assert!(!pipeline.advance(Event::Injector(injector::Event::Waited)));
    assert!(!pipeline.advance(Event::Launcher(launcher::Event::ThreadResumed)));
    assert_eq!(pipeline.stage(), Stage::Launching(launcher::Stage::LocatingCover));
    assert_eq!(pipeline.path(), None);
    assert!(pipeline.expects(granted(pipeline.request())));
}

#[test]
fn a_finished_run_takes_no_event() {
    let mut pipeline = run(&config(None)).unwrap();
    play(&mut pipeline, &granted);
    assert!(!pipeline.advance(Event::Launcher(launcher::Event::ThreadResumed)));
    assert!(!pipeline.advance(Event::Launcher(launcher::Event::HandleClosed)));
    assert_eq!(pipeline.stage(), Stage::Finished(Ok(())));
}

#[test]
fn a_run_without_a_directory_starts_beside_the_executable() {
    let config = Config {
        executable_path: "/opt/app/app.exe".to_string(),
        current_directory: None,
        dependencies: None,
        args: Some(vec!["--unused".to_string()]),
    };
    let pipeline = run(&config).unwrap();
    assert_eq!(pipeline.working_directory(), "/opt/app");
    assert_eq!(pipeline.executable_path(), "/opt/app/app.exe");
}

#[test]
fn a_run_of_an_empty_path_without_a_directory_is_refused() {
    let config = Config {
        executable_path: String::new(),
        current_directory: None,
        dependencies: None,
        args: None,
    };
    assert!(run(&config).is_none());
}

#[test]
fn a_pipeline_can_be_made_of_its_parts() {
    let dependencies = vec!["x.dll".to_string()];
    let pipeline = Pipeline::new("app.exe".to_string(), "dir".to_string(), &dependencies).unwrap();
    assert_eq!(pipeline.request(), Request::Launcher(launcher::Request::LocateCover));
    assert_eq!(pipeline.outcome(), None);
}

#[test]
fn the_configuration_counts_its_libraries() {
    assert_eq!(config(None).dependency_count(), 0);
    assert_eq!(config(Some(vec![])).dependency_count(), 0);
    assert_eq!(config(Some(vec!["a.dll", "b.dll"])).dependency_count(), 2);
}
