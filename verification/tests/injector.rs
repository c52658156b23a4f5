use launch_inject::injector::{
    conclude, expects, inject, request, step, Error, Event, Injection, Request, Stage,
};
use launch_inject::wide::WidePath;

const PROCESS: usize = 0x30;
const PATH: &str = "C:\\app\\a.dll";
const SIZE: usize = 26;

fn begun() -> Injection {
    inject(PROCESS, PATH).unwrap()
}

/// Takes an injection up to the request that writes the path.
fn with_memory() -> Injection {
    let mut injection = begun();
    assert!(injection.advance(Event::LoaderModuleFound(Ok(0x7000))));
    assert!(injection.advance(Event::LoaderEntryFound(Some(0x7100))));
    assert!(injection.advance(Event::Allocated { region: 0x9000, status: 0 }));
    injection
}

#[test]
fn an_injection_asks_for_each_step_in_order() {
    let mut injection = begun();
    assert_eq!(injection.request(), Request::FindLoaderModule);
    assert!(injection.advance(Event::LoaderModuleFound(Ok(0x7000))));
    assert_eq!(injection.request(), Request::FindLoaderEntry { module: 0x7000 });
    assert!(injection.advance(Event::LoaderEntryFound(Some(0x7100))));
    assert_eq!(injection.request(), Request::Allocate { process: PROCESS, size: SIZE });
    assert!(injection.advance(Event::Allocated { region: 0x9000, status: 0 }));
    assert_eq!(injection.request(), Request::Write { process: PROCESS, region: 0x9000, size: SIZE });
    assert!(injection.advance(Event::Written(Ok(()))));
    assert_eq!(
        injection.request(),
        Request::StartThread { process: PROCESS, entry: 0x7100, argument: 0x9000 }
    );
    assert!(injection.advance(Event::ThreadStarted(Ok(0x50))));
    assert_eq!(injection.request(), Request::Wait { thread: 0x50 });
    assert!(injection.advance(Event::Waited));
    assert_eq!(injection.request(), Request::Free { process: PROCESS, region: 0x9000 });
    assert_eq!(injection.outcome(), None);
    assert!(injection.advance(Event::Freed(Ok(()))));
    assert_eq!(injection.request(), Request::Finish(Ok(())));
    assert_eq!(injection.outcome(), Some(Ok(())));
}

#[test]
fn the_path_is_held_as_a_wide_string() {
    let injection = begun();
    let mut expected: Vec<u16> = PATH.encode_utf16().collect();
    expected.push(0);
    assert_eq!(injection.path(), &expected);
    assert_eq!(2 * injection.path().len(), SIZE);
}

#[test]
fn the_memory_asked_for_holds_every_byte_of_the_path() {
    let mut injection = inject(7, "\u{1f600}.dll").unwrap();
    injection.advance(Event::LoaderModuleFound(Ok(1)));
    injection.advance(Event::LoaderEntryFound(Some(2)));
    assert_eq!(injection.request(), Request::Allocate { process: 7, size: 14 });
    injection.advance(Event::Allocated { region: 64, status: 0 });
    assert_eq!(injection.request(), Request::Write { process: 7, region: 64, size: 14 });
}

#[test]
fn an_injection_can_be_made_of_an_encoded_path() {
    let injection = Injection::new(9, WidePath::encode("x").unwrap());
    assert_eq!(injection.path(), &vec![0x78u16, 0]);
    assert_eq!(injection.stage(), Stage::FindingLoaderModule);
}

#[test]
fn a_missing_loader_module_ends_the_injection() {
    let mut injection = begun();
    assert!(injection.advance(Event::LoaderModuleFound(Err(126))));
    assert_eq!(injection.request(), Request::Finish(Err(Error::LoaderModuleNotFound(126))));
}

#[test]
fn a_missing_loader_entry_ends_the_injection() {
    let mut injection = begun();
    injection.advance(Event::LoaderModuleFound(Ok(0x7000)));
    assert!(injection.advance(Event::LoaderEntryFound(None)));
    assert_eq!(injection.outcome(), Some(Err(Error::LoaderEntryPointNotFound)));
}

#[test]
fn a_null_region_is_a_failed_allocation() {
    let mut injection = begun();
    injection.advance(Event::LoaderModuleFound(Ok(0x7000)));
    injection.advance(Event::LoaderEntryFound(Some(0x7100)));
    assert!(injection.advance(Event::Allocated { region: 0, status: 8 }));
    assert_eq!(injection.request(), Request::Finish(Err(Error::RemoteAllocationFailed(8))));
}

#[test]
fn a_failed_write_frees_the_memory_before_it_is_reported() {
    let mut injection = with_memory();
    assert!(injection.advance(Event::Written(Err(299))));
    assert_eq!(injection.request(), Request::Free { process: PROCESS, region: 0x9000 });
    assert_eq!(injection.outcome(), None);
    assert!(injection.advance(Event::Freed(Ok(()))));
    assert_eq!(injection.request(), Request::Finish(Err(Error::RemoteWriteFailed(299))));
}

#[test]
fn a_thread_that_cannot_be_started_frees_the_memory_before_it_is_reported() {
    let mut injection = with_memory();
    injection.advance(Event::Written(Ok(())));
    assert!(injection.advance(Event::ThreadStarted(Err(5))));
    assert_eq!(injection.request(), Request::Free { process: PROCESS, region: 0x9000 });
    assert!(injection.advance(Event::Freed(Ok(()))));
    assert_eq!(injection.outcome(), Some(Err(Error::RemoteThreadCreateFailed(5))));
}

#[test]
fn a_failed_release_is_reported_after_a_finished_load() {
    let mut injection = with_memory();
    injection.advance(Event::Written(Ok(())));
    injection.advance(Event::ThreadStarted(Ok(0x50)));
    injection.advance(Event::Waited);
    assert!(injection.advance(Event::Freed(Err(487))));
    assert_eq!(injection.outcome(), Some(Err(Error::RemoteFreeFailed(487))));
}

#[test]
fn the_first_failure_is_the_one_reported() {
    let mut injection = with_memory();
    injection.advance(Event::Written(Err(299)));
    assert!(injection.advance(Event::Freed(Err(487))));
    assert_eq!(injection.outcome(), Some(Err(Error::RemoteWriteFailed(299))));
}

#[test]
fn concluding_weighs_the_earlier_failure_first() {
    assert_eq!(conclude(None, Ok(())), Ok(()));
    assert_eq!(conclude(None, Err(3)), Err(Error::RemoteFreeFailed(3)));
    assert_eq!(
        conclude(Some(Error::RemoteThreadCreateFailed(4)), Ok(())),
        Err(Error::RemoteThreadCreateFailed(4))
    );
    assert_eq!(
        conclude(Some(Error::RemoteWriteFailed(5)), Err(3)),
        Err(Error::RemoteWriteFailed(5))
    );
}

#[test]
fn an_injection_event_out_of_turn_is_turned_down() {
    let mut injection = with_memory();
    assert!(!injection.advance(Event::Waited));
    assert!(!injection.advance(Event::Freed(Ok(()))));
    assert!(!injection.advance(Event::Allocated { region: 0x8000, status: 0 }));
    assert_eq!(injection.request(), Request::Write { process: PROCESS, region: 0x9000, size: SIZE });
}

#[test]
fn a_finished_injection_takes_no_event() {
    let mut injection = begun();
    injection.advance(Event::LoaderModuleFound(Err(126)));
    assert!(!injection.advance(Event::LoaderModuleFound(Ok(1))));
    assert_eq!(injection.outcome(), Some(Err(Error::LoaderModuleNotFound(126))));
}

#[test]
fn the_same_process_takes_one_injection_after_another() {
    for library in ["C:\\app\\a.dll", "C:\\app\\b.dll", "C:\\app\\c.dll"] {
        let mut injection = inject(PROCESS, library).unwrap();
        injection.advance(Event::LoaderModuleFound(Ok(0x7000)));
        injection.advance(Event::LoaderEntryFound(Some(0x7100)));
        injection.advance(Event::Allocated { region: 0x9000, status: 0 });
        injection.advance(Event::Written(Ok(())));
        injection.advance(Event::ThreadStarted(Ok(0x50)));
        injection.advance(Event::Waited);
        assert_eq!(injection.request(), Request::Free { process: PROCESS, region: 0x9000 });
        injection.advance(Event::Freed(Ok(())));
        assert_eq!(injection.outcome(), Some(Ok(())));
    }
}

/// Plays `events` to a new injection and counts the regions that it was given
/// and the releases that it asked for.
fn allocations_and_releases(events: &[Event]) -> (usize, usize, bool) {
    let mut injection = begun();
    let mut allocations = 0;
    let mut releases = 0;
    for event in events {
        let allocating = matches!(injection.request(), Request::Allocate { .. });
        if !injection.advance(*event) {
            continue;
        }
        if allocating && matches!(event, Event::Allocated { region, .. } if *region != 0) {
            allocations += 1;
        }
        if matches!(injection.request(), Request::Free { .. }) {
            releases += 1;
        }
    }
    (allocations, releases, injection.outcome().is_some())
}

#[test]
fn every_ended_injection_has_released_what_it_allocated() {
    let found = [Event::LoaderModuleFound(Ok(1)), Event::LoaderEntryFound(Some(2))];
    let endings: Vec<Vec<Event>> = vec![
        vec![Event::Allocated { region: 0, status: 8 }],
        vec![Event::Allocated { region: 64, status: 0 }, Event::Written(Err(1)), Event::Freed(Ok(()))],
        vec![
            Event::Allocated { region: 64, status: 0 },
            Event::Written(Ok(())),
            Event::ThreadStarted(Err(1)),
            Event::Freed(Err(2)),
        ],
        vec![
            Event::Allocated { region: 64, status: 0 },
            Event::Written(Ok(())),
            Event::ThreadStarted(Ok(3)),
            Event::Waited,
            Event::Freed(Ok(())),
        ],
    ];
    for ending in endings {
        let mut events = found.to_vec();
        events.extend(ending);
        let (allocations, releases, ended) = allocations_and_releases(&events);
        assert!(ended);
        assert_eq!(allocations, releases);
    }
}

#[test]
fn injection_stages_answer_for_themselves() {
    let stage = Stage::Waiting { region: 64, thread: 3 };
    assert_eq!(request(1, 10, stage), Request::Wait { thread: 3 });
    assert!(expects(stage, Event::Waited));
    assert!(!expects(stage, Event::Freed(Ok(()))));
    assert_eq!(step(stage, Event::Waited), Stage::Freeing { region: 64, failure: None });
    assert_eq!(step(stage, Event::Written(Ok(()))), stage);
}
