use sha2::Digest;
use zapret_core::batch::download_binaries;
use zapret_core::batch::FetchOutcome;
use zapret_core::batch::Progress;
use zapret_core::batch::ProgressEvent;
use zapret_core::batch::Step;
use zapret_core::digest::calculate_sha256;
use zapret_core::error::FailureKind;
use zapret_core::ledger::Ledger;
use zapret_core::manifest::Asset;
use zapret_core::manifest::AssetCategory;
use zapret_core::provision::plan_provisioning;
use zapret_core::provision::FileState;
use zapret_core::provision::Observation;

fn asset(name: &str, category: AssetCategory) -> Asset {
    Asset::direct(name, &format!("https://example.org/{}", name), category)
}

fn show(event: &ProgressEvent) -> String {
    match event {
        ProgressEvent::BatchStart { total } => format!("start {}", total),
        ProgressEvent::ItemProgress { current, total, name, phase } => {
            format!("item {}/{} {} {:?}", current, total, name, phase)
        }
        ProgressEvent::BatchError { message } => format!("error {}", message),
        ProgressEvent::BatchComplete => "complete".to_string(),
    }
}

fn shown(step: &Step) -> Vec<String> {
    step.events.iter().map(show).collect()
}

fn fetch(step: Step, outcome: FetchOutcome) -> Step {
    match step.next {
        Progress::Fetch(run) => run.record(outcome),
        _ => panic!("the run does not wait for a fetch"),
    }
}

fn save(step: Step, written: Result<(), String>) -> Step {
    match step.next {
        Progress::Save(run) => run.record(written),
        _ => panic!("the run does not wait for the ledger"),
    }
}

fn current_name(step: &Step) -> String {
    match &step.next {
        Progress::Fetch(run) => run.current().name.clone(),
        _ => panic!("the run does not wait for a fetch"),
    }
}

#[test]
fn empty_batch_is_complete_at_once() {
    let mut ledger = Ledger::new();
    ledger.insert("winws.exe".to_string(), "11".to_string());
    let step = download_binaries(vec![], ledger.clone());
    assert_eq!(shown(&step), vec!["complete"]);
    match step.next {
        Progress::Done(Ok(done)) => {
            assert_eq!(done.fetched, 0);
            assert!(done.ledger.same_as(&ledger));
        }
        _ => panic!("an empty batch has nothing to wait for"),
    }
}

#[test]
fn batch_announces_its_size_and_its_first_file() {
    let batch = vec![
        asset("a.exe", AssetCategory::Binary),
        asset("b.bin", AssetCategory::AuxiliaryData),
    ];
    let step = download_binaries(batch, Ledger::new());
    assert_eq!(shown(&step), vec!["start 2", "item 1/2 a.exe Binary"]);
    assert_eq!(current_name(&step), "a.exe");
}

#[test]
fn stored_file_leads_to_the_next_file() {
    let batch = vec![
        asset("a.exe", AssetCategory::Binary),
        asset("b.bin", AssetCategory::AuxiliaryData),
        asset("c.txt", AssetCategory::RuleList),
    ];
    let step = download_binaries(batch, Ledger::new());
    let step = fetch(step, FetchOutcome::Stored(b"one".to_vec()));
    assert_eq!(shown(&step), vec!["item 2/3 b.bin AuxiliaryData"]);
    assert_eq!(current_name(&step), "b.bin");
    let step = fetch(step, FetchOutcome::Stored(b"two".to_vec()));
    assert_eq!(shown(&step), vec!["item 3/3 c.txt RuleList"]);
    assert_eq!(current_name(&step), "c.txt");
    let step = fetch(step, FetchOutcome::Stored(b"three".to_vec()));
    assert!(shown(&step).is_empty());
    assert!(matches!(step.next, Progress::Save(_)));
}

#[test]
fn only_hash_checked_files_enter_the_ledger() {
    let batch = vec![
        asset("a.exe", AssetCategory::Binary),
        asset("b.bin", AssetCategory::AuxiliaryData),
        asset("c.txt", AssetCategory::RuleList),
        asset("d.txt", AssetCategory::FilterFragment),
    ];
    let mut step = download_binaries(batch, Ledger::new());
    for content in [&b"one"[..], b"two", b"three", b"four"] {
        step = fetch(step, FetchOutcome::Stored(content.to_vec()));
    }
    let ledger = match &step.next {
        Progress::Save(run) => run.ledger().clone(),
        _ => panic!("the run does not wait for the ledger"),
    };
    assert_eq!(ledger.get("a.exe"), Some(&calculate_sha256(b"one")));
    assert!(!ledger.contains("b.bin"));
    assert!(!ledger.contains("c.txt"));
    assert!(!ledger.contains("d.txt"));
}

#[test]
fn working_ledger_keeps_what_it_had_and_replaces_what_was_fetched() {
    let mut ledger = Ledger::new();
    ledger.insert("old.dll".to_string(), "11".to_string());
    ledger.insert("a.exe".to_string(), "22".to_string());
    let step = download_binaries(vec![asset("a.exe", AssetCategory::Binary)], ledger);
    let step = fetch(step, FetchOutcome::Stored(b"new".to_vec()));
    let step = save(step, Ok(()));
    assert_eq!(shown(&step), vec!["complete"]);
    match step.next {
        Progress::Done(Ok(done)) => {
            assert_eq!(done.fetched, 1);
            assert_eq!(done.ledger.get("old.dll"), Some(&"11".to_string()));
            assert_eq!(done.ledger.get("a.exe"), Some(&calculate_sha256(b"new")));
        }
        _ => panic!("the run is over"),
    }
}

#[test]
fn ledger_that_cannot_be_written_fails_the_run_without_an_event() {
    let step = download_binaries(vec![asset("a.exe", AssetCategory::Binary)], Ledger::new());
    let step = fetch(step, FetchOutcome::Stored(b"new".to_vec()));
    let step = save(step, Err("disk full".to_string()));
    assert!(shown(&step).is_empty());
    match step.next {
        Progress::Done(Err(failure)) => {
            assert_eq!(failure.kind, FailureKind::Io);
            assert_eq!(failure.message, "disk full");
        }
        _ => panic!("the run has failed"),
    }
}

fn failed(outcome: FetchOutcome) -> (Vec<String>, FailureKind, String) {
    let batch = vec![
        asset("a.exe", AssetCategory::Binary),
        asset("b.bin", AssetCategory::AuxiliaryData),
    ];
    let step = download_binaries(batch, Ledger::new());
    let step = fetch(step, outcome);
    let events = shown(&step);
    match step.next {
        Progress::Done(Err(failure)) => (events, failure.kind, failure.message),
        _ => panic!("a failed fetch ends the run"),
    }
}

#[test]
fn unreachable_server_is_announced() {
    let (events, kind, message) = failed(FetchOutcome::Unreachable("timed out".to_string()));
    assert_eq!(message, "Failed to fetch a.exe: timed out");
    assert_eq!(kind, FailureKind::Network);
    assert_eq!(events, vec!["error Failed to fetch a.exe: timed out"]);
}

#[test]
fn refusing_server_is_announced() {
    let (events, kind, message) = failed(FetchOutcome::Refused("404 Not Found".to_string()));
    assert_eq!(message, "Failed to download a.exe: HTTP 404 Not Found");
    assert_eq!(kind, FailureKind::Network);
    assert_eq!(events, vec!["error Failed to download a.exe: HTTP 404 Not Found"]);
}

#[test]
fn truncated_body_is_announced() {
    let (events, kind, message) = failed(FetchOutcome::Truncated("reset".to_string()));
    assert_eq!(message, "Failed to read a.exe body: reset");
    assert_eq!(kind, FailureKind::Network);
    assert_eq!(events, vec!["error Failed to read a.exe body: reset"]);
}

#[test]
fn every_network_failure_sends_one_error_event_and_no_other() {
    for outcome in [
        FetchOutcome::Unreachable("timed out".to_string()),
        FetchOutcome::Refused("503 Service Unavailable".to_string()),
        FetchOutcome::Truncated("timed out".to_string()),
    ] {
        let (events, kind, message) = failed(outcome);
        assert_eq!(kind, FailureKind::Network);
        assert_eq!(events, vec![format!("error {}", message)]);
        assert!(message.contains("a.exe"));
        assert!(!message.contains('\n'));
    }
}

#[test]
fn unwritable_file_fails_the_run_without_an_event() {
    let (events, kind, message) = failed(FetchOutcome::NotWritten("denied".to_string()));
    assert_eq!(message, "Failed to write a.exe: denied");
    assert_eq!(kind, FailureKind::Io);
    assert!(events.is_empty());
}

#[test]
fn unreadable_file_fails_the_run_with_the_bare_reason() {
    let (events, kind, message) = failed(FetchOutcome::NotReadBack("denied".to_string()));
    assert_eq!(message, "denied");
    assert_eq!(kind, FailureKind::Io);
    assert!(events.is_empty());
}

#[test]
fn failure_after_stored_files_never_asks_for_the_ledger() {
    let batch = vec![
        asset("a.exe", AssetCategory::Binary),
        asset("b.dll", AssetCategory::Binary),
        asset("c.bin", AssetCategory::AuxiliaryData),
    ];
    for failing in 0..3 {
        let mut step = download_binaries(batch.clone(), Ledger::new());
        for at in 0..3 {
            assert!(!matches!(step.next, Progress::Save(_)));
            if at == failing {
                step = fetch(step, FetchOutcome::Refused("500".to_string()));
                break;
            }
            step = fetch(step, FetchOutcome::Stored(vec![at as u8]));
        }
        match step.next {
            Progress::Done(Err(failure)) => {
                assert_eq!(
                    failure.message,
                    format!("Failed to download {}: HTTP 500", batch[failing].name)
                );
            }
            _ => panic!("a failed fetch ends the run"),
        }
    }
}

#[test]
fn absent_binary_is_fetched_and_recorded() {
    let manifest = vec![Asset::direct("a.bin", "https://example.org/U", AssetCategory::Binary)];
    let observed: Vec<Observation> = manifest
        .iter()
        .map(|a| Observation { asset: a.clone(), state: FileState::Absent })
        .collect();
    let batch = plan_provisioning(&observed, &Ledger::new());
    assert_eq!(batch.len(), 1);
    assert_eq!(batch[0].name, "a.bin");
    assert_eq!(batch[0].source_url, "https://example.org/U");

    let contents = b"bytes served at U".to_vec();
    let step = download_binaries(batch, Ledger::new());
    assert_eq!(shown(&step), vec!["start 1", "item 1/1 a.bin Binary"]);
    let step = fetch(step, FetchOutcome::Stored(contents.clone()));
    let step = save(step, Ok(()));
    assert_eq!(shown(&step), vec!["complete"]);
    match step.next {
        Progress::Done(Ok(done)) => {
            assert_eq!(done.fetched, 1);
            let mut expected = Ledger::new();
            expected.insert("a.bin".to_string(), calculate_sha256(&contents));
            assert!(done.ledger.same_as(&expected));
            let hash = sha2::Sha256::digest(&contents);
            let hex: String = hash.iter().map(|b| format!("{:02x}", b)).collect();
            assert_eq!(done.ledger.get("a.bin"), Some(&hex));
        }
        _ => panic!("the run is over"),
    }
}

#[test]
fn phases_are_named_as_the_user_interface_knows_them() {
    assert_eq!(AssetCategory::Binary.phase_label(), "binaries");
    assert_eq!(AssetCategory::AuxiliaryData.phase_label(), "files");
    assert_eq!(AssetCategory::RuleList.phase_label(), "files");
    assert_eq!(AssetCategory::FilterFragment.phase_label(), "files");
}

#[test]
fn requests_name_a_user_agent_and_end_after_two_minutes() {
    assert_eq!(zapret_core::batch::USER_AGENT, "Mozilla/5.0");
    assert_eq!(zapret_core::batch::FETCH_TIMEOUT_SECS, 120);
}

#[test]
fn later_file_of_the_same_name_replaces_the_digest() {
    let batch = vec![asset("a.exe", AssetCategory::Binary), asset("a.exe", AssetCategory::Binary)];
    let step = download_binaries(batch, Ledger::new());
    let step = fetch(step, FetchOutcome::Stored(b"first".to_vec()));
    let step = fetch(step, FetchOutcome::Stored(b"second".to_vec()));
    match &step.next {
        Progress::Save(run) => {
            assert_eq!(run.ledger().get("a.exe"), Some(&calculate_sha256(b"second")));
        }
        _ => panic!("the run does not wait for the ledger"),
    }
}
