use std::path::PathBuf;

use cache_extractor::asset::AssetInfo;
use cache_extractor::asset::FileMetadata;
use cache_extractor::messages::MessageArgs;
use cache_extractor::messages::MessageId;
use cache_extractor::registry::Category;
use cache_extractor::scanner::abort_scan;
use cache_extractor::scanner::begin_scan;
use cache_extractor::scanner::classify;
use cache_extractor::scanner::finish_scan;
use cache_extractor::scanner::refresh;
use cache_extractor::scanner::ScanAdmission;
use cache_extractor::state::scan_stop_requested;
use cache_extractor::state::update_file_list;
use cache_extractor::asset::create_asset_info;
use cache_extractor::scanner::scan_entry;
use cache_extractor::scanner::scan_next;
use cache_extractor::scanner::ScanEvent;
use cache_extractor::scanner::SCAN_PREFIX_LEN;
use cache_extractor::state::get_file_list;
use cache_extractor::state::get_list_task_running;
use cache_extractor::state::get_progress;
use cache_extractor::state::request_scan;
use cache_extractor::state::update_progress;
use cache_extractor::state::SharedScanState;
use cache_extractor::progress::Progress;

fn fresh() -> SharedScanState {
    SharedScanState::new(PathBuf::from("/cache"), "Idling".to_string())
}

fn found(name: &str, prefix: &[u8]) -> ScanEvent {
    ScanEvent::Found {
        name: name.to_string(),
        metadata: Some(FileMetadata { size: prefix.len() as u64, modified: None }),
        prefix: prefix.to_vec(),
    }
}

fn names(list: &[AssetInfo]) -> Vec<String> {
    list.iter().map(|a| a.name.clone()).collect()
}

#[test]
fn classify_looks_for_the_signatures_of_the_category() {
    assert!(classify(Category::Images, b"\x89PNG\r\n"));
    assert!(classify(Category::Images, b"RIFF0000WEBP"));
    assert!(!classify(Category::Images, b"OggS"));
    assert!(classify(Category::Sounds, b"OggS"));
    assert!(classify(Category::Sounds, b"binary/octet-stream ID3"));
    assert!(!classify(Category::Sounds, b"ID3 alone"));
    assert!(classify(Category::Ktx, b"\xabKTX"));
    assert!(classify(Category::Rbxm, b"<roblox!"));
    assert!(!classify(Category::Rbxm, b""));
}

#[test]
fn classify_lists_every_music_file() {
    assert!(classify(Category::Music, b""));
    assert!(classify(Category::Music, b"anything"));
}

#[test]
fn classify_reads_only_the_prefix() {
    assert_eq!(SCAN_PREFIX_LEN, 2048);
    let mut late = vec![0u8; 2048];
    late.extend_from_slice(b"OggS");
    assert!(!classify(Category::Sounds, &late));

    let mut straddling = vec![0u8; 2046];
    straddling.extend_from_slice(b"OggS");
    assert!(!classify(Category::Sounds, &straddling));

    let mut inside = vec![0u8; 2044];
    inside.extend_from_slice(b"OggS");
    assert!(classify(Category::Sounds, &inside));
}

#[test]
fn empty_directory_yields_the_placeholder_alone() {
    let mut state = fresh();
    assert!(request_scan(&mut state));
    let mut run = begin_scan(&mut state, Category::Images, 0, "No files".to_string());
    let list = get_file_list(&state);
    assert_eq!(list.len(), 1);
    assert!(!list[0].real_asset);
    assert_eq!(list[0].name, "No files");
    assert_eq!(list[0].size, 0);
    assert_eq!(list[0].last_modified, None);
    assert!(!scan_next(&mut state, &mut run));
    let message = finish_scan(&mut state);
    assert_eq!(message.id, MessageId::Idling);
    assert!(!get_list_task_running(&state));
    assert_eq!(get_file_list(&state).len(), 1);
}

#[test]
fn scan_publishes_what_matches() {
    let mut state = fresh();
    assert!(request_scan(&mut state));
    let mut run = begin_scan(&mut state, Category::Images, 4, "No files".to_string());
    assert!(get_file_list(&state).is_empty());
    assert!(run.needs_contents());
    assert_eq!(run.category(), Category::Images);
    assert_eq!(run.total(), 4);

    let events = vec![
        found("a", b"\x89PNG...."),
        found("b", b"OggS...."),
        ScanEvent::Unreadable,
        found("d", b"RIFF0000WEBP"),
    ];
    let mut item = 0;
    for event in events {
        assert!(scan_next(&mut state, &mut run));
        item += 1;
        assert_eq!(run.processed(), item);
        let p = get_progress(&state);
        assert_eq!((p.numerator(), p.denominator()), (item as u128, 4));
        let unreadable = matches!(event, ScanEvent::Unreadable);
        let report = scan_entry(&mut state, &run, event);
        assert_eq!(report.published, item == 1 || item == 4);
        let message = report.message;
        if unreadable {
            assert_eq!(message.id, MessageId::FailedOpeningFile);
        } else {
            assert_eq!(message.id, MessageId::FilteringFiles);
        }
        assert!(matches!(message.args, MessageArgs::Count { item: i, total: 4 } if i == item));
    }
    assert!(!scan_next(&mut state, &mut run));
    assert!(get_progress(&state).is_complete());
    let list = get_file_list(&state);
    assert_eq!(names(&list), vec!["a", "d"]);
    assert_eq!(list[0].size, 8);
    assert!(list[0].real_asset);
    let message = finish_scan(&mut state);
    assert_eq!(message.id, MessageId::Idling);
    assert!(matches!(message.args, MessageArgs::Empty));
    assert!(!get_list_task_running(&state));
}

#[test]
fn scan_publishes_a_file_once() {
    let mut state = fresh();
    assert!(request_scan(&mut state));
    let mut run = begin_scan(&mut state, Category::Sounds, 1, "No files".to_string());
    assert!(scan_next(&mut state, &mut run));
    scan_entry(&mut state, &run, found("both", b"OggS binary/ ID3"));
    assert_eq!(names(&get_file_list(&state)), vec!["both"]);
}

#[test]
fn music_scan_lists_everything() {
    let mut state = fresh();
    assert!(request_scan(&mut state));
    let mut run = begin_scan(&mut state, Category::Music, 2, "No files".to_string());
    assert!(!run.needs_contents());
    assert!(scan_next(&mut state, &mut run));
    scan_entry(&mut state, &run, found("x", b""));
    assert!(scan_next(&mut state, &mut run));
    scan_entry(
        &mut state,
        &run,
        ScanEvent::Found { name: "y".to_string(), metadata: None, prefix: Vec::new() },
    );
    let list = get_file_list(&state);
    assert_eq!(names(&list), vec!["x", "y"]);
    assert_eq!(list[1].size, 0);
    assert!(list[1].real_asset);
}

#[test]
fn a_scan_that_is_asked_to_stop_takes_no_further_entry() {
    let mut state = fresh();
    assert!(request_scan(&mut state));
    let mut first = begin_scan(&mut state, Category::Images, 3, "No files".to_string());
    assert!(scan_next(&mut state, &mut first));
    scan_entry(&mut state, &first, found("first-1", b"PNG PNG"));

    assert!(!request_scan(&mut state));
    assert!(!scan_next(&mut state, &mut first));
    assert_eq!(first.processed(), 1);
    let p = get_progress(&state);
    assert_eq!((p.numerator(), p.denominator()), (1, 3));
    assert_eq!(names(&get_file_list(&state)), vec!["first-1"]);
    finish_scan(&mut state);

    assert!(request_scan(&mut state));
    let mut second = begin_scan(&mut state, Category::Sounds, 2, "No files".to_string());
    assert!(scan_next(&mut state, &mut second));
    scan_entry(&mut state, &second, found("second-1", b"OggS"));
    assert!(scan_next(&mut state, &mut second));
    scan_entry(&mut state, &second, found("second-2", b"xxOggS"));
    assert!(!scan_next(&mut state, &mut second));
    finish_scan(&mut state);
    assert_eq!(names(&get_file_list(&state)), vec!["second-1", "second-2"]);
    assert!(!get_list_task_running(&state));
}

#[test]
fn unreadable_directory_aborts_and_frees_the_gate() {
    let mut state = fresh();
    update_progress(&mut state, Progress::of(1, 3));
    assert!(request_scan(&mut state));
    let message = abort_scan(&mut state);
    assert_eq!(message.id, MessageId::ErrorCheckLogs);
    assert!(matches!(message.args, MessageArgs::Empty));
    assert!(!get_list_task_running(&state));
    let p = get_progress(&state);
    assert_eq!((p.numerator(), p.denominator()), (1, 3));
    assert!(request_scan(&mut state));
}

#[test]
fn refresh_of_an_unknown_category_does_nothing() {
    let mut state = fresh();
    update_file_list(&mut state, create_asset_info("kept", None));
    assert_eq!(refresh(&mut state, "videos"), ScanAdmission::Unknown);
    assert_eq!(refresh(&mut state, ""), ScanAdmission::Unknown);
    assert!(!get_list_task_running(&state));
    assert_eq!(names(&get_file_list(&state)), vec!["kept"]);
}

#[test]
fn refresh_takes_the_scan_gate_or_asks_to_wait() {
    let mut state = fresh();
    update_file_list(&mut state, create_asset_info("stale", None));
    assert_eq!(refresh(&mut state, "images"), ScanAdmission::Run(Category::Images));
    assert!(get_list_task_running(&state));
    assert!(get_file_list(&state).is_empty());

    assert_eq!(refresh(&mut state, "sounds"), ScanAdmission::Wait);
    assert!(scan_stop_requested(&state));
    assert_eq!(refresh(&mut state, "videos"), ScanAdmission::Unknown);

    finish_scan(&mut state);
    assert_eq!(refresh(&mut state, "music"), ScanAdmission::Run(Category::Music));
    assert!(!scan_stop_requested(&state));
}
