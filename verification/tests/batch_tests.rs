use std::path::PathBuf;

use cache_extractor::asset::create_asset_info;
use cache_extractor::batch::abort_task;
use cache_extractor::batch::batch_next;
use cache_extractor::batch::batch_result;
use cache_extractor::batch::begin_batch;
use cache_extractor::batch::delete_all_directory_contents;
use cache_extractor::paths::SafetyViolation;
use cache_extractor::batch::extract_all_folders;
use cache_extractor::batch::finish_delete;
use cache_extractor::batch::finish_extract;
use cache_extractor::batch::plan_directory_extraction;
use cache_extractor::batch::plan_music_extraction;
use cache_extractor::batch::plan_sniffed_extraction;
use cache_extractor::batch::sniff_category;
use cache_extractor::batch::sniff_entry;
use cache_extractor::batch::BatchKind;
use cache_extractor::batch::SniffedFile;
use cache_extractor::extractor::extract_file;
use cache_extractor::messages::MessageArgs;
use cache_extractor::messages::MessageId;
use cache_extractor::messages::Stage;
use cache_extractor::registry::Category;
use cache_extractor::state::get_file_list;
use cache_extractor::state::get_progress;
use cache_extractor::state::get_task_running;
use cache_extractor::state::try_begin_task;
use cache_extractor::state::update_file_list;
use cache_extractor::state::SharedScanState;

fn fresh() -> SharedScanState {
    SharedScanState::new(PathBuf::from("/cache"), "Idling".to_string())
}

fn ratio(state: &SharedScanState) -> (u128, u128) {
    let p = get_progress(state);
    (p.numerator(), p.denominator())
}

#[test]
fn sniffing_tries_every_category() {
    assert_eq!(sniff_category(b"....OggS"), Some(Category::Sounds));
    assert_eq!(sniff_category(b"binary/ ID3"), Some(Category::Sounds));
    assert_eq!(sniff_category(b"\x89PNG"), Some(Category::Images));
    assert_eq!(sniff_category(b"RIFF....WEBP"), Some(Category::Images));
    assert_eq!(sniff_category(b"\xabKTX 11"), Some(Category::Ktx));
    assert_eq!(sniff_category(b"<roblox!"), Some(Category::Rbxm));
    assert_eq!(sniff_category(b"plain text"), None);
    assert_eq!(sniff_category(b"ID3 alone"), None);
    assert_eq!(sniff_category(b""), None);
}

#[test]
fn sniffing_takes_the_first_signature_of_the_registry() {
    assert_eq!(sniff_category(b"<roblox! KTX PNG OggS"), Some(Category::Sounds));
    assert_eq!(sniff_category(b"<roblox! KTX PNG"), Some(Category::Images));
    assert_eq!(sniff_category(b"<roblox! KTX"), Some(Category::Ktx));
}

#[test]
fn sniffing_reads_only_the_prefix() {
    let mut late = vec![0u8; 2048];
    late.extend_from_slice(b"PNG");
    assert_eq!(sniff_category(&late), None);
    let mut inside = vec![0u8; 2045];
    inside.extend_from_slice(b"PNG");
    assert_eq!(sniff_category(&inside), Some(Category::Images));
}

#[test]
fn sniff_entry_records_a_file_once() {
    let mut found: Vec<SniffedFile> = Vec::new();
    assert!(sniff_entry(&mut found, "a".to_string(), b"OggS and PNG and KTX"));
    assert!(!sniff_entry(&mut found, "b".to_string(), b"nothing"));
    assert!(sniff_entry(&mut found, "c".to_string(), b"\xabKTX"));
    assert_eq!(found.len(), 2);
    assert_eq!(found[0].name, "a");
    assert_eq!(found[0].category, Category::Sounds);
    assert_eq!(found[1].name, "c");
    assert_eq!(found[1].category, Category::Ktx);
}

#[test]
fn directory_jobs_follow_the_list() {
    let list = vec![create_asset_info("aa", None), create_asset_info("bb", None)];
    let aliases = vec!["Alpha".to_string()];
    let jobs = plan_directory_extraction(&list, &aliases, false, "images");
    assert_eq!(jobs.len(), 2);
    assert_eq!(jobs[0].source, "aa");
    assert_eq!(jobs[0].target, "aa");
    assert_eq!(jobs[0].folder, "");
    assert_eq!(jobs[0].mode, "images");
    assert_eq!(jobs[1].target, "bb");

    let jobs = plan_directory_extraction(&list, &aliases, true, "images");
    assert_eq!(jobs[0].source, "aa");
    assert_eq!(jobs[0].target, "Alpha");
    assert_eq!(jobs[1].source, "bb");
    assert_eq!(jobs[1].target, "bb");
    assert!(plan_directory_extraction(&vec![], &aliases, true, "images").is_empty());
}

#[test]
fn music_jobs_go_to_the_music_folder() {
    let names = vec!["m1".to_string(), "m2".to_string()];
    let jobs = plan_music_extraction(&names, &vec!["One".to_string(), "Two".to_string()], true);
    assert_eq!(jobs.len(), 2);
    assert_eq!(jobs[1].source, "m2");
    assert_eq!(jobs[1].target, "Two");
    assert_eq!(jobs[1].folder, "music");
    assert_eq!(jobs[1].mode, "music");
}

#[test]
fn sniffed_jobs_go_to_the_folder_of_their_category() {
    let found = vec![
        SniffedFile { name: "p".to_string(), category: Category::Images },
        SniffedFile { name: "k".to_string(), category: Category::Ktx },
    ];
    let jobs = plan_sniffed_extraction(&found, &vec![], false);
    assert_eq!(jobs.len(), 2);
    assert_eq!(jobs[0].source, "p");
    assert_eq!(jobs[0].target, "p");
    assert_eq!(jobs[0].folder, "images");
    assert_eq!(jobs[0].mode, "images");
    assert_eq!(jobs[1].folder, "ktx-files");
    assert_eq!(jobs[1].mode, "ktx-files");
}

#[test]
fn extract_run_counts_and_reports() {
    let mut state = fresh();
    assert!(try_begin_task(&mut state));
    let mut run = begin_batch(BatchKind::Extract, 2);
    assert_eq!(run.kind(), BatchKind::Extract);
    assert_eq!(run.total(), 2);
    assert_eq!(run.processed(), 0);

    assert!(batch_next(&mut state, &mut run));
    assert_eq!(ratio(&state), (1, 2));
    let message = batch_result(&run, true);
    assert_eq!(message.id, MessageId::ExtractingFiles);
    assert!(matches!(message.args, MessageArgs::Count { item: 1, total: 2 }));

    assert!(batch_next(&mut state, &mut run));
    assert_eq!(ratio(&state), (2, 2));
    let message = batch_result(&run, false);
    assert_eq!(message.id, MessageId::FailedExtractingFile);
    assert!(matches!(message.args, MessageArgs::Count { item: 2, total: 2 }));

    assert!(!batch_next(&mut state, &mut run));
    assert_eq!(run.processed(), 2);
    let message = finish_extract(&mut state);
    assert_eq!(message.id, MessageId::AllExtracted);
    assert!(!get_task_running(&state));
}

#[test]
fn delete_run_numbers_its_items_from_zero() {
    let mut state = fresh();
    update_file_list(&mut state, create_asset_info("old", None));
    assert!(try_begin_task(&mut state));
    let mut run = begin_batch(BatchKind::Delete, 3);
    assert!(batch_next(&mut state, &mut run));
    assert_eq!(ratio(&state), (1, 3));
    let message = batch_result(&run, true);
    assert_eq!(message.id, MessageId::DeletingFiles);
    assert!(matches!(message.args, MessageArgs::Count { item: 0, total: 3 }));
    assert!(batch_next(&mut state, &mut run));
    let message = batch_result(&run, false);
    assert_eq!(message.id, MessageId::FailedDeletingFile);
    assert!(matches!(message.args, MessageArgs::Count { item: 1, total: 3 }));
    assert!(batch_next(&mut state, &mut run));
    assert!(!batch_next(&mut state, &mut run));

    let message = finish_delete(&mut state, "No files".to_string());
    assert_eq!(message.id, MessageId::Idling);
    assert!(!get_task_running(&state));
    let list = get_file_list(&state);
    assert_eq!(list.len(), 1);
    assert!(!list[0].real_asset);
    assert_eq!(list[0].name, "No files");
}

#[test]
fn second_batch_request_is_refused_while_one_runs() {
    let mut state = fresh();
    assert!(try_begin_task(&mut state));
    assert!(!try_begin_task(&mut state));
    let message = abort_task(&mut state);
    assert_eq!(message.id, MessageId::ErrorCheckLogs);
    assert!(!get_task_running(&state));
    assert!(try_begin_task(&mut state));
}

#[test]
fn stage_messages_wrap_their_message() {
    let mut state = fresh();
    let mut run = begin_batch(BatchKind::Staged(Stage::Sniff), 4);
    assert!(batch_next(&mut state, &mut run));
    assert_eq!(ratio(&state), (5, 12));
    let message = batch_result(&run, true);
    assert_eq!(message.id, MessageId::Stage);
    assert!(matches!(
        message.args,
        MessageArgs::Staged { item: 1, total: 4, stage: Stage::Sniff, inner: MessageId::FilteringFiles }
    ));
    let message = batch_result(&run, false);
    assert!(matches!(
        message.args,
        MessageArgs::Staged { stage: Stage::Sniff, inner: MessageId::FailedOpeningFile, .. }
    ));

    let mut run = begin_batch(BatchKind::Staged(Stage::Music), 4);
    assert!(batch_next(&mut state, &mut run));
    assert_eq!(ratio(&state), (1, 12));
    let message = batch_result(&run, true);
    assert!(matches!(
        message.args,
        MessageArgs::Staged { item: 1, total: 4, stage: Stage::Music, inner: MessageId::ExtractingFiles }
    ));

    let mut run = begin_batch(BatchKind::Staged(Stage::Extract), 4);
    assert!(batch_next(&mut state, &mut run));
    assert_eq!(ratio(&state), (9, 12));
    let message = batch_result(&run, false);
    assert!(matches!(
        message.args,
        MessageArgs::Staged { stage: Stage::Extract, inner: MessageId::FailedExtractingFile, .. }
    ));
}

#[test]
fn extract_all_extracts_music_and_matching_files() {
    let mut state = fresh();
    assert!(try_begin_task(&mut state));
    assert!(!try_begin_task(&mut state));
    let mut written: Vec<(String, String, Vec<u8>)> = Vec::new();

    let music: Vec<String> = (0..10).map(|i| format!("music-{i}")).collect();
    let jobs = plan_music_extraction(&music, &vec![], false);
    let mut run = begin_batch(BatchKind::Staged(Stage::Music), jobs.len());
    for job in &jobs {
        assert!(batch_next(&mut state, &mut run));
        let file = extract_file(b"raw vorbis", &job.mode, true);
        let name = format!("{}{}", job.target, file.extension.unwrap());
        written.push((job.folder.clone(), name, file.payload));
        batch_result(&run, true);
    }
    assert!(!batch_next(&mut state, &mut run));
    assert_eq!(ratio(&state), (10, 30));

    let http: Vec<(String, Vec<u8>)> = vec![
        ("h0".to_string(), b"head\x89PNG data".to_vec()),
        ("h1".to_string(), b"plain text".to_vec()),
        ("h2".to_string(), b"binary/octet-stream ID3 tag".to_vec()),
        ("h3".to_string(), b"{\"json\": true}".to_vec()),
        ("h4".to_string(), b"xOggS stream".to_vec()),
        ("h5".to_string(), b"\xabKTX 11".to_vec()),
        ("h6".to_string(), b"ID3 alone".to_vec()),
        ("h7".to_string(), b"<roblox!model".to_vec()),
    ];
    let mut found: Vec<SniffedFile> = Vec::new();
    let mut run = begin_batch(BatchKind::Staged(Stage::Sniff), http.len());
    for (name, bytes) in &http {
        assert!(batch_next(&mut state, &mut run));
        sniff_entry(&mut found, name.clone(), bytes);
        batch_result(&run, true);
    }
    assert!(!batch_next(&mut state, &mut run));
    assert_eq!(ratio(&state), (16, 24));
    assert_eq!(found.len(), 5);

    let jobs = plan_sniffed_extraction(&found, &vec![], false);
    let mut run = begin_batch(BatchKind::Staged(Stage::Extract), jobs.len());
    for job in &jobs {
        assert!(batch_next(&mut state, &mut run));
        let bytes = &http.iter().find(|(n, _)| *n == job.source).unwrap().1;
        let file = extract_file(bytes, &job.mode, true);
        let name = format!("{}{}", job.target, file.extension.unwrap());
        written.push((job.folder.clone(), name, file.payload));
        batch_result(&run, true);
    }
    assert!(!batch_next(&mut state, &mut run));
    let message = finish_extract(&mut state);
    assert_eq!(message.id, MessageId::AllExtracted);

    assert_eq!(written.len(), 15);
    assert_eq!(written.iter().filter(|w| w.0 == "music").count(), 10);
    for skipped in ["h1", "h3", "h6"] {
        assert!(!written.iter().any(|w| w.1.starts_with(skipped)));
    }
    assert!(written.contains(&("images".to_string(), "h0.png".to_string(), b"\x89PNG data".to_vec())));
    assert!(written.contains(&("sounds".to_string(), "h2.mp3".to_string(), b"ID3 tag".to_vec())));
    assert!(written.contains(&("sounds".to_string(), "h4.ogg".to_string(), b"OggS stream".to_vec())));
    assert!(written.contains(&("ktx-files".to_string(), "h5.ktx".to_string(), b"\xabKTX 11".to_vec())));
    assert!(written.contains(&(
        "rbxm-files".to_string(),
        "h7.rbxm".to_string(),
        b"<roblox!model".to_vec()
    )));
    assert!(written.contains(&("music".to_string(), "music-0.ogg".to_string(), b"raw vorbis".to_vec())));

    assert!(get_progress(&state).is_complete());
    assert_eq!(ratio(&state), (15, 15));
    assert!(!get_task_running(&state));
}

#[test]
fn extract_all_writes_to_a_folder_per_category() {
    assert_eq!(
        extract_all_folders(),
        vec!["music", "sounds", "images", "ktx-files", "rbxm-files"]
    );
}

#[test]
fn delete_all_refuses_the_empty_path_and_the_root() {
    let mut state = fresh();
    assert_eq!(
        delete_all_directory_contents(&mut state, &PathBuf::new()),
        Err(SafetyViolation::EmptyPath)
    );
    assert_eq!(
        delete_all_directory_contents(&mut state, &PathBuf::from("/")),
        Err(SafetyViolation::FilesystemRoot)
    );
    assert!(!get_task_running(&state));
    assert!(try_begin_task(&mut state));
    assert_eq!(
        delete_all_directory_contents(&mut state, &PathBuf::from("/")),
        Err(SafetyViolation::FilesystemRoot)
    );
}

#[test]
fn delete_all_lets_one_task_through() {
    let mut state = fresh();
    assert_eq!(delete_all_directory_contents(&mut state, &PathBuf::from("/tmp/cache")), Ok(true));
    assert!(get_task_running(&state));
    assert_eq!(delete_all_directory_contents(&mut state, &PathBuf::from("/tmp/cache")), Ok(false));
    assert!(!try_begin_task(&mut state));
    finish_delete(&mut state, "No files".to_string());
    assert_eq!(delete_all_directory_contents(&mut state, &PathBuf::from("/tmp/other")), Ok(true));
}
