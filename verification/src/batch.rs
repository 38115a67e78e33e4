//! The batch operations, as the steps of one run: deleting the contents of
//! a directory, extracting a discovered list, and extracting the whole
//! cache in three stages.
//!
//! The caller lists directories and reads and writes files; the functions
//! here decide what is to be done, count, and say what to show. A run
//! starts with `try_begin_task`, or with `delete_all_directory_contents`
//! where it deletes; either lets one run at a time through. It takes up
//! its items one by one with `batch_next` and `batch_result`, and ends with
//! `finish_delete` or `finish_extract`.

use vstd::prelude::*;
use std::path::PathBuf;
use vstd::slice::slice_subrange;
use crate::asset::AssetInfo;
use crate::asset::create_no_files;
use crate::asset::placeholder_of;
use crate::extractor::first_match;
use crate::extractor::first_matching;
use crate::messages::counted_message;
use crate::messages::MessageId;
use crate::messages::MessageView;
use crate::messages::plain_message;
use crate::messages::Stage;
use crate::messages::staged_message;
use crate::messages::STAGES;
use crate::messages::StatusMessage;
use crate::progress::fraction_of;
use crate::progress::Progress;
use crate::progress::staged_fraction;
use crate::registry::all_signatures;
use crate::registry::Category;
use crate::registry::registered_signatures;
use crate::scanner::scan_prefix;
use crate::scanner::SCAN_PREFIX_LEN;
use crate::paths::check_delete_target;
use crate::paths::delete_target_checked;
use crate::paths::SafetyViolation;
use crate::state::end_task;
use crate::state::task_requested;
use crate::state::try_begin_task;
use crate::state::entry_published;
use crate::state::SharedScanState;
use crate::state::StateView;
use crate::state::task_released;
use crate::state::texts_of;
use crate::state::update_file_list;
use crate::state::update_progress;

verus! {

/// What a run does with its items.
#[derive(Clone, Copy, Debug, PartialEq, Eq, Structural)]
pub enum BatchKind {
    /// The entries of a directory are deleted.
    Delete,
    /// The entries of the discovered list are extracted.
    Extract,
    /// One stage of the run that extracts the whole cache.
    Staged(Stage),
}

/// The counters of one run, or of one stage of a run.
#[derive(Debug)]
pub struct BatchRun {
    kind: BatchKind,
    processed: usize,
    total: usize,
}

/// The counters of a run as contracts see them.
pub struct BatchRunView {
    pub kind: BatchKind,
    pub processed: nat,
    pub total: nat,
}

impl View for BatchRun {
    type V = BatchRunView;

    closed spec fn view(&self) -> BatchRunView {
        BatchRunView {
            kind: self.kind,
            processed: self.processed as nat,
            total: self.total as nat,
        }
    }
}

/// The progress of a run of kind `kind` after `done` of `total` items. A
/// stage fills its own third of the whole.
pub open spec fn batch_fraction(kind: BatchKind, done: nat, total: nat) -> (nat, nat) {
    match kind {
        BatchKind::Staged(stage) => staged_fraction(stage.spec_index(), 3, done, total),
        _ => fraction_of(done, total),
    }
}

/// The message after an item was handled, well (`ok`) or not.
///
/// A run that deletes numbers its items from 0, every other from 1. A
/// stage wraps its message in the stage message.
pub open spec fn batch_message(run: BatchRunView, ok: bool) -> MessageView {
    let item = run.processed as usize;
    let total = run.total as usize;
    match run.kind {
        BatchKind::Delete => counted_message(
            if ok {
                MessageId::DeletingFiles
            } else {
                MessageId::FailedDeletingFile
            },
            if item > 0 {
                (item - 1) as usize
            } else {
                0
            },
            total,
        ),
        BatchKind::Extract => counted_message(
            if ok {
                MessageId::ExtractingFiles
            } else {
                MessageId::FailedExtractingFile
            },
            item,
            total,
        ),
        BatchKind::Staged(Stage::Sniff) => staged_message(
            Stage::Sniff,
            if ok {
                MessageId::FilteringFiles
            } else {
                MessageId::FailedOpeningFile
            },
            item,
            total,
        ),
        BatchKind::Staged(stage) => staged_message(
            stage,
            if ok {
                MessageId::ExtractingFiles
            } else {
                MessageId::FailedExtractingFile
            },
            item,
            total,
        ),
    }
}

impl BatchRun {
    #[verifier::type_invariant]
    spec fn well_formed(self) -> bool {
        self.processed <= self.total
    }

    /// What the run does with its items.
    pub fn kind(&self) -> (r: BatchKind)
        ensures
            r == self@.kind,
    {
        self.kind
    }

    /// The number of items that were taken up so far.
    pub fn processed(&self) -> (r: usize)
        ensures
            r == self@.processed,
            r <= self@.total,
    {
        proof {
            use_type_invariant(self);
        }
        self.processed
    }

    /// The number of items of the run.
    pub fn total(&self) -> (r: usize)
        ensures
            r == self@.total,
    {
        self.total
    }
}

/// The state after a request to empty the directory `dir`: the state after
/// a request for the task gate where the directory may be emptied, and the
/// unchanged state where it may not.
pub open spec fn delete_requested(s: StateView, dir: PathBuf) -> StateView {
    match delete_target_checked(dir) {
        Ok(_) => task_requested(s),
        Err(_) => s,
    }
}

/// Asks to delete everything in the directory `dir`.
///
/// The empty path and the root of the file system are refused with the
/// violation, before anything else is looked at or changed. For any other
/// directory the task gate is asked for: the result is `Ok(true)` where the
/// caller got it and is to go on, and `Ok(false)` where another task runs
/// and nothing is to be done.
pub fn delete_all_directory_contents(state: &mut SharedScanState, dir: &PathBuf) -> (r: Result<
    bool,
    SafetyViolation,
>)
    ensures
        r is Err <==> delete_target_checked(*dir) is Err,
        r matches Err(violation) ==> delete_target_checked(*dir)->Err_0 == violation,
        r matches Ok(go) ==> go == !old(state)@.task_running,
        final(state)@ == delete_requested(old(state)@, *dir),
{
    match check_delete_target(dir) {
        Err(violation) => Err(violation),
        Ok(_) => Ok(try_begin_task(state)),
    }
}

/// The counters for a run, or a stage, of `total` items.
pub fn begin_batch(kind: BatchKind, total: usize) -> (run: BatchRun)
    ensures
        run@ == (BatchRunView { kind, processed: 0, total: total as nat }),
{
    BatchRun { kind, processed: 0, total }
}

/// Takes up the next item of a run, unless none is left.
///
/// With the result `true` the item is counted and the progress is set to
/// the share of the items taken up so far, within the stage's third for a
/// stage. With `false` nothing changes.
pub fn batch_next(state: &mut SharedScanState, run: &mut BatchRun) -> (go: bool)
    ensures
        go == (old(run)@.processed < old(run)@.total),
        go ==> final(run)@ == (BatchRunView {
            processed: old(run)@.processed + 1,
            ..old(run)@
        }),
        go ==> final(state)@ == (StateView {
            progress: batch_fraction(
                old(run)@.kind,
                old(run)@.processed + 1,
                old(run)@.total,
            ),
            repaint: true,
            ..old(state)@
        }),
        !go ==> final(state)@ == old(state)@ && final(run)@ == old(run)@,
{
    proof {
        use_type_invariant(&*run);
    }
    if run.processed >= run.total {
        return false;
    }
    run.processed = run.processed + 1;
    let progress = match run.kind {
        BatchKind::Staged(stage) => Progress::staged(
            stage.index(),
            STAGES,
            run.processed,
            run.total,
        ),
        _ => Progress::of(run.processed, run.total),
    };
    update_progress(state, progress);
    true
}

/// The message for the status line after the item that `batch_next` took
/// up was handled, well (`ok`) or not.
pub fn batch_result(run: &BatchRun, ok: bool) -> (r: StatusMessage)
    ensures
        r@ == batch_message(run@, ok),
{
    let item: usize = run.processed;
    let total: usize = run.total;
    match run.kind {
        BatchKind::Delete => {
            let id = if ok {
                MessageId::DeletingFiles
            } else {
                MessageId::FailedDeletingFile
            };
            let shown: usize = if item > 0 {
                item - 1
            } else {
                0
            };
            StatusMessage::counted(id, shown, total)
        },
        BatchKind::Extract => {
            let id = if ok {
                MessageId::ExtractingFiles
            } else {
                MessageId::FailedExtractingFile
            };
            StatusMessage::counted(id, item, total)
        },
        BatchKind::Staged(Stage::Sniff) => {
            let id = if ok {
                MessageId::FilteringFiles
            } else {
                MessageId::FailedOpeningFile
            };
            StatusMessage::staged(Stage::Sniff, id, item, total)
        },
        BatchKind::Staged(stage) => {
            let id = if ok {
                MessageId::ExtractingFiles
            } else {
                MessageId::FailedExtractingFile
            };
            StatusMessage::staged(stage, id, item, total)
        },
    }
}

/// Ends a run that deleted the contents of the scanned directory: the
/// discovered list becomes the placeholder alone, shown under the name
/// `no_files`, the task gate is given back and the message is the idle one.
pub fn finish_delete(state: &mut SharedScanState, no_files: String) -> (r: StatusMessage)
    ensures
        final(state)@ == task_released(entry_published(old(state)@, placeholder_of(no_files@))),
        final(state)@.files == seq![placeholder_of(no_files@)],
        r@ == plain_message(MessageId::Idling),
{
    update_file_list(state, create_no_files(no_files));
    end_task(state);
    StatusMessage::plain(MessageId::Idling)
}

/// Ends a run that extracted: the task gate is given back and the message
/// says that all was extracted.
pub fn finish_extract(state: &mut SharedScanState) -> (r: StatusMessage)
    ensures
        final(state)@ == task_released(old(state)@),
        r@ == plain_message(MessageId::AllExtracted),
{
    end_task(state);
    StatusMessage::plain(MessageId::AllExtracted)
}

/// Ends a run whose directory could not be listed: the task gate is given
/// back, list and progress stay as they are, and the message says to look
/// at the logs.
pub fn abort_task(state: &mut SharedScanState) -> (r: StatusMessage)
    ensures
        final(state)@ == task_released(old(state)@),
        r@ == plain_message(MessageId::ErrorCheckLogs),
{
    end_task(state);
    StatusMessage::plain(MessageId::ErrorCheckLogs)
}

/// The category of a file fetched over HTTP, told by the first signature
/// of the whole registry that the file's first 2048 bytes hold.
pub open spec fn sniffed_category(buffer: Seq<u8>) -> Option<Category> {
    match first_matching(scan_prefix(buffer), registered_signatures()) {
        Some(signature) => Some(signature.spec_category()),
        None => None,
    }
}

/// Tells the category of a file fetched over HTTP by its first 2048 bytes.
///
/// Every signature of the registry is tried, category by category in the
/// registry's order; the first that the bytes hold decides.
pub fn sniff_category(buffer: &[u8]) -> (r: Option<Category>)
    ensures
        r == sniffed_category(buffer@),
{
    let prefix = if buffer.len() > SCAN_PREFIX_LEN {
        slice_subrange(buffer, 0, SCAN_PREFIX_LEN)
    } else {
        buffer
    };
    let candidates = all_signatures();
    match first_match(prefix, &candidates) {
        Some(signature) => Some(signature.category()),
        None => None,
    }
}

/// A file fetched over HTTP whose category was told.
#[derive(Debug)]
pub struct SniffedFile {
    /// The name of the file in its directory.
    pub name: String,
    /// The category of the file.
    pub category: Category,
}

/// A sniffed file as contracts see it.
pub struct SniffedView {
    pub name: Seq<char>,
    pub category: Category,
}

impl View for SniffedFile {
    type V = SniffedView;

    open spec fn view(&self) -> SniffedView {
        SniffedView { name: self.name@, category: self.category }
    }
}

/// The views of a list of sniffed files, in the list's order.
pub open spec fn sniffed_views(list: Seq<SniffedFile>) -> Seq<SniffedView> {
    list.map_values(|f: SniffedFile| f@)
}

/// The list of sniffed files after a file was looked at: the file is added
/// where its bytes tell a category, and left out where they tell none.
pub open spec fn sniffed_after(found: Seq<SniffedView>, name: Seq<char>, buffer: Seq<u8>) -> Seq<
    SniffedView,
> {
    match sniffed_category(buffer) {
        Some(category) => found.push(SniffedView { name, category }),
        None => found,
    }
}

/// Looks at one file fetched over HTTP and records it with its category if
/// its first 2048 bytes tell one. A file is recorded once at most.
pub fn sniff_entry(found: &mut Vec<SniffedFile>, name: String, buffer: &[u8]) -> (recorded: bool)
    ensures
        recorded == sniffed_category(buffer@) is Some,
        sniffed_views(final(found)@) == sniffed_after(sniffed_views(old(found)@), name@, buffer@),
{
    let ghost before = sniffed_views(found@);
    match sniff_category(buffer) {
        Some(category) => {
            found.push(SniffedFile { name, category });
            assert(sniffed_views(found@) =~= before.push(SniffedView { name: name@, category }));
            true
        },
        None => false,
    }
}

/// One file to extract.
#[derive(Debug)]
pub struct ExtractJob {
    /// The name of the source file in its cache directory.
    pub source: String,
    /// The directory below the destination that the file goes to; empty
    /// for the destination itself.
    pub folder: String,
    /// The name of the file to write.
    pub target: String,
    /// The category by which the payload is cut out.
    pub mode: String,
}

/// A job as contracts see it.
pub struct JobView {
    pub source: Seq<char>,
    pub folder: Seq<char>,
    pub target: Seq<char>,
    pub mode: Seq<char>,
}

impl View for ExtractJob {
    type V = JobView;

    open spec fn view(&self) -> JobView {
        JobView { source: self.source@, folder: self.folder@, target: self.target@, mode: self.mode@ }
    }
}

/// The name under which item `i`, called `name` in the cache, is written:
/// its alias where aliases are used and the list of aliases reaches that
/// far, else its own name.
pub open spec fn target_name(name: Seq<char>, aliases: Seq<Seq<char>>, use_alias: bool, i: int)
    -> Seq<char> {
    if use_alias && 0 <= i < aliases.len() {
        aliases[i]
    } else {
        name
    }
}

/// The job for item `i`.
pub open spec fn job_of(
    name: Seq<char>,
    aliases: Seq<Seq<char>>,
    use_alias: bool,
    i: int,
    folder: Seq<char>,
    mode: Seq<char>,
) -> JobView {
    JobView { source: name, folder, target: target_name(name, aliases, use_alias, i), mode }
}

fn make_job(
    name: &str,
    aliases: &Vec<String>,
    use_alias: bool,
    i: usize,
    folder: &str,
    mode: &str,
) -> (r: ExtractJob)
    ensures
        r@ == job_of(name@, texts_of(aliases@), use_alias, i as int, folder@, mode@),
{
    let target = if use_alias && i < aliases.len() {
        assert(texts_of(aliases@)[i as int] == aliases@[i as int]@);
        aliases[i].clone()
    } else {
        name.to_owned()
    };
    ExtractJob { source: name.to_owned(), folder: folder.to_owned(), target, mode: mode.to_owned() }
}

/// The jobs that extract a discovered list: one for each entry, in the
/// list's order, into the destination itself, under the category `mode`.
///
/// `aliases` holds the alias of each entry at the entry's index.
pub fn plan_directory_extraction(
    list: &Vec<AssetInfo>,
    aliases: &Vec<String>,
    use_alias: bool,
    mode: &str,
) -> (r: Vec<ExtractJob>)
    ensures
        r@.len() == list@.len(),
        forall|i: int|
            0 <= i < r@.len() ==> (#[trigger] r@[i])@ == job_of(
                list@[i]@.name,
                texts_of(aliases@),
                use_alias,
                i,
                Seq::empty(),
                mode@,
            ),
{
    let mut r: Vec<ExtractJob> = Vec::new();
    let n: usize = list.len();
    let mut i: usize = 0;
    while i < n
        invariant
            n == list@.len(),
            i <= n,
            r@.len() == i,
            forall|j: int|
                0 <= j < i ==> (#[trigger] r@[j])@ == job_of(
                    list@[j]@.name,
                    texts_of(aliases@),
                    use_alias,
                    j,
                    Seq::empty(),
                    mode@,
                ),
        decreases n - i,
    {
        let folder = String::new();
        r.push(make_job(list[i].name.as_str(), aliases, use_alias, i, folder.as_str(), mode));
        i += 1;
    }
    r
}

/// The jobs of the first stage: one for each file of the music directory,
/// in the given order, into the folder `music`. The files are written as
/// they are: the category `music` has no signatures.
pub fn plan_music_extraction(names: &Vec<String>, aliases: &Vec<String>, use_alias: bool) -> (r:
    Vec<ExtractJob>)
    ensures
        r@.len() == names@.len(),
        forall|i: int|
            0 <= i < r@.len() ==> (#[trigger] r@[i])@ == job_of(
                names@[i]@,
                texts_of(aliases@),
                use_alias,
                i,
                "music"@,
                Category::Music.spec_token(),
            ),
{
    let mut r: Vec<ExtractJob> = Vec::new();
    let n: usize = names.len();
    let mut i: usize = 0;
    while i < n
        invariant
            n == names@.len(),
            i <= n,
            r@.len() == i,
            forall|j: int|
                0 <= j < i ==> (#[trigger] r@[j])@ == job_of(
                    names@[j]@,
                    texts_of(aliases@),
                    use_alias,
                    j,
                    "music"@,
                    Category::Music.spec_token(),
                ),
        decreases n - i,
    {
        let mode = Category::Music.token();
        r.push(make_job(names[i].as_str(), aliases, use_alias, i, "music", mode.as_str()));
        i += 1;
    }
    r
}

/// The jobs of the third stage: one for each sniffed file, in the given
/// order, into the folder named by the token of the file's category, under
/// that category.
pub fn plan_sniffed_extraction(found: &Vec<SniffedFile>, aliases: &Vec<String>, use_alias: bool)
    -> (r: Vec<ExtractJob>)
    ensures
        r@.len() == found@.len(),
        forall|i: int|
            0 <= i < r@.len() ==> (#[trigger] r@[i])@ == job_of(
                found@[i]@.name,
                texts_of(aliases@),
                use_alias,
                i,
                found@[i]@.category.spec_token(),
                found@[i]@.category.spec_token(),
            ),
{
    let mut r: Vec<ExtractJob> = Vec::new();
    let n: usize = found.len();
    let mut i: usize = 0;
    while i < n
        invariant
            n == found@.len(),
            i <= n,
            r@.len() == i,
            forall|j: int|
                0 <= j < i ==> (#[trigger] r@[j])@ == job_of(
                    found@[j]@.name,
                    texts_of(aliases@),
                    use_alias,
                    j,
                    found@[j]@.category.spec_token(),
                    found@[j]@.category.spec_token(),
                ),
        decreases n - i,
    {
        let token = found[i].category.token();
        r.push(
            make_job(found[i].name.as_str(), aliases, use_alias, i, token.as_str(), token.as_str()),
        );
        i += 1;
    }
    r
}

/// The list of sniffed files after the first `n` files fetched over HTTP
/// were looked at, one after the other. File `i` has the name `names[i]`
/// and starts with the bytes `buffers[i]`.
pub open spec fn sniffed_through(names: Seq<Seq<char>>, buffers: Seq<Seq<u8>>, n: int) -> Seq<
    SniffedView,
>
    decreases n,
{
    if n <= 0 {
        Seq::empty()
    } else {
        sniffed_after(sniffed_through(names, buffers, n - 1), names[n - 1], buffers[n - 1])
    }
}

/// The number of those among the first `n` buffers whose bytes tell a
/// category.
pub open spec fn told_count(buffers: Seq<Seq<u8>>, n: int) -> nat
    decreases n,
{
    if n <= 0 {
        0
    } else if sniffed_category(buffers[n - 1]) is Some {
        told_count(buffers, n - 1) + 1
    } else {
        told_count(buffers, n - 1)
    }
}

/// The second stage records one file for each file whose bytes tell a
/// category, and none for any other. With one job for each file of the
/// music directory and one for each recorded file, the run extracts as many
/// files as the music directory holds and the second stage has told.
pub proof fn lemma_sniffed_count(names: Seq<Seq<char>>, buffers: Seq<Seq<u8>>, n: int)
    requires
        0 <= n <= buffers.len(),
        names.len() == buffers.len(),
    ensures
        sniffed_through(names, buffers, n).len() == told_count(buffers, n),
        told_count(buffers, n) <= n,
        forall|k: int|
            0 <= k < sniffed_through(names, buffers, n).len() ==> exists|i: int|
                0 <= i < n && names[i] == (#[trigger] sniffed_through(names, buffers, n)[k]).name
                    && sniffed_category(buffers[i]) == Some(
                    sniffed_through(names, buffers, n)[k].category,
                ),
    decreases n,
{
    if n > 0 {
        lemma_sniffed_count(names, buffers, n - 1);
        let before = sniffed_through(names, buffers, n - 1);
        let now = sniffed_through(names, buffers, n);
        assert forall|k: int| 0 <= k < now.len() implies exists|i: int|
            0 <= i < n && names[i] == (#[trigger] now[k]).name && sniffed_category(buffers[i])
                == Some(now[k].category) by {
            if k < before.len() {
                let i = choose|i: int|
                    0 <= i < n - 1 && names[i] == before[k].name && sniffed_category(buffers[i])
                        == Some(before[k].category);
                assert(now[k] == before[k]);
                assert(0 <= i < n && names[i] == now[k].name && sniffed_category(buffers[i])
                    == Some(now[k].category));
            } else {
                assert(names[n - 1] == now[k].name && sniffed_category(buffers[n - 1]) == Some(
                    now[k].category,
                ));
            }
        }
    }
}

/// The folders below the destination that the extraction of the whole
/// cache writes to: `music`, then one for each registered category, named
/// by its token.
pub open spec fn extraction_folders() -> Seq<Seq<char>> {
    seq!["music"@, "sounds"@, "images"@, "ktx-files"@, "rbxm-files"@]
}

/// The folders below the destination that the extraction of the whole
/// cache writes to: `music`, then one for each registered category.
pub fn extract_all_folders() -> (r: Vec<String>)
    ensures
        r@.len() == extraction_folders().len(),
        forall|i: int| 0 <= i < r@.len() ==> (#[trigger] r@[i])@ == extraction_folders()[i],
        forall|i: int|
            1 <= i < r@.len() ==> (#[trigger] r@[i])@ == crate::registry::registered_categories()[i
                - 1].spec_token(),
{
    let mut r: Vec<String> = Vec::new();
    r.push("music".to_owned());
    r.push(Category::Sounds.token());
    r.push(Category::Images.token());
    r.push(Category::Ktx.token());
    r.push(Category::Rbxm.token());
    r
}

/// The progress of a run never falls and never passes 1. Within a run or
/// a stage each item raises the numerator by one over the same
/// denominator. A stage ends where the next begins, and the last stage
/// ends at 1.
pub proof fn lemma_batch_progress_rises(kind: BatchKind, done: nat, total: nat)
    requires
        done < total,
    ensures
        batch_fraction(kind, done + 1, total).1 == batch_fraction(kind, done, total).1,
        batch_fraction(kind, done + 1, total).0 == batch_fraction(kind, done, total).0 + 1,
        batch_fraction(kind, done + 1, total).0 <= batch_fraction(kind, done + 1, total).1,
        batch_fraction(BatchKind::Staged(Stage::Music), total, total).0 == batch_fraction(
            BatchKind::Staged(Stage::Sniff),
            0,
            total,
        ).0,
        batch_fraction(BatchKind::Staged(Stage::Sniff), total, total).0 == batch_fraction(
            BatchKind::Staged(Stage::Extract),
            0,
            total,
        ).0,
        batch_fraction(BatchKind::Staged(Stage::Extract), total, total).0 == batch_fraction(
            BatchKind::Staged(Stage::Extract),
            total,
            total,
        ).1,
        batch_fraction(BatchKind::Extract, total, total).0 == batch_fraction(
            BatchKind::Extract,
            total,
            total,
        ).1,
{
    assert(0 * total == 0) by (nonlinear_arith);
    assert(1 * total == total) by (nonlinear_arith);
    assert(2 * total + total == 3 * total) by (nonlinear_arith);
    match kind {
        BatchKind::Staged(stage) => {
            crate::progress::lemma_fraction_bounds(stage.spec_index(), 3, done + 1, total);
        },
        _ => {},
    }
}

} // verus!
