//! The directory scanner, as the steps of one scan.
//!
//! The caller lists the directory and reads the files; the functions here
//! decide. A scan runs like this: `refresh` until the scan gate is held;
//! list the directory; `abort_scan` where that fails, else `begin_scan`
//! with the number of entries; then for each entry `scan_next`, which says
//! whether to go on, the reading of the entry, and `scan_entry` with what
//! was read; at the end `finish_scan`.

use vstd::prelude::*;
use vstd::slice::slice_subrange;
use crate::asset::asset_of;
use crate::asset::AssetView;
use crate::asset::create_asset_info;
use crate::asset::create_no_files;
use crate::asset::FileMetadata;
use crate::asset::placeholder_of;
use crate::extractor::first_match;
use crate::extractor::first_matching;
use crate::messages::counted_message;
use crate::messages::MessageId;
use crate::messages::MessageView;
use crate::messages::plain_message;
use crate::messages::StatusMessage;
use crate::progress::fraction_of;
use crate::progress::Progress;
use crate::registry::Category;
use crate::state::entry_published;
use crate::state::published;
use crate::state::release_scan;
use crate::state::request_scan;
use crate::state::scan_released;
use crate::state::scan_requested;
use crate::state::scan_stop_requested;
use crate::state::SharedScanState;
use crate::state::StateView;
use crate::state::update_file_list;
use crate::state::update_progress;

verus! {

/// The number of bytes at the start of a file by which a scan tells the
/// file's category.
pub const SCAN_PREFIX_LEN: usize = 2048;

/// The part of a buffer that a scan looks at: its first 2048 bytes.
pub open spec fn scan_prefix(buffer: Seq<u8>) -> Seq<u8> {
    if buffer.len() > SCAN_PREFIX_LEN {
        buffer.subrange(0, SCAN_PREFIX_LEN as int)
    } else {
        buffer
    }
}

/// Whether a scan of `category` lists a file that starts with `buffer`. A
/// category that is not told by bytes lists every file; any other lists the
/// files whose first 2048 bytes hold one of its signatures.
pub open spec fn listed_in(category: Category, buffer: Seq<u8>) -> bool {
    !category.spec_is_sniffed() || first_matching(
        scan_prefix(buffer),
        category.spec_signatures(),
    ) is Some
}

/// Whether a scan of `category` lists a file that starts with `buffer`.
///
/// Only the first 2048 bytes of the buffer are looked at. For a category
/// that is not told by bytes the buffer is not looked at and may be empty.
pub fn classify(category: Category, buffer: &[u8]) -> (r: bool)
    ensures
        r == listed_in(category, buffer@),
{
    if !category.is_sniffed() {
        return true;
    }
    let prefix = if buffer.len() > SCAN_PREFIX_LEN {
        slice_subrange(buffer, 0, SCAN_PREFIX_LEN)
    } else {
        buffer
    };
    let candidates = category.signatures();
    first_match(prefix, &candidates).is_some()
}

/// What the caller found when it looked at one entry of the directory.
#[derive(Debug)]
pub enum ScanEvent {
    /// The entry could not be read.
    Unreadable,
    /// The entry was read: its file name, its metadata where they could be
    /// read, and the start of its contents.
    Found { name: String, metadata: Option<FileMetadata>, prefix: Vec<u8> },
}

/// The counters of one scan.
#[derive(Debug)]
pub struct ScanRun {
    category: Category,
    processed: usize,
    total: usize,
}

/// The counters of a scan as contracts see them.
pub struct ScanRunView {
    pub category: Category,
    pub processed: nat,
    pub total: nat,
}

impl View for ScanRun {
    type V = ScanRunView;

    closed spec fn view(&self) -> ScanRunView {
        ScanRunView {
            category: self.category,
            processed: self.processed as nat,
            total: self.total as nat,
        }
    }
}

impl ScanRun {
    #[verifier::type_invariant]
    spec fn well_formed(self) -> bool {
        self.processed <= self.total
    }

    /// The category that is scanned for.
    pub fn category(&self) -> (r: Category)
        ensures
            r == self@.category,
    {
        self.category
    }

    /// The number of entries that were taken up so far.
    pub fn processed(&self) -> (r: usize)
        ensures
            r == self@.processed,
            r <= self@.total,
    {
        proof {
            use_type_invariant(self);
        }
        self.processed
    }

    /// The number of entries of the directory.
    pub fn total(&self) -> (r: usize)
        ensures
            r == self@.total,
    {
        self.total
    }

    /// Whether the contents of the entries are needed to tell them.
    pub fn needs_contents(&self) -> (r: bool)
        ensures
            r == self@.category.spec_is_sniffed(),
    {
        self.category.is_sniffed()
    }
}

/// Whether a scan takes up a further entry: it was not asked to stop and
/// entries are left.
pub open spec fn scan_goes_on(s: StateView, run: ScanRunView) -> bool {
    !s.stop_requested && run.processed < run.total
}

/// The state after a scan has found its directory to hold `total` entries.
/// An empty directory is shown by the placeholder.
pub open spec fn scan_begun(s: StateView, total: nat, no_files: Seq<char>) -> StateView {
    if total == 0 {
        entry_published(s, placeholder_of(no_files))
    } else {
        s
    }
}

/// The state after a scan took up its next entry.
pub open spec fn entry_taken(s: StateView, run: ScanRunView) -> StateView {
    StateView { progress: fraction_of(run.processed + 1, run.total), repaint: true, ..s }
}

/// The state after a scan of `category` has looked at an entry.
pub open spec fn entry_scanned(s: StateView, category: Category, event: ScanEvent) -> StateView {
    match event {
        ScanEvent::Unreadable => s,
        ScanEvent::Found { name, metadata, prefix } => if listed_in(category, prefix@) {
            entry_published(s, asset_of(name@, metadata))
        } else {
            s
        },
    }
}

/// The message after a scan has looked at an entry.
pub open spec fn entry_message(run: ScanRunView, event: ScanEvent) -> MessageView {
    match event {
        ScanEvent::Unreadable => counted_message(
            MessageId::FailedOpeningFile,
            run.processed as usize,
            run.total as usize,
        ),
        ScanEvent::Found { .. } => counted_message(
            MessageId::FilteringFiles,
            run.processed as usize,
            run.total as usize,
        ),
    }
}

/// What becomes of a request to scan.
#[derive(Clone, Copy, Debug, PartialEq, Eq, Structural)]
pub enum ScanAdmission {
    /// The token names no category: nothing is to be done.
    Unknown,
    /// Another scan holds the scan gate and was asked to stop: the request
    /// is to be made again after a short while.
    Wait,
    /// The scan holds the scan gate and is to run for this category.
    Run(Category),
}

/// What becomes of a request to scan for the category that `mode` names.
pub open spec fn admission_of(s: StateView, mode: Seq<char>) -> ScanAdmission {
    match Category::spec_from_token(mode) {
        None => ScanAdmission::Unknown,
        Some(category) => if s.scanning {
            ScanAdmission::Wait
        } else {
            ScanAdmission::Run(category)
        },
    }
}

/// The state after a request to scan for the category that `mode` names.
pub open spec fn refresh_requested(s: StateView, mode: Seq<char>) -> StateView {
    match Category::spec_from_token(mode) {
        None => s,
        Some(_) => scan_requested(s),
    }
}

/// Asks to scan for the category that `mode` names.
///
/// A token that names no category changes nothing. Else the scan gate is
/// asked for: a scan that is running is asked to stop and the caller is to
/// ask again, and where none is running the caller holds the scan gate from
/// now on, with the discovered list emptied for it.
pub fn refresh(state: &mut SharedScanState, mode: &str) -> (r: ScanAdmission)
    ensures
        r == admission_of(old(state)@, mode@),
        final(state)@ == refresh_requested(old(state)@, mode@),
{
    match Category::from_token(mode) {
        None => ScanAdmission::Unknown,
        Some(category) => {
            if request_scan(state) {
                ScanAdmission::Run(category)
            } else {
                ScanAdmission::Wait
            }
        },
    }
}

/// What a scan did with one entry.
#[derive(Debug)]
pub struct ScanReport {
    /// The message for the status line.
    pub message: StatusMessage,
    /// Whether the entry was published to the discovered list.
    pub published: bool,
}

/// Whether a scan of `category` publishes what was found of an entry.
pub open spec fn entry_listed(category: Category, event: ScanEvent) -> bool {
    match event {
        ScanEvent::Unreadable => false,
        ScanEvent::Found { name, metadata, prefix } => listed_in(category, prefix@),
    }
}

/// Starts the scan of a directory that was found to hold `total` entries.
///
/// For an empty directory the discovered list becomes the placeholder
/// alone, shown under the name `no_files`. Else nothing changes yet.
pub fn begin_scan(state: &mut SharedScanState, category: Category, total: usize, no_files: String)
    -> (run: ScanRun)
    ensures
        run@ == (ScanRunView { category, processed: 0, total: total as nat }),
        final(state)@ == scan_begun(old(state)@, total as nat, no_files@),
        total == 0 ==> final(state)@.files == seq![placeholder_of(no_files@)],
{
    if total == 0 {
        update_file_list(state, create_no_files(no_files));
    }
    ScanRun { category, processed: 0, total }
}

/// Ends a scan whose directory could not be listed: the scan gate is given
/// back, the list and the progress stay as they are, and the message says
/// to look at the logs.
pub fn abort_scan(state: &mut SharedScanState) -> (r: StatusMessage)
    ensures
        final(state)@ == scan_released(old(state)@),
        r@ == plain_message(MessageId::ErrorCheckLogs),
{
    release_scan(state);
    StatusMessage::plain(MessageId::ErrorCheckLogs)
}

/// Takes up the next entry of the directory, unless the scan was asked to
/// stop or no entry is left.
///
/// With the result `true` the entry is counted and the progress is the
/// share of the entries taken up so far. With `false` nothing changes: the
/// scan is over and what it has published stays.
pub fn scan_next(state: &mut SharedScanState, run: &mut ScanRun) -> (go: bool)
    ensures
        go == scan_goes_on(old(state)@, old(run)@),
        go ==> final(state)@ == entry_taken(old(state)@, old(run)@),
        go ==> final(run)@ == (ScanRunView {
            processed: old(run)@.processed + 1,
            ..old(run)@
        }),
        !go ==> final(state)@ == old(state)@ && final(run)@ == old(run)@,
{
    proof {
        use_type_invariant(&*run);
    }
    if scan_stop_requested(state) || run.processed >= run.total {
        return false;
    }
    run.processed = run.processed + 1;
    update_progress(state, Progress::of(run.processed, run.total));
    true
}

/// Takes in what was found of the entry that `scan_next` took up.
///
/// An entry that was read is published where the scan lists it: always for
/// a category that is not told by bytes, else where its first 2048 bytes
/// hold a signature of the category. An entry is published once, however
/// many signatures it holds. An unreadable entry changes nothing. The
/// result holds the message for the status line and says whether the entry
/// was published.
pub fn scan_entry(state: &mut SharedScanState, run: &ScanRun, event: ScanEvent) -> (r: ScanReport)
    ensures
        final(state)@ == entry_scanned(old(state)@, run@.category, event),
        r.message@ == entry_message(run@, event),
        r.published == entry_listed(run@.category, event),
{
    match event {
        ScanEvent::Unreadable => ScanReport {
            message: StatusMessage::counted(MessageId::FailedOpeningFile, run.processed, run.total),
            published: false,
        },
        ScanEvent::Found { name, metadata, prefix } => {
            let published = classify(run.category, prefix.as_slice());
            if published {
                update_file_list(state, create_asset_info(name.as_str(), metadata));
            }
            ScanReport {
                message: StatusMessage::counted(
                    MessageId::FilteringFiles,
                    run.processed,
                    run.total,
                ),
                published,
            }
        },
    }
}

/// Ends a scan: the scan gate is given back and the message is the idle one.
pub fn finish_scan(state: &mut SharedScanState) -> (r: StatusMessage)
    ensures
        final(state)@ == scan_released(old(state)@),
        r@ == plain_message(MessageId::Idling),
{
    release_scan(state);
    StatusMessage::plain(MessageId::Idling)
}

/// The list after the entries `entries` were published to it one after
/// the other.
pub open spec fn published_all(files: Seq<AssetView>, entries: Seq<AssetView>) -> Seq<AssetView>
    decreases entries.len(),
{
    if entries.len() == 0 {
        files
    } else {
        published(published_all(files, entries.drop_last()), entries.last())
    }
}

/// Real assets that are published to an empty list make up the list, in
/// the order in which they came.
pub proof fn lemma_published_assets(entries: Seq<AssetView>)
    requires
        forall|i: int| 0 <= i < entries.len() ==> (#[trigger] entries[i]).real_asset,
    ensures
        published_all(Seq::empty(), entries) == entries,
    decreases entries.len(),
{
    if entries.len() > 0 {
        lemma_published_assets(entries.drop_last());
        assert(entries.drop_last().push(entries.last()) =~= entries);
        if entries.len() > 1 {
            assert(entries.drop_last()[0] == entries[0]);
        }
    }
}

/// A later request for a scan displaces the scan that is running.
///
/// While a scan holds the scan gate, a request from a second scan does not get
/// it but asks the first to stop, and leaves the list alone. The first scan
/// then takes up no further entry. Once it has given the scan gate back, the
/// next request of the second scan gets the scan gate, with an empty list and
/// no request to stop standing. What the second scan publishes from then on
/// is all that the list holds: nothing of the first scan is left.
pub proof fn lemma_second_scan_displaces_first(
    s: StateView,
    first: ScanRunView,
    entries: Seq<AssetView>,
)
    requires
        s.scanning,
        forall|i: int| 0 <= i < entries.len() ==> (#[trigger] entries[i]).real_asset,
    ensures
        scan_requested(s).scanning,
        scan_requested(s).stop_requested,
        scan_requested(s).files == s.files,
        !scan_goes_on(scan_requested(s), first),
        !scan_released(scan_requested(s)).scanning,
        scan_requested(scan_released(scan_requested(s))).scanning,
        !scan_requested(scan_released(scan_requested(s))).stop_requested,
        published_all(scan_requested(scan_released(scan_requested(s))).files, entries) == entries,
{
    lemma_published_assets(entries);
    assert(scan_requested(scan_released(scan_requested(s))).files =~= Seq::<AssetView>::empty());
}

/// The counters of a scan of `category` over `total` entries of which `n`
/// were taken up.
pub open spec fn run_after(category: Category, total: nat, n: nat) -> ScanRunView {
    ScanRunView { category, processed: n, total }
}

/// The state after a scan has taken up and looked at the first `n` of the
/// entries of its directory, one after the other.
pub open spec fn scanned_through(
    s: StateView,
    category: Category,
    events: Seq<ScanEvent>,
    n: int,
) -> StateView
    decreases n,
{
    if n <= 0 {
        s
    } else {
        entry_scanned(
            entry_taken(
                scanned_through(s, category, events, n - 1),
                run_after(category, events.len(), (n - 1) as nat),
            ),
            category,
            events[n - 1],
        )
    }
}

/// The assets of those among the first `n` entries that a scan of
/// `category` lists, in their order.
pub open spec fn listed_assets(category: Category, events: Seq<ScanEvent>, n: int) -> Seq<
    AssetView,
>
    decreases n,
{
    if n <= 0 {
        Seq::empty()
    } else {
        let before = listed_assets(category, events, n - 1);
        match events[n - 1] {
            ScanEvent::Unreadable => before,
            ScanEvent::Found { name, metadata, prefix } => if listed_in(category, prefix@) {
                before.push(asset_of(name@, metadata))
            } else {
                before
            },
        }
    }
}

proof fn lemma_scanned_through(
    s: StateView,
    category: Category,
    events: Seq<ScanEvent>,
    n: int,
)
    requires
        0 <= n <= events.len(),
        s.files.len() == 0,
        !s.stop_requested,
    ensures
        scanned_through(s, category, events, n).files == listed_assets(category, events, n),
        forall|i: int|
            0 <= i < listed_assets(category, events, n).len() ==> (#[trigger] listed_assets(
                category,
                events,
                n,
            )[i]).real_asset,
        !scanned_through(s, category, events, n).stop_requested,
        scanned_through(s, category, events, n).scanning == s.scanning,
        n > 0 ==> scanned_through(s, category, events, n).progress == fraction_of(
            n as nat,
            events.len(),
        ),
    decreases n,
{
    if n > 0 {
        lemma_scanned_through(s, category, events, n - 1);
        let before = listed_assets(category, events, n - 1);
        if before.len() > 0 {
            assert(before[0].real_asset);
        }
    } else {
        assert(s.files =~= Seq::<AssetView>::empty());
    }
}

/// A scan that gets the scan gate at once and is not asked to stop takes
/// up every entry of its directory and ends with the scan gate given back.
/// Of an empty directory it lists the placeholder alone. Of any other it
/// lists exactly the entries that belong to its category, each once and in
/// the order of the directory, and its progress ends at 1.
pub proof fn lemma_complete_scan(
    s: StateView,
    category: Category,
    events: Seq<ScanEvent>,
    no_files: Seq<char>,
)
    requires
        !s.scanning,
    ensures
        ({
            let begun = scan_begun(scan_requested(s), events.len(), no_files);
            let done = scan_released(scanned_through(begun, category, events, events.len() as int));
            &&& !done.scanning
            &&& events.len() == 0 ==> done.files == seq![placeholder_of(no_files)]
            &&& events.len() > 0 ==> done.files == listed_assets(
                category,
                events,
                events.len() as int,
            )
            &&& events.len() > 0 ==> done.progress == (events.len(), events.len())
            &&& forall|n: int|
                0 <= n < events.len() ==> scan_goes_on(
                    #[trigger] scanned_through(begun, category, events, n),
                    run_after(category, events.len(), n as nat),
                )
        }),
{
    let begun = scan_begun(scan_requested(s), events.len(), no_files);
    if events.len() > 0 {
        assert(begun.files =~= Seq::<AssetView>::empty());
        lemma_scanned_through(begun, category, events, events.len() as int);
        assert forall|n: int| 0 <= n < events.len() implies scan_goes_on(
            #[trigger] scanned_through(begun, category, events, n),
            run_after(category, events.len(), n as nat),
        ) by {
            lemma_scanned_through(begun, category, events, n);
        }
    } else {
        assert(begun.files =~= seq![placeholder_of(no_files)]);
    }
}

/// The progress of a scan never falls and never passes 1: each entry that
/// is taken up raises the numerator by one over the same denominator.
pub proof fn lemma_scan_progress_rises(run: ScanRunView)
    requires
        run.processed < run.total,
    ensures
        fraction_of(run.processed + 1, run.total).1 == fraction_of(run.processed, run.total).1,
        fraction_of(run.processed + 1, run.total).0 == fraction_of(run.processed, run.total).0 + 1,
        fraction_of(run.processed + 1, run.total).0 <= fraction_of(run.processed + 1, run.total).1,
{
}

} // verus!
