//! The state that scans and batch operations share: the discovered list and
//! the list filtered from it, status and progress, the flag that asks for a
//! repaint, and the flags that coordinate the tasks.
//!
//! One value of `SharedScanState` is made at start-up and handed to every
//! component that needs it. Every function here is one short step on it.

use vstd::prelude::*;
use std::path::PathBuf;
use crate::asset::AssetInfo;
use crate::asset::AssetView;
use crate::asset::duplicate_list;
use crate::asset::placeholder_rule;
use crate::asset::views_of;
use crate::progress::Progress;
use crate::text::join_path;
use crate::text::joined_path;
use crate::text::lowercase_of;
use crate::text::str_contains;
use crate::text::text_contains;
use crate::text::to_lowercase;

verus! {

/// The shared state as contracts see it.
pub struct StateView {
    /// The discovered list.
    pub files: Seq<AssetView>,
    /// The list filtered from the discovered list by the last query.
    pub filtered: Seq<AssetView>,
    /// The status message.
    pub status: Seq<char>,
    /// The progress, as numerator and denominator.
    pub progress: (nat, nat),
    /// Whether something changed since the flag was last read.
    pub repaint: bool,
    /// Whether a scan holds the scan gate.
    pub scanning: bool,
    /// Whether the running scan was asked to stop.
    pub stop_requested: bool,
    /// Whether a delete or extract task holds the task gate.
    pub task_running: bool,
    /// The cache directory.
    pub cache_directory: PathBuf,
}

/// The state shared by scans and batch operations.
pub struct SharedScanState {
    file_list: Vec<AssetInfo>,
    filtered_file_list: Vec<AssetInfo>,
    status: String,
    progress: Progress,
    request_repaint: bool,
    list_task_running: bool,
    stop_list_running: bool,
    task_running: bool,
    cache_directory: PathBuf,
}

/// The list after an entry was published to it. A real asset is added at
/// the end; where the list held the placeholder, the asset takes its place.
/// The placeholder, when published, is the whole list.
pub open spec fn published(files: Seq<AssetView>, entry: AssetView) -> Seq<AssetView> {
    if !entry.real_asset {
        seq![entry]
    } else if files.len() > 0 && !files[0].real_asset {
        seq![entry]
    } else {
        files.push(entry)
    }
}

/// The state after a request for the scan gate. Where no scan holds it the
/// requester gets it, the request to stop is withdrawn and the discovered
/// list is emptied. Where a scan holds it, that scan is asked to stop and
/// nothing else changes.
pub open spec fn scan_requested(s: StateView) -> StateView {
    if s.scanning {
        StateView { stop_requested: true, repaint: true, ..s }
    } else {
        StateView {
            files: Seq::empty(),
            scanning: true,
            stop_requested: false,
            repaint: true,
            ..s
        }
    }
}

/// The state after the scan gate was given back.
pub open spec fn scan_released(s: StateView) -> StateView {
    StateView { scanning: false, repaint: true, ..s }
}

/// The state after a request for the task gate. Where no task holds it the
/// requester gets it; where one does, nothing changes.
pub open spec fn task_requested(s: StateView) -> StateView {
    if s.task_running {
        s
    } else {
        StateView { task_running: true, repaint: true, ..s }
    }
}

/// The state after the task gate was given back.
pub open spec fn task_released(s: StateView) -> StateView {
    StateView { task_running: false, repaint: true, ..s }
}

/// The state after an entry was published to the discovered list.
pub open spec fn entry_published(s: StateView, entry: AssetView) -> StateView {
    StateView { files: published(s.files, entry), repaint: true, ..s }
}

/// The name under which entry `i` of a list is shown: its alias where the
/// list of aliases reaches that far, its own name where it does not.
pub open spec fn alias_at(files: Seq<AssetView>, aliases: Seq<Seq<char>>, i: int) -> Seq<char> {
    if 0 <= i < aliases.len() {
        aliases[i]
    } else {
        files[i].name
    }
}

/// Whether entry `i` of a list answers a query: the query lies in the name
/// of the entry or in its alias, letter case apart.
pub open spec fn answers_query(
    files: Seq<AssetView>,
    aliases: Seq<Seq<char>>,
    query: Seq<char>,
    i: int,
) -> bool {
    text_contains(lowercase_of(files[i].name), lowercase_of(query)) || text_contains(
        lowercase_of(alias_at(files, aliases, i)),
        lowercase_of(query),
    )
}

/// The entries among the first `n` of a list that answer a query, in the
/// order of the list.
pub open spec fn filtered_prefix(
    files: Seq<AssetView>,
    aliases: Seq<Seq<char>>,
    query: Seq<char>,
    n: int,
) -> Seq<AssetView>
    decreases n,
{
    if n <= 0 {
        Seq::empty()
    } else {
        let before = filtered_prefix(files, aliases, query, n - 1);
        if answers_query(files, aliases, query, n - 1) {
            before.push(files[n - 1])
        } else {
            before
        }
    }
}

/// The texts of a list of strings, in the list's order.
pub open spec fn texts_of(list: Seq<String>) -> Seq<Seq<char>> {
    list.map_values(|s: String| s@)
}

/// The sub-directory of the cache in which the files of a category lie:
/// `sounds` for the category `music`, `http` for every other.
pub open spec fn cache_subdirectory(mode: Seq<char>) -> Seq<char> {
    if mode == "music"@ {
        "sounds"@
    } else {
        "http"@
    }
}

/// The entries of a list that answer a query, in the order of the list.
pub open spec fn filtered(files: Seq<AssetView>, aliases: Seq<Seq<char>>, query: Seq<char>) -> Seq<
    AssetView,
> {
    filtered_prefix(files, aliases, query, files.len() as int)
}

/// Every filtered entry is an entry of the list, and the placeholder rule
/// passes from the list to what is filtered from it.
pub proof fn lemma_filtered_entries(
    files: Seq<AssetView>,
    aliases: Seq<Seq<char>>,
    query: Seq<char>,
    n: int,
)
    requires
        0 <= n <= files.len(),
    ensures
        filtered_prefix(files, aliases, query, n).len() <= n,
        forall|k: int|
            0 <= k < filtered_prefix(files, aliases, query, n).len() ==> exists|i: int|
                0 <= i < n && answers_query(files, aliases, query, i) && files[i]
                    == #[trigger] filtered_prefix(files, aliases, query, n)[k],
        placeholder_rule(files) ==> placeholder_rule(filtered_prefix(files, aliases, query, n)),
    decreases n,
{
    if n > 0 {
        lemma_filtered_entries(files, aliases, query, n - 1);
        let before = filtered_prefix(files, aliases, query, n - 1);
        let now = filtered_prefix(files, aliases, query, n);
        assert forall|k: int| 0 <= k < now.len() implies exists|i: int|
            0 <= i < n && answers_query(files, aliases, query, i) && files[i] == #[trigger] now[k] by {
            if k < before.len() {
                let i = choose|i: int|
                    0 <= i < n - 1 && answers_query(files, aliases, query, i) && files[i]
                        == before[k];
                assert(files[i] == now[k]);
            } else {
                assert(files[n - 1] == now[k]);
            }
        }
        if placeholder_rule(files) {
            if exists|k: int| 0 <= k < now.len() && !now[k].real_asset {
                let k = choose|k: int| 0 <= k < now.len() && !now[k].real_asset;
                let i = choose|i: int|
                    0 <= i < n && answers_query(files, aliases, query, i) && files[i] == now[k];
                assert(!files[i].real_asset);
                assert(files.len() == 1);
            }
        }
    }
}

impl View for SharedScanState {
    type V = StateView;

    closed spec fn view(&self) -> StateView {
        StateView {
            files: views_of(self.file_list@),
            filtered: views_of(self.filtered_file_list@),
            status: self.status@,
            progress: self.progress.ratio(),
            repaint: self.request_repaint,
            scanning: self.list_task_running,
            stop_requested: self.stop_list_running,
            task_running: self.task_running,
            cache_directory: self.cache_directory,
        }
    }
}

impl SharedScanState {
    #[verifier::type_invariant]
    spec fn well_formed(self) -> bool {
        &&& placeholder_rule(views_of(self.file_list@))
        &&& placeholder_rule(views_of(self.filtered_file_list@))
    }

    /// The state at start-up: both lists empty, the given status, progress
    /// complete, no task running and nothing to repaint.
    pub fn new(cache_directory: PathBuf, status: String) -> (r: SharedScanState)
        ensures
            r@ == (StateView {
                files: Seq::empty(),
                filtered: Seq::empty(),
                status: status@,
                progress: (1nat, 1nat),
                repaint: false,
                scanning: false,
                stop_requested: false,
                task_running: false,
                cache_directory: cache_directory,
            }),
    {
        let r = SharedScanState {
            file_list: Vec::new(),
            filtered_file_list: Vec::new(),
            status,
            progress: Progress::complete(),
            request_repaint: false,
            list_task_running: false,
            stop_list_running: false,
            task_running: false,
            cache_directory,
        };
        assert(views_of(r.file_list@) =~= Seq::empty());
        assert(views_of(r.filtered_file_list@) =~= Seq::empty());
        r
    }
}

/// Sets the status message and asks for a repaint.
pub fn update_status(state: &mut SharedScanState, value: String)
    ensures
        final(state)@ == (StateView { status: value@, repaint: true, ..old(state)@ }),
{
    proof {
        use_type_invariant(&*state);
    }
    state.status = value;
    state.request_repaint = true;
}

/// Sets the progress and asks for a repaint.
pub fn update_progress(state: &mut SharedScanState, value: Progress)
    ensures
        final(state)@ == (StateView { progress: value.ratio(), repaint: true, ..old(state)@ }),
{
    proof {
        use_type_invariant(&*state);
    }
    state.progress = value;
    state.request_repaint = true;
}

/// Publishes an entry to the discovered list and asks for a repaint.
///
/// A real asset is added at the end of the list, or takes the place of the
/// placeholder where the list held it. The placeholder becomes the whole
/// list.
pub fn update_file_list(state: &mut SharedScanState, value: AssetInfo)
    ensures
        final(state)@ == entry_published(old(state)@, value@),
        placeholder_rule(final(state)@.files),
{
    proof {
        use_type_invariant(&*state);
    }
    let ghost before = views_of(state.file_list@);
    let holds_placeholder = state.file_list.len() > 0 && !state.file_list[0].real_asset;
    if !value.real_asset || holds_placeholder {
        let mut list: Vec<AssetInfo> = Vec::new();
        list.push(value);
        assert(views_of(list@) =~= seq![value@]);
        state.file_list = list;
    } else {
        assert forall|i: int| 0 <= i < before.len() implies (#[trigger] before[i]).real_asset by {
            if !before[i].real_asset {
                assert(before.len() == 1);
            }
        }
        let mut list: Vec<AssetInfo> = Vec::new();
        std::mem::swap(&mut list, &mut state.file_list);
        list.push(value);
        assert(views_of(list@) =~= before.push(value@));
        state.file_list = list;
    }
    state.request_repaint = true;
}

/// Empties the discovered list and asks for a repaint.
pub fn clear_file_list(state: &mut SharedScanState)
    ensures
        final(state)@ == (StateView { files: Seq::empty(), repaint: true, ..old(state)@ }),
{
    proof {
        use_type_invariant(&*state);
    }
    let list: Vec<AssetInfo> = Vec::new();
    assert(views_of(list@) =~= Seq::empty());
    state.file_list = list;
    state.request_repaint = true;
}

/// The entries of `list` that answer `query`, in the order of the list.
///
/// An entry answers where the query lies in its name or in its alias,
/// letter case apart. `aliases` holds the alias of each entry at the
/// entry's index; an entry beyond its end goes by its own name.
pub fn filter_entries(list: &Vec<AssetInfo>, aliases: &Vec<String>, query: &str) -> (r: Vec<
    AssetInfo,
>)
    ensures
        views_of(r@) == filtered(views_of(list@), texts_of(aliases@), query@),
{
    let needle = to_lowercase(query);
    let mut r: Vec<AssetInfo> = Vec::new();
    let n: usize = list.len();
    let mut i: usize = 0;
    assert(views_of(r@) =~= Seq::empty());
    while i < n
        invariant
            n == list@.len(),
            i <= n,
            needle@ == lowercase_of(query@),
            views_of(r@) == filtered_prefix(
                views_of(list@),
                texts_of(aliases@),
                query@,
                i as int,
            ),
        decreases n - i,
    {
        let entry = &list[i];
        let name = to_lowercase(entry.name.as_str());
        let mut keep = str_contains(name.as_str(), needle.as_str());
        if !keep && i < aliases.len() {
            let alias = to_lowercase(aliases[i].as_str());
            keep = str_contains(alias.as_str(), needle.as_str());
        }
        assert(views_of(list@)[i as int] == entry@);
        assert(i < aliases@.len() ==> texts_of(aliases@)[i as int] == aliases@[i as int]@);
        assert(keep == answers_query(views_of(list@), texts_of(aliases@), query@, i as int));
        if keep {
            let ghost before = views_of(r@);
            r.push(entry.duplicate());
            assert(views_of(r@) =~= before.push(entry@));
        }
        i += 1;
    }
    r
}

/// Filters the discovered list by a query into the filtered list and asks
/// for a repaint. The discovered list stays as it is.
pub fn filter_file_list(state: &mut SharedScanState, query: String, aliases: &Vec<String>)
    ensures
        final(state)@ == (StateView {
            filtered: filtered(old(state)@.files, texts_of(aliases@), query@),
            repaint: true,
            ..old(state)@
        }),
{
    proof {
        use_type_invariant(&*state);
        lemma_filtered_entries(
            views_of(state.file_list@),
            texts_of(aliases@),
            query@,
            state.file_list@.len() as int,
        );
    }
    let result = filter_entries(&state.file_list, aliases, query.as_str());
    state.filtered_file_list = result;
    state.request_repaint = true;
}

/// A copy of the discovered list.
pub fn get_file_list(state: &SharedScanState) -> (r: Vec<AssetInfo>)
    ensures
        views_of(r@) == state@.files,
        placeholder_rule(views_of(r@)),
{
    proof {
        use_type_invariant(state);
    }
    duplicate_list(&state.file_list)
}

/// A copy of the filtered list.
pub fn get_filtered_file_list(state: &SharedScanState) -> (r: Vec<AssetInfo>)
    ensures
        views_of(r@) == state@.filtered,
        placeholder_rule(views_of(r@)),
{
    proof {
        use_type_invariant(state);
    }
    duplicate_list(&state.filtered_file_list)
}

/// The cache directory.
pub fn get_cache_directory(state: &SharedScanState) -> (r: PathBuf)
    ensures
        r == state@.cache_directory,
{
    state.cache_directory.clone()
}

/// The name of the sub-directory of the cache in which the files of the
/// category `mode` lie: `sounds` for the category `music`, `http` for every
/// other.
pub fn mode_subdirectory(mode: &str) -> (r: String)
    ensures
        r@ == cache_subdirectory(mode@),
{
    if mode.to_owned() == "music".to_owned() {
        "sounds".to_owned()
    } else {
        "http".to_owned()
    }
}

/// The directory in which the files of the category `mode` lie: the
/// sub-directory `sounds` of the cache directory for the category `music`,
/// the sub-directory `http` for every other.
pub fn get_mode_cache_directory(state: &SharedScanState, mode: &str) -> (r: PathBuf)
    ensures
        r == joined_path(state@.cache_directory, cache_subdirectory(mode@)),
{
    let subdirectory = mode_subdirectory(mode);
    join_path(&state.cache_directory, subdirectory.as_str())
}

/// Sets the cache directory and asks for a repaint.
pub fn set_cache_directory(state: &mut SharedScanState, value: PathBuf)
    ensures
        final(state)@ == (StateView { cache_directory: value, repaint: true, ..old(state)@ }),
{
    proof {
        use_type_invariant(&*state);
    }
    state.cache_directory = value;
    state.request_repaint = true;
}

/// The status message.
pub fn get_status(state: &SharedScanState) -> (r: String)
    ensures
        r@ == state@.status,
{
    state.status.clone()
}

/// The progress.
pub fn get_progress(state: &SharedScanState) -> (r: Progress)
    ensures
        r.ratio() == state@.progress,
{
    state.progress
}

/// Whether a scan holds the scan gate.
pub fn get_list_task_running(state: &SharedScanState) -> (r: bool)
    ensures
        r == state@.scanning,
{
    state.list_task_running
}

/// Whether a delete or extract task holds the task gate.
pub fn get_task_running(state: &SharedScanState) -> (r: bool)
    ensures
        r == state@.task_running,
{
    state.task_running
}

/// Reads the repaint flag and clears it: a change is reported once.
pub fn get_request_repaint(state: &mut SharedScanState) -> (r: bool)
    ensures
        r == old(state)@.repaint,
        final(state)@ == (StateView { repaint: false, ..old(state)@ }),
{
    proof {
        use_type_invariant(&*state);
    }
    let before = state.request_repaint;
    state.request_repaint = false;
    before
}

/// Asks for the scan gate.
///
/// Where no scan holds the scan gate the caller gets it: the result is `true`,
/// the request to stop is withdrawn and the discovered list is emptied for
/// the new scan. Where a scan holds it, that scan is asked to stop and the
/// result is `false`: the caller asks again after a short while.
/// Either way the state has changed and a repaint is asked for.
pub fn request_scan(state: &mut SharedScanState) -> (acquired: bool)
    ensures
        acquired == !old(state)@.scanning,
        final(state)@ == scan_requested(old(state)@),
{
    proof {
        use_type_invariant(&*state);
    }
    if state.list_task_running {
        state.stop_list_running = true;
        state.request_repaint = true;
        false
    } else {
        state.list_task_running = true;
        state.stop_list_running = false;
        let list: Vec<AssetInfo> = Vec::new();
        assert(views_of(list@) =~= Seq::empty());
        state.file_list = list;
        state.request_repaint = true;
        true
    }
}

/// Whether the running scan was asked to stop.
pub fn scan_stop_requested(state: &SharedScanState) -> (r: bool)
    ensures
        r == state@.stop_requested,
{
    state.stop_list_running
}

/// Gives the scan gate back and asks for a repaint.
pub fn release_scan(state: &mut SharedScanState)
    ensures
        final(state)@ == scan_released(old(state)@),
{
    proof {
        use_type_invariant(&*state);
    }
    state.list_task_running = false;
    state.request_repaint = true;
}

/// Asks for the task gate, which lets one delete or extract task run at a
/// time. The result says whether the caller got it; where another task
/// holds it nothing changes.
pub fn try_begin_task(state: &mut SharedScanState) -> (acquired: bool)
    ensures
        acquired == !old(state)@.task_running,
        final(state)@ == task_requested(old(state)@),
{
    proof {
        use_type_invariant(&*state);
    }
    if state.task_running {
        false
    } else {
        state.task_running = true;
        state.request_repaint = true;
        true
    }
}

/// Gives the task gate back.
pub fn end_task(state: &mut SharedScanState)
    ensures
        final(state)@ == task_released(old(state)@),
{
    proof {
        use_type_invariant(&*state);
    }
    state.task_running = false;
    state.request_repaint = true;
}

} // verus!
