//! Entries of a discovered file list.

use vstd::prelude::*;
use std::time::SystemTime;

verus! {

/// A point in time as the file system reports it. The library carries such a
/// value from the place where a file was looked at to the list; it never
/// looks inside.
#[verifier::external_type_specification]
#[verifier::external_body]
pub struct ExSystemTime(std::time::SystemTime);

/// What the file system told of a file when it was discovered.
#[derive(Clone, Copy, Debug)]
pub struct FileMetadata {
    /// The length of the file in bytes.
    pub size: u64,
    /// When the file was last written, where the platform can tell.
    pub modified: Option<SystemTime>,
}

/// One entry of a discovered file list.
#[derive(Clone, Debug)]
pub struct AssetInfo {
    /// The name of the file in its cache directory: no path.
    pub name: String,
    /// The length of the file in bytes; 0 where it could not be read.
    pub size: u64,
    /// When the file was last written; absent where it could not be read.
    pub last_modified: Option<SystemTime>,
    /// `false` only for the entry that stands for "no files found".
    pub real_asset: bool,
}

/// An entry as contracts see it.
pub struct AssetView {
    pub name: Seq<char>,
    pub size: u64,
    pub last_modified: Option<SystemTime>,
    pub real_asset: bool,
}

impl View for AssetInfo {
    type V = AssetView;

    open spec fn view(&self) -> AssetView {
        AssetView {
            name: self.name@,
            size: self.size,
            last_modified: self.last_modified,
            real_asset: self.real_asset,
        }
    }
}

/// The entry that stands for a file with the given name and metadata. Where
/// the metadata could not be read the entry has size 0 and no time.
pub open spec fn asset_of(name: Seq<char>, metadata: Option<FileMetadata>) -> AssetView {
    match metadata {
        Some(m) => AssetView { name, size: m.size, last_modified: m.modified, real_asset: true },
        None => AssetView { name, size: 0, last_modified: None, real_asset: true },
    }
}

/// The entry that stands for "no files found", shown under the given name.
pub open spec fn placeholder_of(name: Seq<char>) -> AssetView {
    AssetView { name, size: 0, last_modified: None, real_asset: false }
}

/// The views of the entries of a list, in the list's order.
pub open spec fn views_of(list: Seq<AssetInfo>) -> Seq<AssetView> {
    list.map_values(|a: AssetInfo| a@)
}

/// The rule of the placeholder: a list that holds an entry that is no real
/// asset holds that entry and nothing else.
pub open spec fn placeholder_rule(list: Seq<AssetView>) -> bool {
    (exists|i: int| 0 <= i < list.len() && !list[i].real_asset) ==> list.len() == 1
}

impl AssetInfo {
    /// A copy of the entry.
    pub fn duplicate(&self) -> (r: AssetInfo)
        ensures
            r@ == self@,
    {
        AssetInfo {
            name: self.name.clone(),
            size: self.size,
            last_modified: self.last_modified,
            real_asset: self.real_asset,
        }
    }
}

/// The entry for a discovered file, from its name and the metadata that
/// could be read of it. Without metadata the entry has size 0 and no time;
/// it is a real asset all the same.
pub fn create_asset_info(file: &str, metadata: Option<FileMetadata>) -> (r: AssetInfo)
    ensures
        r@ == asset_of(file@, metadata),
        r@.real_asset,
{
    match metadata {
        Some(m) => AssetInfo {
            name: file.to_owned(),
            size: m.size,
            last_modified: m.modified,
            real_asset: true,
        },
        None => AssetInfo { name: file.to_owned(), size: 0, last_modified: None, real_asset: true },
    }
}

/// The entry that stands for "no files found". Its name is the text that is
/// shown in the list.
pub fn create_no_files(name: String) -> (r: AssetInfo)
    ensures
        r@ == placeholder_of(name@),
        !r@.real_asset,
{
    AssetInfo { name, size: 0, last_modified: None, real_asset: false }
}

/// A copy of a list of entries.
pub fn duplicate_list(list: &Vec<AssetInfo>) -> (r: Vec<AssetInfo>)
    ensures
        views_of(r@) == views_of(list@),
{
    let mut r: Vec<AssetInfo> = Vec::new();
    let n: usize = list.len();
    let mut i: usize = 0;
    while i < n
        invariant
            n == list@.len(),
            i <= n,
            r@.len() == i,
            forall|j: int| 0 <= j < i ==> (#[trigger] r@[j])@ == list@[j]@,
        decreases n - i,
    {
        r.push(list[i].duplicate());
        i += 1;
    }
    assert(views_of(r@) =~= views_of(list@));
    r
}

} // verus!
