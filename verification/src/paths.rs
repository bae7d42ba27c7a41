//! Where the files of the store are kept. A location is a base directory
//! and the path components below it; how they are joined is left to the
//! system that the files live on.

use crate::command::no_args;
use crate::command::push_text;
use crate::command::texts;
use crate::manifest::Asset;
use crate::manifest::AssetCategory;
use crate::text::text_of;
use vstd::prelude::*;

verus! {

/// A place in the file system: a base directory and path components below
/// it.
#[derive(Debug)]
pub struct Location {
    /// The base directory, as the system writes it.
    pub base: String,
    /// The components below the base, outermost first.
    pub parts: Vec<String>,
}

/// A location with its texts as sequences of characters.
pub struct LocationView {
    pub base: Seq<char>,
    pub parts: Seq<Seq<char>>,
}

impl View for Location {
    type V = LocationView;

    open spec fn view(&self) -> LocationView {
        LocationView { base: self.base@, parts: texts(self.parts@) }
    }
}

/// The place called `part` in the directory `dir`.
pub open spec fn within(dir: LocationView, part: Seq<char>) -> LocationView {
    LocationView { base: dir.base, parts: dir.parts.push(part) }
}

/// The root of the store: `.zapret` in the user's home directory, or in the
/// working directory where the home directory is not known.
pub open spec fn zapret_dir(home: Option<Seq<char>>) -> LocationView {
    LocationView {
        base: match home {
            Some(dir) => dir,
            None => "."@,
        },
        parts: seq![".zapret"@],
    }
}

/// The directory of the data files.
pub open spec fn fake_dir(home: Option<Seq<char>>) -> LocationView {
    within(zapret_dir(home), "fake"@)
}

/// The directory of the rule lists.
pub open spec fn lists_dir(home: Option<Seq<char>>) -> LocationView {
    within(zapret_dir(home), "lists"@)
}

/// The directory of the filter fragments.
pub open spec fn filters_dir(home: Option<Seq<char>>) -> LocationView {
    within(zapret_dir(home), "filters"@)
}

/// Where the file `name` of the category `category` is kept: the binaries
/// in the root of the store, the others in the directory of their category.
pub open spec fn destination(
    home: Option<Seq<char>>,
    category: AssetCategory,
    name: Seq<char>,
) -> LocationView {
    match category {
        AssetCategory::Binary => within(zapret_dir(home), name),
        AssetCategory::AuxiliaryData => within(fake_dir(home), name),
        AssetCategory::RuleList => within(lists_dir(home), name),
        AssetCategory::FilterFragment => within(filters_dir(home), name),
    }
}

impl Location {
    /// The place called `part` in this directory.
    pub fn join(self, part: &str) -> (place: Location)
        ensures
            place@ == within(self@, part@),
    {
        let Location { base, parts } = self;
        let mut parts = parts;
        push_text(&mut parts, part);
        Location { base, parts }
    }
}

/// The root of the store, given the user's home directory where it is
/// known.
pub fn get_zapret_dir(home: Option<&str>) -> (dir: Location)
    ensures
        dir@ == zapret_dir(text_of(home)),
{
    let base = match home {
        Some(dir) => String::from_str(dir),
        None => String::from_str("."),
    };
    let mut parts: Vec<String> = no_args();
    push_text(&mut parts, ".zapret");
    assert(texts(parts@) =~= seq![".zapret"@]);
    Location { base, parts }
}

/// The root of the store, for the user to see.
pub fn get_zapret_directory(home: Option<&str>) -> (dir: Location)
    ensures
        dir@ == zapret_dir(text_of(home)),
{
    get_zapret_dir(home)
}

/// The directory of the data files.
pub fn get_fake_dir(home: Option<&str>) -> (dir: Location)
    ensures
        dir@ == fake_dir(text_of(home)),
{
    get_zapret_dir(home).join("fake")
}

/// The directory of the rule lists.
pub fn get_lists_dir(home: Option<&str>) -> (dir: Location)
    ensures
        dir@ == lists_dir(text_of(home)),
{
    get_zapret_dir(home).join("lists")
}

/// The directory of the filter fragments.
pub fn get_filters_dir(home: Option<&str>) -> (dir: Location)
    ensures
        dir@ == filters_dir(text_of(home)),
{
    get_zapret_dir(home).join("filters")
}

/// The directory of the filter fragments, for the user to see.
pub fn get_filters_path(home: Option<&str>) -> (dir: Location)
    ensures
        dir@ == filters_dir(text_of(home)),
{
    get_filters_dir(home)
}

/// The file of the hash ledger.
pub fn get_hashes_path(home: Option<&str>) -> (file: Location)
    ensures
        file@ == within(zapret_dir(text_of(home)), "hashes.json"@),
{
    get_zapret_dir(home).join("hashes.json")
}

/// The file of the configuration.
pub fn get_config_path(home: Option<&str>) -> (file: Location)
    ensures
        file@ == within(zapret_dir(text_of(home)), "config.json"@),
{
    get_zapret_dir(home).join("config.json")
}

/// The file `filename` in the root of the store.
pub fn get_binary_path(home: Option<&str>, filename: &str) -> (file: Location)
    ensures
        file@ == within(zapret_dir(text_of(home)), filename@),
{
    get_zapret_dir(home).join(filename)
}

/// The worker's executable.
pub fn get_winws_path(home: Option<&str>) -> (file: Location)
    ensures
        file@ == within(zapret_dir(text_of(home)), "winws.exe"@),
{
    get_zapret_dir(home).join("winws.exe")
}

/// The file `filename` among the filter fragments.
pub fn get_filter_file(home: Option<&str>, filename: &str) -> (file: Location)
    ensures
        file@ == within(filters_dir(text_of(home)), filename@),
{
    get_filters_dir(home).join(filename)
}

/// Where the file of `asset` is kept. This never fails.
pub fn resolve_path(home: Option<&str>, asset: &Asset) -> (file: Location)
    ensures
        file@ == destination(text_of(home), asset.category, asset.name@),
{
    let dir = match asset.category {
        AssetCategory::Binary => get_zapret_dir(home),
        AssetCategory::AuxiliaryData => get_fake_dir(home),
        AssetCategory::RuleList => get_lists_dir(home),
        AssetCategory::FilterFragment => get_filters_dir(home),
    };
    dir.join(asset.name.as_str())
}

} // verus!
