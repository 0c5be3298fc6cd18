//! Picking the module files out of the listing of a directory.
//!
//! Reading the directory is the caller's part; what was read comes in as
//! plain values, and the choice of files is made here.

use crate::plugin_manager::error::{
    is_directory_error,
    is_listing_error,
    shows_io_error,
    PluginManagerError,
    PluginManagerErrorView,
};
use vstd::prelude::*;
use vstd::string::StringExecFns;

verus! {

/// The extension that marks a file as a module.
pub const WASM_EXTENSION: &'static str = "wasm";

/// One entry of a directory, as far as the scan looks at it.
#[derive(Debug)]
pub struct DirEntry {
    /// The path of the entry.
    pub path: String,
    /// Whether the entry is a regular file.
    pub is_file: bool,
    /// The extension of the entry's file name, without the dot, if it has
    /// one.
    pub extension: Option<String>,
}

/// The mathematical value of a [`DirEntry`].
pub struct DirEntryView {
    pub path: Seq<char>,
    pub is_file: bool,
    pub extension: Option<Seq<char>>,
}

impl View for DirEntry {
    type V = DirEntryView;

    open spec fn view(&self) -> DirEntryView {
        DirEntryView {
            path: self.path@,
            is_file: self.is_file,
            extension: match self.extension {
                Some(extension) => Some(extension@),
                None => None,
            },
        }
    }
}

/// The texts of a sequence of strings, in the same order.
pub open spec fn string_views(strings: Seq<String>) -> Seq<Seq<char>> {
    strings.map_values(|string: String| string@)
}

/// Whether an entry is a module file: a regular file with the module
/// extension.
pub open spec fn is_module_file(entry: DirEntryView) -> bool {
    entry.is_file && entry.extension == Some(WASM_EXTENSION@)
}

/// The paths of the module files among `entries`, in their order.
pub open spec fn module_paths(entries: Seq<DirEntryView>) -> Seq<Seq<char>> {
    entries.filter(|entry: DirEntryView| is_module_file(entry)).map_values(
        |entry: DirEntryView| entry.path,
    )
}

/// The entries that were read, where every one was.
pub open spec fn entries_read(entries: Seq<Result<DirEntry, std::io::Error>>) -> Seq<DirEntryView> {
    entries.map_values(|entry: Result<DirEntry, std::io::Error>| entry->Ok_0@)
}

/// Whether `place` is that of the first entry that could not be read.
pub open spec fn is_first_unread(entries: Seq<Result<DirEntry, std::io::Error>>, place: int)
    -> bool {
    &&& 0 <= place < entries.len()
    &&& entries[place] is Err
    &&& forall|i: int| 0 <= i < place ==> (#[trigger] entries[i]) is Ok
}

/// Whether every entry of a listing was read.
pub open spec fn all_read(entries: Seq<Result<DirEntry, std::io::Error>>) -> bool {
    forall|i: int| 0 <= i < entries.len() ==> (#[trigger] entries[i]) is Ok
}

/// Whether `result` is what going through `entries` gives: the paths of the
/// module files, in the order of the listing, or the error of the first
/// entry that could not be read.
pub open spec fn collects(
    entries: Seq<Result<DirEntry, std::io::Error>>,
    result: Result<Vec<String>, PluginManagerError>,
) -> bool {
    match result {
        Ok(paths) => all_read(entries) && string_views(paths@) == module_paths(
            entries_read(entries),
        ),
        Err(failure) => exists|place: int|
            is_first_unread(entries, place) && is_directory_error(
                failure@,
                entries[place]->Err_0,
            ),
    }
}

/// Taking one more entry into account adds its path if it is a module file.
proof fn lemma_module_paths_step(entries: Seq<DirEntryView>, count: int)
    requires
        0 <= count < entries.len(),
    ensures
        module_paths(entries.take(count + 1)) == if is_module_file(entries[count]) {
            module_paths(entries.take(count)).push(entries[count].path)
        } else {
            module_paths(entries.take(count))
        },
{
    reveal(Seq::filter);
    let longer = entries.take(count + 1);
    assert(longer.drop_last() =~= entries.take(count));
    assert(longer.last() == entries[count]);
    let chosen = entries.take(count).filter(|entry: DirEntryView| is_module_file(entry));
    if is_module_file(entries[count]) {
        assert(chosen.push(entries[count]).map_values(|entry: DirEntryView| entry.path)
            =~= chosen.map_values(|entry: DirEntryView| entry.path).push(entries[count].path));
    }
}

/// Goes through the entries in their order. The first one that could not be
/// read ends the scan with its error; otherwise the paths of the module
/// files come back, in the order of the listing.
pub fn collect_modules(entries: Vec<Result<DirEntry, std::io::Error>>) -> (result: Result<
    Vec<String>,
    PluginManagerError,
>)
    ensures
        collects(entries@, result),
{
    let wanted = String::from_str(WASM_EXTENSION);
    let mut components: Vec<String> = Vec::new();
    proof {
        reveal(Seq::filter);
        assert(entries_read(entries@).take(0) =~= Seq::<DirEntryView>::empty());
        assert(string_views(components@) =~= module_paths(entries_read(entries@).take(0)));
    }
    for entry in iter: entries.into_iter()
        invariant
            iter.seq() == entries@,
            wanted@ == WASM_EXTENSION@,
            forall|i: int| 0 <= i < iter.index() ==> (#[trigger] entries@[i]) is Ok,
            string_views(components@) == module_paths(
                entries_read(entries@).take(iter.index() as int),
            ),
    {
        let entry = match entry {
            Ok(entry) => entry,
            Err(error) => {
                assert(is_first_unread(entries@, iter.index() as int));
                return Err(PluginManagerError::from_io(error));
            },
        };
        proof {
            lemma_module_paths_step(entries_read(entries@), iter.index() as int);
        }
        let is_module = entry.is_file && match &entry.extension {
            Some(extension) => *extension == wanted,
            None => false,
        };
        if is_module {
            let ghost before = components@;
            components.push(entry.path);
            assert(string_views(components@) =~= string_views(before).push(entry.path@));
        }
    }
    assert(entries_read(entries@).take(entries@.len() as int) =~= entries_read(entries@));
    Ok(components)
}

/// Picks the module files out of the listing of the directory `dir`. If the
/// directory could not be listed, or one of its entries could not be read,
/// the scan fails with that cause. Other files and subdirectories are passed
/// over, and subdirectories are not entered.
pub fn scan_directory(
    dir: &str,
    listing: Result<Vec<Result<DirEntry, std::io::Error>>, std::io::Error>,
) -> (result: Result<Vec<String>, PluginManagerError>)
    ensures
        match listing {
            Err(cause) => result matches Err(failure) && is_listing_error(failure@, dir@, cause),
            Ok(entries) => collects(entries@, result),
        },
{
    match listing {
        Err(cause) => {
            let text = cause.to_string();
            assert(shows_io_error(cause, text@));
            let message = String::from_str("Failed to read plugin directory ").concat(dir).concat(
                ": ",
            ).concat(text.as_str());
            Err(PluginManagerError::DirectoryError { message, source: Some(cause) })
        },
        Ok(entries) => collect_modules(entries),
    }
}

/// The scan that first asks whether the directory is there.
pub struct Scanner;

impl Scanner {
    /// Picks the module files out of the listing of the directory `dir`,
    /// which `exists` says is there or not. A directory that is not there is
    /// reported as such, whatever the listing holds; otherwise the scan goes
    /// as [`scan_directory`] does, except that a listing that failed is
    /// reported in the words of its cause alone.
    pub fn scan_directory(
        dir: &str,
        exists: bool,
        listing: Result<Vec<Result<DirEntry, std::io::Error>>, std::io::Error>,
    ) -> (result: Result<Vec<String>, PluginManagerError>)
        ensures
            !exists ==> (result matches Err(failure) && failure@ == (
            PluginManagerErrorView::DirectoryError {
                message: "Plugin directory does not exist: "@ + dir@,
                source: None,
            })),
            exists ==> match listing {
                Err(cause) => result matches Err(failure) && is_directory_error(failure@, cause),
                Ok(entries) => collects(entries@, result),
            },
    {
        if !exists {
            return Err(
                PluginManagerError::DirectoryError {
                    message: String::from_str("Plugin directory does not exist: ").concat(dir),
                    source: None,
                },
            );
        }
        match listing {
            Err(cause) => Err(PluginManagerError::from_io(cause)),
            Ok(entries) => collect_modules(entries),
        }
    }
}

} // verus!
