//! Finding the program in a release archive, which is a gzip-compressed tar
//! file.

use crate::overrun::{find_overrun, overrun};
use crate::path::{bytes_eq, file_name, FsPath};
use crate::text;
use std::io::Read;
use vstd::prelude::*;
use vstd::utf8::encode_utf8;

verus! {

/// One entry of an archive, as far as it could be read.
#[derive(Debug, PartialEq, Eq)]
pub enum ListedEntry {
    /// The path of the entry.
    Path(FsPath),
    /// Why the entry could not be read.
    Unreadable(String),
}

/// What a [`ListedEntry`] stands for.
pub enum ListedEntryView {
    Path(Seq<u8>),
    Unreadable(Seq<char>),
}

impl DeepView for ListedEntry {
    type V = ListedEntryView;

    open spec fn deep_view(&self) -> ListedEntryView {
        match self {
            ListedEntry::Path(p) => ListedEntryView::Path(p@),
            ListedEntry::Unreadable(why) => ListedEntryView::Unreadable(why@),
        }
    }
}

/// What came of the search for the program.
#[derive(Debug, PartialEq, Eq)]
pub enum BinarySearch {
    /// It is the entry at this index.
    Found(usize),
    /// No entry is it.
    Missing,
    /// An entry before it could not be read.
    BadEntry(String),
    /// The archive has no entries that can be asked for.
    BadArchive(String),
}

/// What a [`BinarySearch`] stands for.
pub enum BinarySearchView {
    Found(nat),
    Missing,
    BadEntry(Seq<char>),
    BadArchive(Seq<char>),
}

impl DeepView for BinarySearch {
    type V = BinarySearchView;

    open spec fn deep_view(&self) -> BinarySearchView {
        match self {
            BinarySearch::Found(i) => BinarySearchView::Found(*i as nat),
            BinarySearch::Missing => BinarySearchView::Missing,
            BinarySearch::BadEntry(why) => BinarySearchView::BadEntry(why@),
            BinarySearch::BadArchive(why) => BinarySearchView::BadArchive(why@),
        }
    }
}

// ----------------------------------------------------------------------------
// Listing an archive
// ----------------------------------------------------------------------------

/// The limit that leaves nothing out.
pub const NO_LIMIT: u64 = u64::MAX;

/// What `flate2::read::GzDecoder` makes of bytes, and whether it comes to an end
/// without failing.
pub uninterp spec fn unzipped(bytes: Seq<u8>) -> (Seq<u8>, bool);

/// `flate2::read::GzDecoder`, read byte by byte until it ends or fails. Not
/// proved here: that what it gives depends on `bytes` alone.
///
/// Where the decoder fails, whoever reads longer pieces from it may get fewer
/// bytes than this, since a piece in which it fails is lost, or more: where
/// `bytes` are cut off, it hands out what it still holds in one last piece.
/// After that piece every read fails.
#[verifier::external_body]
fn unzip(bytes: &[u8]) -> (out: (Vec<u8>, bool))
    ensures
        (out.0@, out.1) == unzipped(bytes@),
{
    let mut data: Vec<u8> = Vec::new();
    let mut read = flate2::read::GzDecoder::new(bytes).bytes();
    let complete = read.try_for_each(|byte| byte.map(|b| data.push(b))).is_ok();
    (data, complete)
}

/// What `tar` lists of the first `limit` bytes of what gzip-compressed bytes
/// hold: entries, or why there are none to list.
pub uninterp spec fn listing(bytes: Seq<u8>, limit: u64) -> Result<
    Seq<ListedEntryView>,
    Seq<char>,
>;

/// Whether a listing ends because one more block behind the header of a sparse
/// file is missing. `tar` says so in these words, and of nothing else.
pub open spec fn lacks_extension(listed: Result<Seq<ListedEntryView>, Seq<char>>) -> bool {
    match listed {
        Ok(entries) => entries.len() > 0 && entries.last() == ListedEntryView::Unreadable(
            "failed to read extension"@,
        ),
        Err(_) => false,
    }
}

/// Where in the archive `bytes` a block stands that `tar` reads and cannot
/// count, if there is one. The headers lead to it, and `tar`, given what stands
/// before it, asks for it. Where `tar` stops before that, for whatever reason,
/// there is none.
pub open spec fn overruns_at(bytes: Seq<u8>) -> Option<nat> {
    match overrun(unzipped(bytes).0, unzipped(bytes).1) {
        Some(block) => if lacks_extension(listing(bytes, block as u64)) {
            Some(block)
        } else {
            None
        },
        None => None,
    }
}

/// `tar::Archive::entries` on the first `limit` bytes that
/// `flate2::read::GzDecoder` makes of `bytes`, each entry by its `path_bytes`
/// and each error by its text. Not proved here: that the result depends on the
/// bytes and the limit alone.
///
/// For each block that stands behind the header of a sparse file `tar` counts
/// its position on without a check, which panics in a build that checks for
/// overflow. So the first block that cannot be counted must not be among what
/// it gets to read, unless it stops before that.
#[verifier::external_body]
fn list_entries(bytes: &[u8], limit: u64) -> (out: Result<Vec<ListedEntry>, String>)
    requires
        match overrun(unzipped(bytes@).0, unzipped(bytes@).1) {
            Some(block) => limit <= block || !lacks_extension(listing(bytes@, block as u64)),
            None => true,
        },
    ensures
        (match out {
            Ok(entries) => Ok(entries.deep_view()),
            Err(why) => Err(why@),
        }) == listing(bytes@, limit),
{
    let tar_file = flate2::read::GzDecoder::new(bytes).take(limit);
    let mut archive = tar::Archive::new(tar_file);
    let out = match archive.entries() {
        Ok(entries) => Ok(entries.map(|entry| match entry {
            Ok(e) => ListedEntry::Path(FsPath { bytes: e.path_bytes().into_owned() }),
            Err(e) => ListedEntry::Unreadable(e.to_string()),
        }).collect()),
        Err(e) => Err(e.to_string()),
    };
    out
}

/// Whether a listing ends because one more block behind the header of a sparse
/// file is missing.
pub fn is_lacking_extension(listed: &Result<Vec<ListedEntry>, String>) -> (out: bool)
    ensures
        out == lacks_extension(
            match listed {
                Ok(entries) => Ok(entries.deep_view()),
                Err(why) => Err(why@),
            },
        ),
{
    match listed {
        Ok(entries) => {
            let n = entries.len();
            if n == 0 {
                return false;
            }
            assert(entries.deep_view().last() == entries[n - 1].deep_view());
            match &entries[n - 1] {
                ListedEntry::Unreadable(why) => text::str_eq(
                    why.as_str(),
                    "failed to read extension",
                ),
                ListedEntry::Path(_) => false,
            }
        },
        Err(_) => false,
    }
}

// ----------------------------------------------------------------------------
// Searching an archive
// ----------------------------------------------------------------------------

/// Whether an entry with the path `p` is the program: its file name is `cim`,
/// in whatever directory.
pub open spec fn is_binary_path(p: Seq<u8>) -> bool {
    file_name(p) == Some(encode_utf8("cim"@))
}

/// The first entry from index `i` on that is the program, unless an entry
/// before it could not be read.
pub open spec fn search_from(entries: Seq<ListedEntryView>, i: nat) -> BinarySearchView
    decreases entries.len() - i,
{
    if i >= entries.len() {
        BinarySearchView::Missing
    } else {
        match entries[i as int] {
            ListedEntryView::Unreadable(why) => BinarySearchView::BadEntry(why),
            ListedEntryView::Path(p) => if is_binary_path(p) {
                BinarySearchView::Found(i)
            } else {
                search_from(entries, i + 1)
            },
        }
    }
}

/// What comes of the search in what is listed of an archive.
pub open spec fn search_listing(
    listed: Result<Seq<ListedEntryView>, Seq<char>>,
) -> BinarySearchView {
    match listed {
        Ok(entries) => search_from(entries, 0),
        Err(why) => BinarySearchView::BadArchive(why),
    }
}

/// What comes of the search where only what stands before a block that cannot
/// be counted was searched: the program, if it stands there.
pub open spec fn cut_short(found: BinarySearchView) -> BinarySearchView {
    match found {
        BinarySearchView::Found(i) => BinarySearchView::Found(i),
        _ => BinarySearchView::BadEntry("size overflow"@),
    }
}

/// What comes of the search in the archive `bytes`. Where it holds a block that
/// `tar` reads and cannot count, what stands before that is searched.
pub open spec fn search(bytes: Seq<u8>) -> BinarySearchView {
    match overruns_at(bytes) {
        None => search_listing(listing(bytes, NO_LIMIT)),
        Some(block) => cut_short(search_listing(listing(bytes, block as u64))),
    }
}

/// Searches the entries of an archive for the program.
pub fn search_entries(entries: &Vec<ListedEntry>) -> (out: BinarySearch)
    ensures
        out.deep_view() == search_from(entries.deep_view(), 0),
{
    let mut i: usize = 0;
    while i < entries.len()
        invariant
            i <= entries.len(),
            search_from(entries.deep_view(), 0) == search_from(entries.deep_view(), i as nat),
        decreases entries.len() - i,
    {
        assert(entries.deep_view()[i as int] == entries[i as int].deep_view());
        match &entries[i] {
            ListedEntry::Unreadable(why) => {
                return BinarySearch::BadEntry(why.clone());
            },
            ListedEntry::Path(p) => {
                if is_binary(p) {
                    return BinarySearch::Found(i);
                }
            },
        }
        i += 1;
    }
    BinarySearch::Missing
}

/// Whether an entry with the path `p` is the program.
pub fn is_binary(p: &FsPath) -> (out: bool)
    ensures
        out == is_binary_path(p@),
{
    match p.file_name() {
        Some(name) => {
            assert(name.deep_view() =~= name@);
            bytes_eq(name.as_slice(), "cim".as_bytes())
        },
        None => false,
    }
}

/// Searches what is listed of an archive for the program.
pub fn search_listed(listed: Result<Vec<ListedEntry>, String>) -> (out: BinarySearch)
    ensures
        out.deep_view() == search_listing(
            match listed {
                Ok(entries) => Ok(entries.deep_view()),
                Err(why) => Err(why@),
            },
        ),
{
    match listed {
        Ok(entries) => search_entries(&entries),
        Err(why) => BinarySearch::BadArchive(why),
    }
}

/// Takes what was found before a block that cannot be counted.
pub fn found_before_overrun(found: BinarySearch) -> (out: BinarySearch)
    ensures
        out.deep_view() == cut_short(found.deep_view()),
{
    match found {
        BinarySearch::Found(i) => BinarySearch::Found(i),
        _ => BinarySearch::BadEntry("size overflow".to_owned()),
    }
}

/// Searches the archive `bytes` for the program.
pub fn find_binary(bytes: &[u8]) -> (out: BinarySearch)
    ensures
        out.deep_view() == search(bytes@),
{
    let (data, complete) = unzip(bytes);
    match find_overrun(&data, complete) {
        None => search_listed(list_entries(bytes, NO_LIMIT)),
        Some(block) => {
            let before = list_entries(bytes, block as u64);
            if is_lacking_extension(&before) {
                found_before_overrun(search_listed(before))
            } else {
                search_listed(list_entries(bytes, NO_LIMIT))
            }
        },
    }
}

// ----------------------------------------------------------------------------
// Laws
// ----------------------------------------------------------------------------

/// What is found is the first entry whose file name is `cim`, with every entry
/// before it readable.
pub proof fn law_search_finds_the_first(entries: Seq<ListedEntryView>, from: nat)
    requires
        from <= entries.len(),
    ensures
        search_from(entries, from) matches BinarySearchView::Found(i) ==> {
            &&& from <= i < entries.len()
            &&& entries[i as int] matches ListedEntryView::Path(p) && is_binary_path(p)
            &&& forall|j: int|
                from <= j < i ==> (#[trigger] entries[j] matches ListedEntryView::Path(p)
                    && !is_binary_path(p))
        },
    decreases entries.len() - from,
{
    if from < entries.len() {
        law_search_finds_the_first(entries, from + 1);
    }
}

/// What lies behind the program in the archive does not matter.
pub proof fn law_search_ignores_what_follows(
    entries: Seq<ListedEntryView>,
    more: Seq<ListedEntryView>,
    from: nat,
)
    requires
        search_from(entries, from) is Found,
    ensures
        search_from(entries + more, from) == search_from(entries, from),
    decreases entries.len() - from,
{
    assert((entries + more)[from as int] == entries[from as int]);
    if !is_binary_path(entries[from as int]->Path_0) {
        law_search_ignores_what_follows(entries, more, from + 1);
    }
}

/// The program is reported missing exactly where every entry could be read and
/// none is it.
pub proof fn law_missing_means_none(entries: Seq<ListedEntryView>, from: nat)
    requires
        from <= entries.len(),
    ensures
        search_from(entries, from) is Missing <==> (forall|j: int|
            from <= j < entries.len() ==> (#[trigger] entries[j] matches ListedEntryView::Path(p)
                && !is_binary_path(p))),
    decreases entries.len() - from,
{
    if from < entries.len() {
        law_missing_means_none(entries, from + 1);
    }
}

/// What lies behind the program in the archive does not matter, even if it
/// cannot be counted: where the program is listed before that, it is found.
pub proof fn law_overrun_behind_the_program_is_ignored(
    bytes: Seq<u8>,
    block: nat,
    entries: Seq<ListedEntryView>,
)
    requires
        overruns_at(bytes) == Some(block),
        listing(bytes, block as u64) == Ok::<Seq<ListedEntryView>, Seq<char>>(entries),
        search_from(entries, 0) is Found,
    ensures
        search(bytes) == search_from(entries, 0),
{
}

/// An archive in which `tar` can count every block that it reads is searched as
/// a whole.
pub proof fn law_archive_is_searched_whole(bytes: Seq<u8>)
    requires
        overruns_at(bytes) is None,
    ensures
        search(bytes) == search_listing(listing(bytes, NO_LIMIT)),
{
}

/// The program is the entry whose file name is these three bytes and no other.
pub proof fn law_binary_has_one_name(p: Seq<u8>)
    ensures
        is_binary_path(p) <==> file_name(p) == Some(seq![0x63u8, 0x69u8, 0x6du8]),
{
    reveal_strlit("cim");
    vstd::utf8::is_ascii_chars_encode_utf8("cim"@);
    assert(encode_utf8("cim"@) =~= seq![0x63u8, 0x69u8, 0x6du8]);
}

/// An entry that cannot be read ends the search, with its own reason, exactly
/// where no entry before it is the program.
pub proof fn law_unreadable_entry_ends_search(entries: Seq<ListedEntryView>, from: nat)
    requires
        from <= entries.len(),
    ensures
        search_from(entries, from) matches BinarySearchView::BadEntry(why) ==> exists|i: int|
            {
                &&& from <= i < entries.len()
                &&& #[trigger] entries[i] == ListedEntryView::Unreadable(why)
                &&& forall|j: int|
                    from <= j < i ==> (#[trigger] entries[j] matches ListedEntryView::Path(p)
                        && !is_binary_path(p))
            },
        !(search_from(entries, from) is BadArchive),
    decreases entries.len() - from,
{
    if from < entries.len() {
        law_unreadable_entry_ends_search(entries, from + 1);
        if search_from(entries, from) is BadEntry {
            if entries[from as int] is Path {
                let why = search_from(entries, from)->BadEntry_0;
                let i = choose|i: int|
                    {
                        &&& from + 1 <= i < entries.len()
                        &&& #[trigger] entries[i] == ListedEntryView::Unreadable(why)
                        &&& forall|j: int|
                            from + 1 <= j < i ==> (
                            #[trigger] entries[j] matches ListedEntryView::Path(p)
                                && !is_binary_path(p))
                    };
                assert(entries[i] == ListedEntryView::Unreadable(why));
            } else {
                assert(entries[from as int] is Unreadable);
            }
        }
    }
}

/// An archive that cannot be listed is reported with the reason.
pub proof fn law_unlisted_archive_is_reported(why: Seq<char>)
    ensures
        search_listing(Err(why)) == BinarySearchView::BadArchive(why),
{
}

/// Where tar cannot count on, the search answers what it found before, and an
/// error where it found nothing.
pub proof fn law_search_is_cut_short_only_by_an_overrun(bytes: Seq<u8>, block: nat)
    requires
        overruns_at(bytes) == Some(block),
    ensures
        search(bytes) is Found <==> search_listing(listing(bytes, block as u64)) is Found,
        search(bytes) is Found || search(bytes) is BadEntry,
        lacks_extension(listing(bytes, block as u64)),
{
}

} // verus!
