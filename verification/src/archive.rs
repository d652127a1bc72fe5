//! Reading the files out of an archive that was fetched from a container.
//!
//! An archive is a tar stream, plain or compressed with gzip. The tar and the
//! gzip formats are read by the `tar` and `flate2` crates; which entries count
//! as files, and under which names, is decided here.

use vstd::prelude::*;
use vstd::utf8::{decode_utf8, valid_utf8};
use crate::error::{Error, ErrorView};
use crate::paths::{file_name, last_component};
use std::io::Read;

verus! {

/// One entry of a tar stream, as the `tar` crate reports it.
#[derive(Clone, Debug, PartialEq, Eq)]
pub struct ArchiveEntry {
    /// Whether the entry is a regular file.
    pub regular: bool,
    /// The size that the entry declares.
    pub size: u64,
    /// The path of the entry, with `/` between its components.
    pub path: Vec<u8>,
    /// The bytes that were read of the entry, or `None` where reading them
    /// ended in an error. Where the stream ends before the entry does, these
    /// are fewer bytes than the entry declares.
    pub content: Option<Vec<u8>>,
}

/// What an [`ArchiveEntry`] denotes.
pub struct EntryView {
    pub regular: bool,
    pub size: u64,
    pub path: Seq<u8>,
    pub content: Option<Seq<u8>>,
}

impl View for ArchiveEntry {
    type V = EntryView;

    open spec fn view(&self) -> EntryView {
        EntryView {
            regular: self.regular,
            size: self.size,
            path: self.path@,
            content: match self.content {
                Some(c) => Some(c@),
                None => None,
            },
        }
    }
}

/// What a slot of the entry list denotes: `None` where the stream is damaged
/// at that place.
pub open spec fn slot_view(slot: Option<ArchiveEntry>) -> Option<EntryView> {
    match slot {
        Some(e) => Some(e@),
        None => None,
    }
}

/// What a list of slots denotes.
pub open spec fn slots_view(slots: Seq<Option<ArchiveEntry>>) -> Seq<Option<EntryView>> {
    slots.map_values(|s: Option<ArchiveEntry>| slot_view(s))
}

/// What a list of named files denotes.
pub open spec fn files_view(files: Seq<(String, Vec<u8>)>) -> Seq<(Seq<char>, Seq<u8>)> {
    files.map_values(|f: (String, Vec<u8>)| (f.0@, f.1@))
}

/// What the outcome of reading a byte stream denotes.
pub open spec fn bytes_result_view(r: Result<Vec<u8>, String>) -> Result<Seq<u8>, Seq<char>> {
    match r {
        Ok(b) => Ok(b@),
        Err(m) => Err(m@),
    }
}

/// What the outcome of listing a tar stream denotes.
pub open spec fn slots_result_view(r: Result<Vec<Option<ArchiveEntry>>, String>) -> Result<
    Seq<Option<EntryView>>,
    Seq<char>,
> {
    match r {
        Ok(slots) => Ok(slots_view(slots@)),
        Err(m) => Err(m@),
    }
}

/// The entries that the `tar` crate finds in `bytes`, in the order of the
/// stream, or the message of the error with which it refuses the stream.
pub uninterp spec fn tar_entries(bytes: Seq<u8>) -> Result<Seq<Option<EntryView>>, Seq<char>>;

/// What the `flate2` crate decompresses the gzip stream `bytes` to, or the
/// message of the error with which it refuses the stream.
pub uninterp spec fn gunzip_of(bytes: Seq<u8>) -> Result<Seq<u8>, Seq<char>>;

/// `tar::Archive::entries` over the bytes in memory, each entry read as it is
/// reached. What comes back depends on the bytes alone. An item that the
/// iterator reports as an error becomes an empty slot, and an entry has no
/// content where reading it ends in an error. An entry that the stream cuts
/// short is read without an error, as far as it goes.
#[verifier::external_body]
fn read_entries(bytes: &[u8]) -> (out: Result<Vec<Option<ArchiveEntry>>, String>)
    ensures
        slots_result_view(out) == tar_entries(bytes@),
{
    let mut archive = tar::Archive::new(bytes);
    let entries = archive.entries().map_err(|e| e.to_string())?;
    Ok(entries.map(|item| item.ok().map(|mut entry| {
        let mut content = Vec::new();
        let read = entry.read_to_end(&mut content).is_ok();
        ArchiveEntry {
            regular: entry.header().entry_type().is_file(),
            size: entry.size(),
            path: entry.path_bytes().into_owned(),
            content: read.then_some(content),
        }
    })).collect())
}

/// `flate2::read::GzDecoder` read to its end over the bytes in memory. What
/// comes back depends on the bytes alone.
#[verifier::external_body]
fn gunzip(bytes: &[u8]) -> (out: Result<Vec<u8>, String>)
    ensures
        bytes_result_view(out) == gunzip_of(bytes@),
{
    let mut plain = Vec::new();
    match flate2::read::GzDecoder::new(bytes).read_to_end(&mut plain) {
        Ok(_) => Ok(plain),
        Err(e) => Err(e.to_string()),
    }
}

/// `String::from_utf8`: the text of the bytes where they are well-formed
/// UTF-8, and nothing where they are not.
#[verifier::external_body]
fn text_of_utf8(bytes: Vec<u8>) -> (out: Option<String>)
    ensures
        out is Some <==> valid_utf8(bytes@),
        out matches Some(s) ==> s@ == decode_utf8(bytes@),
{
    String::from_utf8(bytes).ok()
}

/// The file that a slot of the entry list stands for: a regular entry that
/// declares and holds at least one byte, under the file name of its path. A
/// damaged slot, a directory, an empty entry, an entry whose path is not
/// well-formed UTF-8 and an entry whose path has no file name stand for none.
pub open spec fn file_of(slot: Option<EntryView>) -> Option<(Seq<char>, Seq<u8>)> {
    match slot {
        Some(e) => match (e.content, last_component(decode_utf8(e.path))) {
            (Some(content), Some(name)) => if e.regular && e.size > 0 && content.len() > 0
                && valid_utf8(e.path) {
                Some((name, content))
            } else {
                None
            },
            _ => None,
        },
        None => None,
    }
}

/// The files of an entry list, in the order of the list.
pub open spec fn extracted(slots: Seq<Option<EntryView>>) -> Seq<(Seq<char>, Seq<u8>)> {
    slots.filter_map(|slot: Option<EntryView>| file_of(slot))
}

/// Every entry that stands for a file is among the extracted files, with its
/// name and its content unchanged.
pub proof fn lemma_extracted_keeps_every_file(slots: Seq<Option<EntryView>>, i: int)
    requires
        0 <= i < slots.len(),
        file_of(slots[i]) is Some,
    ensures
        extracted(slots).contains(file_of(slots[i])->0),
    decreases slots.len(),
{
    let f = |slot: Option<EntryView>| file_of(slot);
    let rest = slots.drop_last();
    if i == slots.len() - 1 {
        let found = rest.filter_map(f) + seq![file_of(slots[i])->0];
        assert(found[found.len() - 1] == file_of(slots[i])->0);
    } else {
        lemma_extracted_keeps_every_file(rest, i);
        let file = file_of(slots[i])->0;
        let k = choose|k: int| 0 <= k < extracted(rest).len() && extracted(rest)[k] == file;
        assert(extracted(slots)[k] == file);
    }
}

/// Every extracted file is the file of some entry of the list.
pub proof fn lemma_extracted_holds_only_files(slots: Seq<Option<EntryView>>, j: int)
    requires
        0 <= j < extracted(slots).len(),
    ensures
        exists|i: int| 0 <= i < slots.len() && file_of(#[trigger] slots[i]) == Some(extracted(slots)[j]),
    decreases slots.len(),
{
    let f = |slot: Option<EntryView>| file_of(slot);
    let rest = slots.drop_last();
    if slots.len() > 0 {
        if j < extracted(rest).len() {
            lemma_extracted_holds_only_files(rest, j);
            let i = choose|i: int| 0 <= i < rest.len() && file_of(#[trigger] rest[i]) == Some(extracted(rest)[j]);
            assert(slots[i] == rest[i]);
        } else {
            assert(file_of(slots[slots.len() - 1]) == Some(extracted(slots)[j]));
        }
    }
}

/// The files of an entry list (see [`file_of`]), in the order of the list.
pub fn extract_files(slots: Vec<Option<ArchiveEntry>>) -> (files: Vec<(String, Vec<u8>)>)
    ensures
        files_view(files@) == extracted(slots_view(slots@)),
{
    let ghost all = slots_view(slots@);
    let ghost f = |slot: Option<EntryView>| file_of(slot);
    let mut files: Vec<(String, Vec<u8>)> = Vec::new();
    let mut i: usize = 0;
    assert(files_view(files@) =~= all.take(0).filter_map(f));
    while i < slots.len()
        invariant
            i <= slots.len(),
            all == slots_view(slots@),
            f == |slot: Option<EntryView>| file_of(slot),
            files_view(files@) == all.take(i as int).filter_map(f),
        decreases slots.len() - i,
    {
        proof {
            all.lemma_filter_map_take_succ(f, i as int);
            assert(all[i as int] == slot_view(slots@[i as int]));
        }
        let ghost before = files_view(files@);
        match &slots[i] {
            Some(entry) => {
                if entry.regular && entry.size > 0 {
                    let path = entry.path.clone();
                    assert(path@ =~= entry.path@);
                    match (&entry.content, text_of_utf8(path)) {
                        (Some(content), Some(path)) => {
                            if content.len() > 0 {
                                match file_name(path.as_str()) {
                                    Some(name) => {
                                        let bytes = content.clone();
                                        assert(bytes@ =~= content@);
                                        files.push((name, bytes));
                                        assert(files_view(files@) =~= before + seq![
                                            (name@, bytes@),
                                        ]);
                                    },
                                    None => {},
                                }
                            }
                        },
                        _ => {},
                    }
                }
            },
            None => {},
        }
        i += 1;
    }
    assert(all.take(slots.len() as int) =~= all);
    files
}

/// Whether `bytes` begin as a gzip stream does.
pub open spec fn is_gzip(bytes: Seq<u8>) -> bool {
    bytes.len() >= 2 && bytes[0] == 0x1f && bytes[1] == 0x8b
}

/// What the outcome of reading an archive denotes.
pub open spec fn files_result_view(r: Result<Vec<(String, Vec<u8>)>, Error>) -> Result<
    Seq<(Seq<char>, Seq<u8>)>,
    ErrorView,
> {
    match r {
        Ok(files) => Ok(files_view(files@)),
        Err(e) => Err(e@),
    }
}

/// The files of the archive `bytes`. A gzip stream is decompressed first; any
/// other stream is taken as the tar stream itself. A stream that cannot be
/// decompressed, or that is refused as a tar stream, is a build failure with
/// the reader's message.
pub open spec fn files_of(bytes: Seq<u8>) -> Result<Seq<(Seq<char>, Seq<u8>)>, ErrorView> {
    let plain = if is_gzip(bytes) {
        gunzip_of(bytes)
    } else {
        Ok(bytes)
    };
    match plain {
        Err(message) => Err(ErrorView::BuildFailure(message)),
        Ok(tar) => match tar_entries(tar) {
            Err(message) => Err(ErrorView::BuildFailure(message)),
            Ok(slots) => Ok(extracted(slots)),
        },
    }
}

/// Reads the archive `tar_gz_bytes` and returns the name and the content of
/// every file in it that is not empty, in the order of the archive.
pub fn files_from_tar_gz(tar_gz_bytes: Vec<u8>) -> (out: Result<Vec<(String, Vec<u8>)>, Error>)
    ensures
        files_result_view(out) == files_of(tar_gz_bytes@),
{
    let compressed = tar_gz_bytes.len() >= 2 && tar_gz_bytes[0] == 0x1f && tar_gz_bytes[1] == 0x8b;
    let plain = if compressed {
        match gunzip(tar_gz_bytes.as_slice()) {
            Ok(plain) => plain,
            Err(message) => {
                return Err(Error::BuildFailure(message));
            },
        }
    } else {
        tar_gz_bytes
    };
    match read_entries(plain.as_slice()) {
        Ok(slots) => Ok(extract_files(slots)),
        Err(message) => Err(Error::BuildFailure(message)),
    }
}

/// A copy of a list of named files.
pub fn clone_files(files: &Vec<(String, Vec<u8>)>) -> (out: Vec<(String, Vec<u8>)>)
    ensures
        files_view(out@) == files_view(files@),
{
    let mut out: Vec<(String, Vec<u8>)> = Vec::new();
    let mut i: usize = 0;
    while i < files.len()
        invariant
            i <= files.len(),
            files_view(out@) == files_view(files@).take(i as int),
        decreases files.len() - i,
    {
        let ghost before = files_view(out@);
        let name = files[i].0.clone();
        let content = files[i].1.clone();
        assert(content@ =~= files@[i as int].1@);
        out.push((name, content));
        assert(files_view(out@) =~= before.push((name@, content@)));
        assert(files_view(out@) =~= files_view(files@).take(i + 1));
        i += 1;
    }
    assert(files_view(files@).take(files.len() as int) =~= files_view(files@));
    out
}

} // verus!
