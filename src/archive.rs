//! The archive writer: packs parts into a ZIP archive of stored
//! (uncompressed) entries, held in memory.
use vstd::prelude::*;
use crate::model::PackagePart;
use vstd::utf8::encode_utf8;

verus! {

#[verifier::external_type_specification]
#[verifier::external_body]
pub struct ExZipError(zip::result::ZipError);

#[verifier::external_type_specification]
#[verifier::external_body]
pub struct ExIoError(std::io::Error);

/// A ZIP archive under construction, written into a byte buffer.
#[verifier::external_body]
pub struct ZipBuffer {
    writer: zip::ZipWriter<std::io::Cursor<Vec<u8>>>,
}

/// The entries written so far into a [`ZipBuffer`], in order: each entry's
/// name and the bytes written to it.
pub uninterp spec fn zip_entries(w: ZipBuffer) -> Seq<(Seq<char>, Seq<u8>)>;

/// Whether a [`ZipBuffer`] is still open for writing: not finished, and every
/// entry within the size a ZIP entry without the large-file option can hold.
pub uninterp spec fn zip_open(w: ZipBuffer) -> bool;

/// The bytes of a finished archive of stored entries with the given names and
/// contents.
pub uninterp spec fn stored_archive(entries: Seq<(Seq<char>, Seq<u8>)>) -> Seq<u8>;

impl ZipBuffer {
    /// Relies on zip::ZipWriter::new over an empty std::io::Cursor: the
    /// archive starts open, with no entries.
    #[verifier::external_body]
    fn new() -> (r: ZipBuffer)
        ensures
            zip_entries(r) == Seq::<(Seq<char>, Seq<u8>)>::empty(),
            zip_open(r),
    {
        ZipBuffer { writer: zip::ZipWriter::new(std::io::Cursor::new(Vec::new())) }
    }

    /// Relies on zip::ZipWriter::start_file with the Stored method: on
    /// success a new, empty entry named `name` follows the earlier ones. On
    /// an open writer over an in-memory buffer it succeeds: it fails only
    /// on a closed writer, a write error of the buffer, or an entry over
    /// 4 GiB without the large-file option.
    #[verifier::external_body]
    fn start_entry(&mut self, name: &str) -> (r: Result<(), zip::result::ZipError>)
        ensures
            zip_open(*old(self)) ==> r is Ok && zip_open(*final(self)),
            r is Ok ==> zip_entries(*final(self)) == zip_entries(*old(self)).push(
                (name@, Seq::<u8>::empty()),
            ),
    {
        let options = zip::write::FileOptions::default().compression_method(
            zip::CompressionMethod::Stored,
        );
        self.writer.start_file(name, options)
    }

    /// Relies on std::io::Write::write_all for zip::ZipWriter: on success
    /// `data` is appended to the entry started last. On an open writer over
    /// an in-memory buffer it succeeds while that entry stays within
    /// `u32::MAX` bytes, the limit without the large-file option.
    #[verifier::external_body]
    fn write_data(&mut self, data: &[u8]) -> (r: Result<(), std::io::Error>)
        requires
            zip_entries(*old(self)).len() > 0,
        ensures
            zip_open(*old(self)) && zip_entries(*old(self)).last().1.len() + data@.len()
                <= u32::MAX ==> r is Ok && zip_open(*final(self)),
            r is Ok ==> zip_entries(*final(self)) == zip_entries(*old(self)).update(
                zip_entries(*old(self)).len() - 1,
                (
                    zip_entries(*old(self)).last().0,
                    zip_entries(*old(self)).last().1 + data@,
                ),
            ),
    {
        std::io::Write::write_all(&mut self.writer, data)
    }

    /// Relies on zip::ZipWriter::finish and std::io::Cursor::into_inner: on
    /// success the buffer holds the finished archive of the entries written.
    /// Without the crate's `time` feature every entry carries the same fixed
    /// modification time, so the bytes depend on the entries alone. On an
    /// open writer over an in-memory buffer it succeeds.
    #[verifier::external_body]
    fn finish(&mut self) -> (r: Result<Vec<u8>, zip::result::ZipError>)
        ensures
            zip_open(*old(self)) ==> r is Ok,
            r is Ok ==> r->Ok_0@ == stored_archive(zip_entries(*old(self))),
    {
        self.writer.finish().map(|c| c.into_inner())
    }
}

/// Why writing an archive failed, by phase.
pub enum ArchiveError {
    /// An entry could not be started.
    StartEntry(zip::result::ZipError),
    /// An entry's bytes could not be written.
    WriteEntry(std::io::Error),
    /// The central directory could not be written.
    Finalize(zip::result::ZipError),
}

/// The archive entries for a sequence of parts: each part's path, and its
/// text encoded as UTF-8.
pub open spec fn entries_of(parts: Seq<PackagePart>) -> Seq<(Seq<char>, Seq<u8>)> {
    parts.map_values(|p: PackagePart| (p.relative_path@, encode_utf8(p.text@)))
}

/// Every entry fits in a ZIP entry without the large-file option.
pub open spec fn entries_fit(entries: Seq<(Seq<char>, Seq<u8>)>) -> bool {
    forall|j: int| 0 <= j < entries.len() ==> (#[trigger] entries[j]).1.len() <= u32::MAX
}

/// Packs `parts`, in order, into a ZIP archive with one stored entry per part,
/// named by the part's path and holding its text. It succeeds whenever each
/// text fits in a ZIP entry; any failure ends the whole operation and names
/// the phase that failed.
pub fn write_archive(parts: &Vec<PackagePart>) -> (r: Result<Vec<u8>, ArchiveError>)
    ensures
        r is Ok ==> r->Ok_0@ == stored_archive(entries_of(parts@)),
        entries_fit(entries_of(parts@)) ==> r is Ok,
{
    let mut zip = ZipBuffer::new();
    let mut i: usize = 0;
    while i < parts.len()
        invariant
            i <= parts@.len(),
            zip_entries(zip) == entries_of(parts@).subrange(0, i as int),
            entries_fit(entries_of(parts@)) ==> zip_open(zip),
        decreases parts@.len() - i,
    {
        let part = &parts[i];
        match zip.start_entry(part.relative_path.as_str()) {
            Ok(()) => {},
            Err(e) => {
                return Err(ArchiveError::StartEntry(e));
            },
        }
        let bytes = part.text.as_str().as_bytes();
        proof {
            if entries_fit(entries_of(parts@)) {
                assert(entries_of(parts@)[i as int].1.len() <= u32::MAX);
                assert(zip_entries(zip).last().1.len() == 0);
            }
        }
        match zip.write_data(bytes) {
            Ok(()) => {},
            Err(e) => {
                return Err(ArchiveError::WriteEntry(e));
            },
        }
        assert(zip_entries(zip) =~= entries_of(parts@).subrange(0, i + 1));
        i = i + 1;
    }
    assert(entries_of(parts@).subrange(0, parts@.len() as int) =~= entries_of(parts@));
    match zip.finish() {
        Ok(bytes) => Ok(bytes),
        Err(e) => Err(ArchiveError::Finalize(e)),
    }
}

} // verus!
