//! From an outline to the bytes of a `.pptx` file, and the file's name.
use vstd::prelude::*;
use vstd::utf8::encode_utf8;
use crate::archive::{entries_fit, entries_of, stored_archive, write_archive, ArchiveError};
use crate::model::{PresentationInput, PresentationModel, MAX_SLIDES};
use crate::package::{build_package, package_len, part_at};
use crate::text::{escape_text, lemma_escape_plain, plain_text, push_char};

verus! {

/// The archive entries of the package of `p` made at time `stamp`.
pub open spec fn package_entries(p: PresentationModel, stamp: Seq<char>) -> Seq<(Seq<char>, Seq<u8>)> {
    Seq::new(
        package_len(p.slides.len()),
        |j: int| (part_at(p, stamp, j).0, encode_utf8(part_at(p, stamp, j).1)),
    )
}

/// The bytes of the `.pptx` file for `input`, with `timestamp` as its
/// creation and modification time. It succeeds whenever every part fits in
/// a ZIP entry.
pub fn package_presentation(input: &PresentationInput, timestamp: &str) -> (r: Result<
    Vec<u8>,
    ArchiveError,
>)
    requires
        input.slides@.len() <= MAX_SLIDES,
    ensures
        r is Ok ==> r->Ok_0@ == stored_archive(package_entries(input@, timestamp@)),
        entries_fit(package_entries(input@, timestamp@)) ==> r is Ok,
{
    let parts = build_package(input, timestamp);
    assert(entries_of(parts@) =~= package_entries(input@, timestamp@)) by {
        assert forall|j: int| 0 <= j < parts@.len() implies #[trigger] entries_of(parts@)[j]
            == package_entries(input@, timestamp@)[j] by {
            assert(parts@[j]@ == part_at(input@, timestamp@, j));
        }
    }
    write_archive(&parts)
}

/// The characters an RFC 3339 timestamp is written with: at least one, each
/// a digit or one of `- + : . T`.
pub open spec fn timestamp_chars(s: Seq<char>) -> bool {
    &&& s.len() >= 1
    &&& forall|i: int|
        0 <= i < s.len() ==> ('0' <= #[trigger] s[i] && s[i] <= '9') || s[i] == '-' || s[i] == '+'
            || s[i] == ':' || s[i] == '.' || s[i] == 'T'
}

/// Relies on chrono::Local::now and chrono::DateTime::to_rfc3339: the
/// current local time in RFC 3339 form, which chrono writes with digits,
/// signs, `:`, `.` and `T` alone.
#[verifier::external_body]
fn now_rfc3339() -> (r: String)
    ensures
        timestamp_chars(r@),
{
    chrono::Local::now().to_rfc3339()
}

/// The bytes of the `.pptx` file for `input`, stamped with the current time:
/// for the time read, the file's package, which it returns whenever every
/// part fits in a ZIP entry. The time needs no escaping, so the core
/// properties carry it as read.
pub fn create_presentation(input: &PresentationInput) -> (r: Result<Vec<u8>, ArchiveError>)
    requires
        input.slides@.len() <= MAX_SLIDES,
    ensures
        exists|stamp: Seq<char>|
            {
                &&& timestamp_chars(stamp)
                &&& escape_text(stamp) == stamp
                &&& r is Ok ==> r->Ok_0@ == stored_archive(#[trigger] package_entries(input@, stamp))
                &&& entries_fit(package_entries(input@, stamp)) ==> r is Ok
            },
{
    let stamp = now_rfc3339();
    proof {
        assert(plain_text(stamp@));
        lemma_escape_plain(stamp@);
    }
    let r = package_presentation(input, stamp.as_str());
    assert(r is Ok ==> r->Ok_0@ == stored_archive(package_entries(input@, stamp@)));
    r
}

/// The prefix of every output file name.
pub const FILE_PREFIX: &'static str = "PanicPoint_";

/// The extension of every output file name.
pub const FILE_EXTENSION: &'static str = ".pptx";

/// The title with each space replaced by an underscore.
pub open spec fn underscore_spaces(title: Seq<char>) -> Seq<char> {
    title.map_values(|c: char| if c == ' ' { '_' } else { c })
}

/// The name of the file a presentation titled `title` is saved under.
pub fn output_file_name(title: &str) -> (r: String)
    ensures
        r@ == FILE_PREFIX@ + underscore_spaces(title@) + FILE_EXTENSION@,
{
    let mut r = String::from_str(FILE_PREFIX);
    let ghost start = r@;
    let len = title.unicode_len();
    let mut i: usize = 0;
    while i < len
        invariant
            len == title@.len(),
            i <= len,
            r@ == start + underscore_spaces(title@.subrange(0, i as int)),
        decreases len - i,
    {
        let c = title.get_char(i);
        if c == ' ' {
            push_char(&mut r, '_');
        } else {
            push_char(&mut r, c);
        }
        assert(underscore_spaces(title@.subrange(0, i + 1)) =~= underscore_spaces(
            title@.subrange(0, i as int),
        ).push(if c == ' ' { '_' } else { c }));
        i = i + 1;
    }
    assert(title@.subrange(0, len as int) =~= title@);
    r.append(FILE_EXTENSION);
    r
}

} // verus!
