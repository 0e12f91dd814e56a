//! Trusted boundary to the external ZIP-format encoder (the `zip` crate).
//!
//! The builder's bookkeeping is verified against the contracts below; the
//! binary encoding itself (local headers, DEFLATE streams, CRC32, central
//! directory) is the `zip` crate's work and is not re-proved here. The
//! encoder state is modelled by uninterpreted spec functions over the opaque
//! [`EncoderWriter`]: the recorded entries ([`writer_entries`]), whether the
//! writer still accepts work ([`writer_open`]), and the shared per-entry
//! options it was built with ([`entry_method_is_deflate`],
//! [`entry_compression_level`], [`entry_unix_permissions`]).

use vstd::prelude::*;
use std::io::Cursor;
use std::io::Write;

verus! {

/// Owns the `zip` crate's writer over the growable in-memory buffer,
/// together with the per-entry options reused for every entry. Both are held
/// in hidden fields: Verus refuses a declaration of `zip::ZipWriter` under
/// its own generic bounds, so the whole struct is opaque and every access
/// goes through the trusted functions below.
#[verifier::external_body]
pub struct EncoderWriter {
    inner: zip::ZipWriter<std::io::Cursor<Vec<u8>>>,
    options: zip::write::FileOptions,
}

#[verifier::external_type_specification]
#[verifier::external_body]
pub struct ExZipError(zip::result::ZipError);

#[verifier::external_type_specification]
#[verifier::external_body]
pub struct ExIoError(std::io::Error);

/// The entries a writer has recorded so far: for each entry, its archive
/// name, its uncompressed payload, and whether it is a directory entry.
pub uninterp spec fn writer_entries(w: EncoderWriter) -> Seq<(Seq<char>, Seq<u8>, bool)>;

/// Whether the writer still accepts entries. `finish` closes it; a failed
/// operation may also close it.
pub uninterp spec fn writer_open(w: EncoderWriter) -> bool;

/// Whether the stored per-entry options carry the Deflate compression
/// method.
pub uninterp spec fn entry_method_is_deflate(w: EncoderWriter) -> bool;

/// The compression level held in the stored per-entry options.
pub uninterp spec fn entry_compression_level(w: EncoderWriter) -> int;

/// The unix permission bits held in the stored per-entry options.
pub uninterp spec fn entry_unix_permissions(w: EncoderWriter) -> int;

/// The complete archive byte stream that `zip::ZipWriter::finish` emits for
/// the recorded entries under the given compression level and unix
/// permission bits. With this encoder the output is a pure function of
/// these: entry timestamps are a fixed default (the crate's `time` feature
/// is off) and the DEFLATE streams are deterministic for a fixed level.
pub uninterp spec fn archive_bytes(
    entries: Seq<(Seq<char>, Seq<u8>, bool)>,
    level: int,
    unix_permissions: int,
) -> Seq<u8>;

/// The stored per-entry options are unchanged between two writer states; no
/// trusted function below ever alters them after construction.
pub open spec fn same_entry_options(a: EncoderWriter, b: EncoderWriter) -> bool {
    &&& entry_method_is_deflate(b) == entry_method_is_deflate(a)
    &&& entry_compression_level(b) == entry_compression_level(a)
    &&& entry_unix_permissions(b) == entry_unix_permissions(a)
}

/// A per-entry bound on uncompressed data under which this encoder cannot
/// fail for size reasons: without the large-file option it rejects an entry
/// once 0xFFFF_FFFF bytes are exceeded, counting the entry's compressed
/// form too, and DEFLATE may expand incompressible data by up to five bytes
/// per 64 KiB block. This bound leaves that expansion comfortable room.
pub const ENTRY_DATA_LIMIT: u64 = 0xFFF0_0000;

/// The archive name under which `zip::ZipWriter::add_directory` records a
/// directory: the given name, with `/` appended unless the name already ends
/// in `/` or `\`.
pub open spec fn dir_entry_name(name: Seq<char>) -> Seq<char> {
    if name.len() > 0 && (name.last() == '/' || name.last() == '\\') {
        name
    } else {
        name.push('/')
    }
}

/// Relies on `zip::ZipWriter::new` and the `zip::write::FileOptions`
/// builders (`default`, `compression_method`, `compression_level`,
/// `unix_permissions`): a fresh writer over an empty in-memory buffer has
/// recorded no entries and is open, and its stored options carry the
/// Deflate method, the given level, and the given permission bits masked to
/// `0o777`.
#[verifier::external_body]
pub(crate) fn zw_new(level: u8, unix_mode: u32) -> (w: EncoderWriter)
    ensures
        writer_entries(w) == Seq::<(Seq<char>, Seq<u8>, bool)>::empty(),
        writer_open(w),
        entry_method_is_deflate(w),
        entry_compression_level(w) == level as int,
        entry_unix_permissions(w) == (unix_mode & 0o777) as int,
{
    let options = zip::write::FileOptions::default()
        .compression_method(zip::CompressionMethod::Deflated)
        .compression_level(Some(level as i32))
        .unix_permissions(unix_mode);
    EncoderWriter { inner: zip::ZipWriter::new(Cursor::new(Vec::new())), options }
}

/// Relies on `zip::ZipWriter::start_file`: on success the previous entry is
/// closed and a new file entry named `name` is recorded, with no data yet,
/// under the name exactly as given. Over the in-memory buffer the call
/// succeeds whenever the writer is open, the stored options carry Deflate
/// at a level the encoder accepts (0 to 9), and the entry being closed is
/// within the encoder's size bound.
#[verifier::external_body]
pub(crate) fn zw_start_file(w: &mut EncoderWriter, name: &str) -> (r: Result<
    (),
    zip::result::ZipError,
>)
    ensures
        r is Ok ==> writer_entries(*final(w)) == writer_entries(*old(w)).push(
            (name@, Seq::<u8>::empty(), false),
        ),
        r is Ok ==> writer_open(*old(w)) && writer_open(*final(w)),
        same_entry_options(*old(w), *final(w)),
        writer_open(*old(w)) && entry_method_is_deflate(*old(w)) && 0 <= entry_compression_level(
            *old(w),
        ) <= 9 && (writer_entries(*old(w)).len() > 0 ==> writer_entries(
            *old(w),
        ).last().1.len() <= ENTRY_DATA_LIMIT) ==> r is Ok,
{
    w.inner.start_file(name, w.options)
}

/// Relies on the `std::io::Write` impl of `zip::ZipWriter` (via
/// `write_all`): on success with a non-empty buffer, a file entry was open
/// — it is the last recorded entry — and the buffer was appended to its
/// data; an empty buffer is written without touching the writer. The call
/// succeeds whenever the last recorded entry is an open file and its data
/// stays within the encoder's size bound.
#[verifier::external_body]
pub(crate) fn zw_write_all(w: &mut EncoderWriter, data: &[u8]) -> (r: Result<(), std::io::Error>)
    ensures
        r is Ok && data@.len() == 0 ==> writer_entries(*final(w)) == writer_entries(*old(w)),
        r is Ok && data@.len() > 0 ==> writer_entries(*old(w)).len() > 0
            && writer_entries(*old(w)).last().2 == false
            && writer_entries(*final(w)) == writer_entries(*old(w)).update(
                writer_entries(*old(w)).len() - 1,
                (
                    writer_entries(*old(w)).last().0,
                    writer_entries(*old(w)).last().1 + data@,
                    false,
                ),
            ),
        r is Ok ==> writer_open(*final(w)) == writer_open(*old(w)),
        same_entry_options(*old(w), *final(w)),
        data@.len() == 0 ==> r is Ok,
        writer_open(*old(w)) && writer_entries(*old(w)).len() > 0 && writer_entries(
            *old(w),
        ).last().2 == false && writer_entries(*old(w)).last().1.len() + data@.len()
            <= ENTRY_DATA_LIMIT ==> r is Ok,
{
    w.inner.write_all(data)
}

/// Relies on `zip::ZipWriter::add_directory`: on success the previous entry
/// is closed and a directory entry is recorded under the given name with a
/// trailing slash appended when missing (see [`dir_entry_name`]); a
/// directory entry carries no data. Over the in-memory buffer the call
/// succeeds whenever the writer is open and the entry being closed is
/// within the encoder's size bound.
#[verifier::external_body]
pub(crate) fn zw_add_directory(w: &mut EncoderWriter, name: &str) -> (r: Result<
    (),
    zip::result::ZipError,
>)
    ensures
        r is Ok ==> writer_entries(*final(w)) == writer_entries(*old(w)).push(
            (dir_entry_name(name@), Seq::<u8>::empty(), true),
        ),
        r is Ok ==> writer_open(*old(w)) && writer_open(*final(w)),
        same_entry_options(*old(w), *final(w)),
        writer_open(*old(w)) && (writer_entries(*old(w)).len() > 0 ==> writer_entries(
            *old(w),
        ).last().1.len() <= ENTRY_DATA_LIMIT) ==> r is Ok,
{
    w.inner.add_directory(name, w.options)
}

/// Relies on `zip::ZipWriter::finish` and `std::io::Cursor::into_inner`: on
/// success the central directory and end record are written and the
/// complete archive buffer — [`archive_bytes`] of the recorded entries and
/// stored options — is handed back, and the writer is closed. Finalization
/// never alters the recorded entries. Over the in-memory buffer the call
/// succeeds whenever the writer is open and the entry being closed is
/// within the encoder's size bound.
#[verifier::external_body]
pub(crate) fn zw_finish(w: &mut EncoderWriter) -> (r: Result<Vec<u8>, zip::result::ZipError>)
    ensures
        r matches Ok(bytes) ==> bytes@ == archive_bytes(
            writer_entries(*old(w)),
            entry_compression_level(*old(w)),
            entry_unix_permissions(*old(w)),
        ),
        r is Ok ==> !writer_open(*final(w)),
        writer_entries(*final(w)) == writer_entries(*old(w)),
        same_entry_options(*old(w), *final(w)),
        writer_open(*old(w)) && (writer_entries(*old(w)).len() > 0 ==> writer_entries(
            *old(w),
        ).last().1.len() <= ENTRY_DATA_LIMIT) ==> r is Ok,
{
    match w.inner.finish() {
        Ok(cursor) => Ok(cursor.into_inner()),
        Err(e) => Err(e),
    }
}

/// Relies on the `std::fmt::Display` impl of `zip::result::ZipError` for the
/// collaborator's description of a failure.
#[verifier::external_body]
pub(crate) fn zip_error_message(e: &zip::result::ZipError) -> (r: String)
{
    e.to_string()
}

/// Relies on the `std::fmt::Display` impl of `std::io::Error` for the
/// collaborator's description of a failure.
#[verifier::external_body]
pub(crate) fn io_error_message(e: &std::io::Error) -> (r: String)
{
    e.to_string()
}

} // verus!
