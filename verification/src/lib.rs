//! In-memory ZIP archive builder.
//!
//! Callers construct a [`WaZip`], add named file and directory entries one at
//! a time, and finish it once to obtain the complete archive as a byte
//! buffer. The DEFLATE/ZIP binary encoding itself is done by the `zip` crate;
//! this library owns the builder's state machine, the compression-level
//! handling and the error surface, all of which are verified.

use vstd::prelude::*;

pub mod builder;
pub mod encoder;

pub use builder::WaZip;
pub use builder::WaZipError;
pub use builder::greet;

verus! {

/// Effective compression level for a requested level: a missing level
/// defaults to 6, and a present one is clamped into `[0, 9]`.
pub open spec fn effective_level(requested: Option<i32>) -> int {
    match requested {
        Some(l) => if l < 0 { 0 } else if l > 9 { 9 } else { l as int },
        None => 6,
    }
}

/// Model of a recorded file entry: its archive name, its uncompressed data,
/// and the mark that it is not a directory.
pub open spec fn file_entry(name: Seq<char>, data: Seq<u8>) -> (Seq<char>, Seq<u8>, bool) {
    (name, data, false)
}

/// Model of a recorded directory entry under the archive name the encoder
/// gives it (a trailing slash is appended when missing); it carries no data.
pub open spec fn dir_entry(name: Seq<char>) -> (Seq<char>, Seq<u8>, bool) {
    (encoder::dir_entry_name(name), Seq::empty(), true)
}

/// The effective compression level always lies in `[0, 9]`: a requested
/// level below 0 clamps to 0, one above 9 clamps to 9, one already in range
/// is kept as it is, and a missing one defaults to 6.
pub proof fn lemma_effective_level_clamps(requested: Option<i32>)
    ensures
        0 <= effective_level(requested) <= 9,
        requested matches Some(l) ==> (l < 0 ==> effective_level(requested) == 0) && (l > 9
            ==> effective_level(requested) == 9) && (0 <= l <= 9 ==> effective_level(requested)
            == l as int),
        requested is None ==> effective_level(requested) == 6,
{
}

/// The UTF-8 encoding of a character sequence takes at most four bytes per
/// character.
pub proof fn lemma_encode_utf8_len(chars: Seq<char>)
    ensures
        vstd::utf8::encode_utf8(chars).len() <= 4 * chars.len(),
    decreases chars.len(),
{
    if chars.len() > 0 {
        lemma_encode_utf8_len(chars.drop_first());
        assert(vstd::utf8::encode_scalar(chars[0] as u32).len() <= 4);
    }
}

/// Adding an entry is append-only: the recorded entries grow by exactly the
/// new entry at the end, and every earlier entry keeps its place, its name
/// and its data. Together with the contracts of the add operations this
/// gives the round-trip shape of the archive model: after a run of
/// successful adds the recorded entries are exactly the added ones, in
/// order, with no extras.
pub proof fn lemma_add_is_append_only(
    entries: Seq<(Seq<char>, Seq<u8>, bool)>,
    entry: (Seq<char>, Seq<u8>, bool),
)
    ensures
        entries.push(entry).len() == entries.len() + 1,
        entries.push(entry)[entries.len() as int] == entry,
        forall|i: int| 0 <= i < entries.len() ==> entries.push(entry)[i] == entries[i],
{
}

} // verus!
