//! The verified archive builder: entry lifecycle, level handling, errors.

use vstd::prelude::*;

use crate::effective_level;
use crate::file_entry;
use crate::dir_entry;
use crate::encoder::writer_entries;
use crate::encoder::writer_open;
use crate::encoder::entry_method_is_deflate;
use crate::encoder::entry_compression_level;
use crate::encoder::entry_unix_permissions;
use crate::encoder::archive_bytes;
use crate::encoder::ENTRY_DATA_LIMIT;
use crate::encoder::zw_new;
use crate::encoder::zw_start_file;
use crate::encoder::zw_write_all;
use crate::encoder::zw_add_directory;
use crate::encoder::zw_finish;
use crate::encoder::zip_error_message;
use crate::encoder::io_error_message;

verus! {

/// A failure of one phase of archive construction. Each variant names the
/// phase; the carried message is the collaborator's own description of the
/// failure.
#[derive(Debug)]
pub enum WaZipError {
    /// The encoder rejected starting a new file entry.
    OpenEntryFailed { message: String },
    /// Writing the entry's bytes failed.
    WriteFailed { message: String },
    /// Registering a directory entry failed.
    AddDirectoryFailed { message: String },
    /// Writing the central directory at finalization failed.
    FinishFailed { message: String },
    /// The builder was used again after `finish` was called.
    AlreadyFinished,
}

impl WaZipError {
    /// The short tag of the failing phase.
    pub open spec fn tag_spec(self) -> Seq<char> {
        match self {
            WaZipError::OpenEntryFailed { .. } => "start_file"@,
            WaZipError::WriteFailed { .. } => "write"@,
            WaZipError::AddDirectoryFailed { .. } => "add_directory"@,
            WaZipError::FinishFailed { .. } => "finish"@,
            WaZipError::AlreadyFinished => "already_finished"@,
        }
    }

    /// The collaborator's description of the failure; empty where no
    /// collaborator was involved.
    pub open spec fn message_spec(self) -> Seq<char> {
        match self {
            WaZipError::OpenEntryFailed { message } => message@,
            WaZipError::WriteFailed { message } => message@,
            WaZipError::AddDirectoryFailed { message } => message@,
            WaZipError::FinishFailed { message } => message@,
            WaZipError::AlreadyFinished => ""@,
        }
    }

    /// A short tag identifying the phase that failed.
    pub fn tag(&self) -> (r: &'static str)
        ensures
            r@ == self.tag_spec(),
    {
        match self {
            WaZipError::OpenEntryFailed { .. } => "start_file",
            WaZipError::WriteFailed { .. } => "write",
            WaZipError::AddDirectoryFailed { .. } => "add_directory",
            WaZipError::FinishFailed { .. } => "finish",
            WaZipError::AlreadyFinished => "already_finished",
        }
    }

    /// The underlying failure's description text.
    pub fn message(&self) -> (r: &str)
        ensures
            r@ == self.message_spec(),
    {
        match self {
            WaZipError::OpenEntryFailed { message } => message.as_str(),
            WaZipError::WriteFailed { message } => message.as_str(),
            WaZipError::AddDirectoryFailed { message } => message.as_str(),
            WaZipError::FinishFailed { message } => message.as_str(),
            WaZipError::AlreadyFinished => "",
        }
    }
}

/// An in-memory ZIP archive under construction.
///
/// The recorded entries are modelled by [`WaZip::entries`]: the sequence of
/// `(name, uncompressed data, is_dir)` triples recorded so far, in the order
/// they were added.
pub struct WaZip {
    writer: crate::encoder::EncoderWriter,
    level: u8,
    finished: bool,
}

impl WaZip {
    /// The entries recorded so far, in order of addition.
    pub closed spec fn entries(self) -> Seq<(Seq<char>, Seq<u8>, bool)> {
        writer_entries(self.writer)
    }

    /// The compression level applied to every entry.
    pub closed spec fn spec_level(self) -> int {
        self.level as int
    }

    /// Whether `finish` has been called.
    pub closed spec fn is_finished(self) -> bool {
        self.finished
    }

    /// Well-formedness: the stored compression level lies in `[0, 9]`.
    pub closed spec fn wf(self) -> bool {
        self.level <= 9
    }

    /// The builder can accept more work and is owed success: it is not
    /// finished, the encoder's writer is open, the shared entry options are
    /// intact — method Deflate, the clamped level, unix permissions 0o755 —
    /// and the entry still open, if any, is within the encoder's per-entry
    /// size bound. `new` establishes this, every successful operation
    /// within the size bound preserves it, and a failed operation forfeits
    /// it (the builder is then unspecified but never corrupts the host).
    pub closed spec fn ready(self) -> bool {
        &&& !self.finished
        &&& writer_open(self.writer)
        &&& entry_method_is_deflate(self.writer)
        &&& entry_compression_level(self.writer) == self.level as int
        &&& self.level <= 9
        &&& entry_unix_permissions(self.writer) == 0o755
        &&& (writer_entries(self.writer).len() > 0 ==> writer_entries(
            self.writer,
        ).last().1.len() <= ENTRY_DATA_LIMIT)
    }

    /// Creates a builder over an empty buffer. A missing compression level
    /// defaults to 6; a given one is clamped into `[0, 9]` silently. Never
    /// fails.
    pub fn new(compression_level: Option<i32>) -> (r: WaZip)
        ensures
            r.spec_level() == effective_level(compression_level),
            r.entries() == Seq::<(Seq<char>, Seq<u8>, bool)>::empty(),
            !r.is_finished(),
            r.wf(),
            r.ready(),
    {
        let level: u8 = match compression_level {
            Some(l) => if l < 0 {
                0
            } else if l > 9 {
                9
            } else {
                l as u8
            },
            None => 6,
        };
        let writer = zw_new(level, 0o755);
        proof {
            assert((0o755u32 & 0o777u32) == 0o755u32) by (bit_vector);
        }
        WaZip { writer, level, finished: false }
    }

    /// The compression level this builder applies, as clamped at
    /// construction.
    pub fn compression_level(&self) -> (r: u8)
        ensures
            r as int == self.spec_level(),
    {
        self.level
    }

    /// Opens a new file entry named `name` and writes all of `data` into it.
    /// On success the entry is recorded after the existing ones, and on a
    /// ready builder with data within the encoder's size bound success is
    /// guaranteed. On an encoder failure the error names the phase that
    /// failed and the recorded entries are unspecified. After `finish` the
    /// builder refuses further adds.
    pub fn add_file(&mut self, name: &str, data: &[u8]) -> (r: Result<(), WaZipError>)
        ensures
            old(self).is_finished() ==> (r matches Err(e) && e is AlreadyFinished && *final(self)
                == *old(self)),
            final(self).is_finished() == old(self).is_finished(),
            final(self).spec_level() == old(self).spec_level(),
            !old(self).is_finished() && r is Ok ==> final(self).entries() == old(
                self,
            ).entries().push(file_entry(name@, data@)),
            !old(self).is_finished() ==> (r matches Err(e) ==> e is OpenEntryFailed
                || e is WriteFailed),
            old(self).ready() && data@.len() <= ENTRY_DATA_LIMIT ==> (r is Ok
                && final(self).ready()),
    {
        if self.finished {
            return Err(WaZipError::AlreadyFinished);
        }
        let ghost e0 = self.entries();
        match zw_start_file(&mut self.writer, name) {
            Ok(_) => {}
            Err(e) => {
                let message = zip_error_message(&e);
                return Err(WaZipError::OpenEntryFailed { message });
            }
        }
        let ghost e1 = self.entries();
        match zw_write_all(&mut self.writer, data) {
            Ok(_) => {}
            Err(e) => {
                let message = io_error_message(&e);
                return Err(WaZipError::WriteFailed { message });
            }
        }
        proof {
            assert(e1 == e0.push((name@, Seq::<u8>::empty(), false)));
            if data@.len() == 0 {
                assert(data@ =~= Seq::<u8>::empty());
                assert(self.entries() == e0.push(file_entry(name@, data@)));
            } else {
                assert(Seq::<u8>::empty() + data@ =~= data@);
                assert(self.entries() =~= e0.push(file_entry(name@, data@)));
            }
            assert(self.entries().last() == file_entry(name@, data@));
        }
        Ok(())
    }

    /// Encodes `text` as UTF-8 and adds it as the file entry `name`; exactly
    /// `add_file` on the UTF-8 bytes of `text`.
    pub fn add_file_string(&mut self, name: &str, text: &str) -> (r: Result<(), WaZipError>)
        ensures
            old(self).is_finished() ==> (r matches Err(e) && e is AlreadyFinished && *final(self)
                == *old(self)),
            final(self).is_finished() == old(self).is_finished(),
            final(self).spec_level() == old(self).spec_level(),
            !old(self).is_finished() && r is Ok ==> final(self).entries() == old(
                self,
            ).entries().push(file_entry(name@, vstd::utf8::encode_utf8(text@))),
            !old(self).is_finished() ==> (r matches Err(e) ==> e is OpenEntryFailed
                || e is WriteFailed),
            old(self).ready() && vstd::utf8::encode_utf8(text@).len() <= ENTRY_DATA_LIMIT ==> (
            r is Ok && final(self).ready()),
            old(self).ready() && 4 * text@.len() <= ENTRY_DATA_LIMIT ==> (r is Ok
                && final(self).ready()),
    {
        proof {
            crate::lemma_encode_utf8_len(text@);
        }
        self.add_file(name, text.as_bytes())
    }

    /// Adds a file entry from a host binary buffer whose contents were
    /// already copied into bytes at the interop boundary; exactly `add_file`
    /// on those bytes.
    pub fn add_file_array_buffer(&mut self, name: &str, data: &[u8]) -> (r: Result<
        (),
        WaZipError,
    >)
        ensures
            old(self).is_finished() ==> (r matches Err(e) && e is AlreadyFinished && *final(self)
                == *old(self)),
            final(self).is_finished() == old(self).is_finished(),
            final(self).spec_level() == old(self).spec_level(),
            !old(self).is_finished() && r is Ok ==> final(self).entries() == old(
                self,
            ).entries().push(file_entry(name@, data@)),
            !old(self).is_finished() ==> (r matches Err(e) ==> e is OpenEntryFailed
                || e is WriteFailed),
            old(self).ready() && data@.len() <= ENTRY_DATA_LIMIT ==> (r is Ok
                && final(self).ready()),
    {
        self.add_file(name, data)
    }

    /// Adds a directory entry named `name` (the encoder appends `/` when the
    /// name does not already end in a slash); a directory entry carries no
    /// data, and on a ready builder success is guaranteed. After `finish`
    /// the builder refuses further adds.
    pub fn add_directory(&mut self, name: &str) -> (r: Result<(), WaZipError>)
        ensures
            old(self).is_finished() ==> (r matches Err(e) && e is AlreadyFinished && *final(self)
                == *old(self)),
            final(self).is_finished() == old(self).is_finished(),
            final(self).spec_level() == old(self).spec_level(),
            !old(self).is_finished() && r is Ok ==> final(self).entries() == old(
                self,
            ).entries().push(dir_entry(name@)),
            !old(self).is_finished() ==> (r matches Err(e) ==> e is AddDirectoryFailed),
            old(self).ready() ==> (r is Ok && final(self).ready()),
    {
        if self.finished {
            return Err(WaZipError::AlreadyFinished);
        }
        match zw_add_directory(&mut self.writer, name) {
            Ok(_) => Ok(()),
            Err(e) => {
                let message = zip_error_message(&e);
                Err(WaZipError::AddDirectoryFailed { message })
            }
        }
    }

    /// Finalizes the archive: writes the central directory and end record
    /// and returns the complete buffer — the archive bytes of exactly the
    /// recorded entries, under the clamped level and unix permissions
    /// 0o755. On a ready builder success is guaranteed. Terminal: whether
    /// it succeeds or fails, the builder counts as finished, and every
    /// later call — including a second `finish` — returns
    /// `AlreadyFinished`.
    pub fn finish(&mut self) -> (r: Result<Vec<u8>, WaZipError>)
        ensures
            old(self).is_finished() ==> (r matches Err(e) && e is AlreadyFinished && *final(self)
                == *old(self)),
            !old(self).is_finished() ==> final(self).is_finished(),
            final(self).spec_level() == old(self).spec_level(),
            final(self).entries() == old(self).entries(),
            !old(self).is_finished() ==> (r matches Err(e) ==> e is FinishFailed),
            old(self).ready() ==> (r matches Ok(bytes) && bytes@ == archive_bytes(
                old(self).entries(),
                old(self).spec_level(),
                0o755,
            )),
    {
        if self.finished {
            return Err(WaZipError::AlreadyFinished);
        }
        self.finished = true;
        match zw_finish(&mut self.writer) {
            Ok(bytes) => Ok(bytes),
            Err(e) => {
                let message = zip_error_message(&e);
                Err(WaZipError::FinishFailed { message })
            }
        }
    }
}

/// Demo hook for the host: builds a throwaway archive builder at the
/// default-equivalent level.
pub fn greet() {
    let _builder = WaZip::new(Some(6));
}

} // verus!
