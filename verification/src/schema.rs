//! The event schema: the fixed-layout record shared by both sides of the
//! kernel/user-space boundary.

use crate::strbuf::{cstr, NAME_BUF_LEN, PATH_BUF_LEN};
use vstd::prelude::*;

verus! {

/// Total size of a serialized record in bytes: the discriminator byte,
/// the device id, the outcome code, and the four string fields, in that
/// order. The layout is a binary contract: both sides of the boundary
/// agree on it byte for byte.
pub const RECORD_LEN: usize = 1 + 4 + 4 + PATH_BUF_LEN + NAME_BUF_LEN + PATH_BUF_LEN
    + NAME_BUF_LEN;

/// Kind of filesystem mutation an event reports. It determines which fields
/// of the record are meaningful: the target pair is populated only for
/// `Rename`.
#[derive(Clone, Copy, Debug, PartialEq, Eq, Structural)]
pub enum EventType {
    /// A path was unlinked (deleted).
    Unlink,
    /// A path was created.
    Create,
    /// A path was renamed; the record carries both the source and the
    /// target pair.
    Rename,
}

/// The wire record. Each byte buffer is pre-sized to its full capacity and
/// holds a null-terminated string; bytes past the terminator are stale and
/// carry no meaning.
pub struct FileEvent {
    /// Discriminator: which operation the record reports.
    pub event_type: EventType,
    /// Device id the event was captured against.
    pub target_dev: u32,
    /// Outcome code of the underlying operation; zero for success.
    pub ret_val: i32,
    /// Absolute path of the primary (source) object.
    pub src_path: Vec<u8>,
    /// Leaf name of the primary object.
    pub src_file: Vec<u8>,
    /// Destination path; the empty string unless `event_type` is `Rename`.
    pub trgt_path: Vec<u8>,
    /// Destination leaf name; the empty string unless `event_type` is
    /// `Rename`.
    pub trgt_file: Vec<u8>,
}

impl FileEvent {
    /// The record's binary contract: every buffer has exactly its declared
    /// capacity, so field offsets and the total size are fixed.
    pub open spec fn wf(self) -> bool {
        &&& self.src_path@.len() == PATH_BUF_LEN
        &&& self.src_file@.len() == NAME_BUF_LEN
        &&& self.trgt_path@.len() == PATH_BUF_LEN
        &&& self.trgt_file@.len() == NAME_BUF_LEN
    }

    /// The string meaning of each buffer: its bytes up to the first zero.
    pub open spec fn src_path_str(self) -> Seq<u8> {
        cstr(self.src_path@)
    }

    /// The stored source leaf name.
    pub open spec fn src_file_str(self) -> Seq<u8> {
        cstr(self.src_file@)
    }

    /// The stored destination path.
    pub open spec fn trgt_path_str(self) -> Seq<u8> {
        cstr(self.trgt_path@)
    }

    /// The stored destination leaf name.
    pub open spec fn trgt_file_str(self) -> Seq<u8> {
        cstr(self.trgt_file@)
    }

    /// A fresh, well-formed record with all fields blank.
    pub fn blank() -> (ev: FileEvent)
        ensures
            ev.wf(),
            ev.event_type == EventType::Unlink,
            ev.target_dev == 0,
            ev.ret_val == 0,
            ev.src_path_str() == Seq::<u8>::empty(),
            ev.src_file_str() == Seq::<u8>::empty(),
            ev.trgt_path_str() == Seq::<u8>::empty(),
            ev.trgt_file_str() == Seq::<u8>::empty(),
    {
        FileEvent {
            event_type: EventType::Unlink,
            target_dev: 0,
            ret_val: 0,
            src_path: crate::strbuf::zeroed_buf(PATH_BUF_LEN),
            src_file: crate::strbuf::zeroed_buf(NAME_BUF_LEN),
            trgt_path: crate::strbuf::zeroed_buf(PATH_BUF_LEN),
            trgt_file: crate::strbuf::zeroed_buf(NAME_BUF_LEN),
        }
    }
}

/// The decoded form of a record, as handed to the consumer: the string
/// fields are extracted, so no terminators or stale bytes remain.
pub struct DecodedEvent {
    /// Which operation the event reports.
    pub event_type: EventType,
    /// Device id the event was captured against.
    pub target_dev: u32,
    /// Outcome code of the underlying operation.
    pub ret_val: i32,
    /// Absolute path of the primary (source) object.
    pub src_path: Vec<u8>,
    /// Leaf name of the primary object.
    pub src_file: Vec<u8>,
    /// Destination path; empty unless the event is a rename.
    pub trgt_path: Vec<u8>,
    /// Destination leaf name; empty unless the event is a rename.
    pub trgt_file: Vec<u8>,
}

/// What a record emitted by a hook looks like for a given capture: the
/// discriminator, device and outcome are set, the source pair holds the
/// (possibly truncated) resolved strings, and the target pair holds the
/// resolved destination strings for a rename and the empty string
/// otherwise.
pub open spec fn fills(
    ev: FileEvent,
    et: EventType,
    dev: u32,
    src_path: Seq<u8>,
    src_file: Seq<u8>,
    trgt_path: Seq<u8>,
    trgt_file: Seq<u8>,
) -> bool {
    &&& ev.wf()
    &&& ev.event_type == et
    &&& ev.target_dev == dev
    &&& ev.ret_val == 0
    &&& ev.src_path_str() == crate::strbuf::truncated(src_path, PATH_BUF_LEN as int)
    &&& ev.src_file_str() == crate::strbuf::truncated(src_file, NAME_BUF_LEN as int)
    &&& ev.trgt_path_str() == crate::strbuf::truncated(trgt_path, PATH_BUF_LEN as int)
    &&& ev.trgt_file_str() == crate::strbuf::truncated(trgt_file, NAME_BUF_LEN as int)
}

} // verus!
