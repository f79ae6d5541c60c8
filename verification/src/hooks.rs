//! The hook handlers: one per monitored kernel entry point.
//!
//! A handler runs synchronously inside the syscall it observes, on the CPU
//! that issued it. It reads the device filter, resolves the directory
//! entries and paths the kernel supplied, filters by device, assembles the
//! outgoing record in the CPU's scratch slot, and publishes it. Every
//! kernel-object dereference is a fallible lookup, so the handler receives
//! each lookup's result as a plain value: a path that could not be
//! resolved, or an entry whose pointer was null, arrives as `None`.
//!
//! Critical policy: these hooks can deny the operation they observe by
//! returning a non-allow code, so every exit path — every failure branch
//! included — returns the allow code. An observability fault must never
//! block a legitimate filesystem operation; a lost event is acceptable, a
//! denied syscall is not.

use crate::codec::{encode, spec_encode};
use crate::filter::DeviceFilter;
use crate::schema::{fills, EventType, FileEvent};
use crate::scratch::ScratchSlot;
use crate::strbuf::{lemma_cstr_of_write, no_null, write_bounded, write_empty};
use crate::transport::Transport;
use vstd::prelude::*;

verus! {

/// The return code that lets the observed operation proceed.
pub const RET_ALLOW: i32 = 0;

/// What a hook sees of a directory entry once the kernel's pointer chains
/// have been walked: the owning device id, when the entry → inode →
/// superblock chain could be followed, and the entry's leaf name.
pub struct DentryArg {
    /// The owning filesystem's device id; `None` when a link of the chain
    /// was null, leaving the device unresolvable.
    pub device: Option<u32>,
    /// The bytes of the entry's name, without a terminator.
    pub name: Vec<u8>,
}

/// The device id behind an entry argument, when the entry was present and
/// its chain resolvable.
pub open spec fn dentry_device(dentry: Option<&DentryArg>) -> Option<u32> {
    match dentry {
        Some(da) => da.device,
        None => None,
    }
}

/// Whether the filter, set to `dev`, lets an entry through: only an entry
/// whose owning device resolved to exactly `dev` passes. A null entry, or
/// one whose chain could not be followed, is dropped — when the device
/// cannot be established the event is not published (fail-closed).
pub open spec fn device_passes(dev: u32, dentry: Option<&DentryArg>) -> bool {
    dentry_device(dentry) == Some(dev)
}

/// The captures on which the unlink hook publishes an event: a filter is
/// configured, the path resolved to a non-empty string, and the entry's
/// owning device resolved to the configured value.
pub open spec fn unlink_accepts(
    filter: Option<u32>,
    path: Option<&Vec<u8>>,
    dentry: Option<&DentryArg>,
) -> bool {
    &&& filter is Some
    &&& path is Some
    &&& path->Some_0@.len() > 0
    &&& device_passes(filter->Some_0, dentry)
}

/// The captures on which the rename hook publishes an event: besides the
/// unlink conditions on the source pair — judged on the source entry — the
/// destination path and the destination entry's name must both have
/// resolved to non-empty strings. A partial rename record is discarded
/// rather than emitted, since consumers key on the pair.
pub open spec fn rename_accepts(
    filter: Option<u32>,
    old_path: Option<&Vec<u8>>,
    old_dentry: Option<&DentryArg>,
    new_path: Option<&Vec<u8>>,
    new_dentry: Option<&DentryArg>,
) -> bool {
    &&& filter is Some
    &&& old_path is Some
    &&& old_path->Some_0@.len() > 0
    &&& device_passes(filter->Some_0, old_dentry)
    &&& new_path is Some
    &&& new_path->Some_0@.len() > 0
    &&& new_dentry is Some
    &&& new_dentry->Some_0.name@.len() > 0
}

/// The unlink (delete) hook. On a capture it accepts — one whose entry's
/// device resolved to the configured filter value — it fills the scratch
/// slot with an `Unlink` record, overwriting every meaningful field so
/// nothing stale from an earlier invocation leaks, and publishes its
/// serialized form; on any other capture it changes nothing. Either way it
/// returns the allow code.
pub fn lsm_path_unlink(
    filter: &DeviceFilter,
    slot: &mut ScratchSlot,
    transport: &mut Transport,
    path: Option<&Vec<u8>>,
    dentry: Option<&DentryArg>,
) -> (ret: i32)
    requires
        old(slot).wf(),
        old(transport).wf(),
        path is Some ==> no_null(path->Some_0@),
        dentry is Some ==> no_null(dentry->Some_0.name@),
    ensures
        ret == RET_ALLOW,
        final(slot).wf(),
        final(transport).wf(),
        !unlink_accepts(filter@, path, dentry) ==> *final(transport) == *old(transport)
            && *final(slot) == *old(slot),
        unlink_accepts(filter@, path, dentry) ==> ({
            let ev = final(slot).event;
            &&& fills(
                ev,
                EventType::Unlink,
                filter@->Some_0,
                path->Some_0@,
                dentry->Some_0.name@,
                Seq::<u8>::empty(),
                Seq::<u8>::empty(),
            )
            &&& Transport::publish_post(*old(transport), *final(transport), spec_encode(ev))
        }),
{
    let dev = match filter.get() {
        Some(d) => d,
        None => {
            return RET_ALLOW;
        },
    };
    let da = match dentry {
        Some(da) => da,
        None => {
            return RET_ALLOW;
        },
    };
    let d = match da.device {
        Some(d) => d,
        None => {
            return RET_ALLOW;
        },
    };
    if d != dev {
        return RET_ALLOW;
    }
    let p = match path {
        Some(p) => p,
        None => {
            return RET_ALLOW;
        },
    };
    if p.len() == 0 {
        return RET_ALLOW;
    }
    write_bounded(&mut slot.event.src_path, p);
    write_bounded(&mut slot.event.src_file, &da.name);
    write_empty(&mut slot.event.trgt_path);
    write_empty(&mut slot.event.trgt_file);
    slot.event.event_type = EventType::Unlink;
    slot.event.target_dev = dev;
    slot.event.ret_val = 0;
    proof {
        lemma_cstr_of_write(old(slot).event.src_path@, p@);
        lemma_cstr_of_write(old(slot).event.src_file@, da.name@);
    }
    let rec = encode(&slot.event);
    let _published = transport.publish(rec);
    RET_ALLOW
}

/// The rename hook. It resolves a second path/name pair for the
/// destination with the same bounded discipline, publishes a `Rename`
/// record only when both the source and the destination resolutions
/// succeeded, and returns the allow code on every path.
pub fn lsm_path_rename(
    filter: &DeviceFilter,
    slot: &mut ScratchSlot,
    transport: &mut Transport,
    old_path: Option<&Vec<u8>>,
    old_dentry: Option<&DentryArg>,
    new_path: Option<&Vec<u8>>,
    new_dentry: Option<&DentryArg>,
) -> (ret: i32)
    requires
        old(slot).wf(),
        old(transport).wf(),
        old_path is Some ==> no_null(old_path->Some_0@),
        old_dentry is Some ==> no_null(old_dentry->Some_0.name@),
        new_path is Some ==> no_null(new_path->Some_0@),
        new_dentry is Some ==> no_null(new_dentry->Some_0.name@),
    ensures
        ret == RET_ALLOW,
        final(slot).wf(),
        final(transport).wf(),
        !rename_accepts(filter@, old_path, old_dentry, new_path, new_dentry) ==> *final(transport)
            == *old(transport) && *final(slot) == *old(slot),
        rename_accepts(filter@, old_path, old_dentry, new_path, new_dentry) ==> ({
            let ev = final(slot).event;
            &&& fills(
                ev,
                EventType::Rename,
                filter@->Some_0,
                old_path->Some_0@,
                old_dentry->Some_0.name@,
                new_path->Some_0@,
                new_dentry->Some_0.name@,
            )
            &&& Transport::publish_post(*old(transport), *final(transport), spec_encode(ev))
        }),
{
    let dev = match filter.get() {
        Some(d) => d,
        None => {
            return RET_ALLOW;
        },
    };
    let oda = match old_dentry {
        Some(da) => da,
        None => {
            return RET_ALLOW;
        },
    };
    let d = match oda.device {
        Some(d) => d,
        None => {
            return RET_ALLOW;
        },
    };
    if d != dev {
        return RET_ALLOW;
    }
    let op = match old_path {
        Some(p) => p,
        None => {
            return RET_ALLOW;
        },
    };
    if op.len() == 0 {
        return RET_ALLOW;
    }
    let np = match new_path {
        Some(p) => p,
        None => {
            return RET_ALLOW;
        },
    };
    if np.len() == 0 {
        return RET_ALLOW;
    }
    let nd = match new_dentry {
        Some(d) => d,
        None => {
            return RET_ALLOW;
        },
    };
    if nd.name.len() == 0 {
        return RET_ALLOW;
    }
    write_bounded(&mut slot.event.src_path, op);
    write_bounded(&mut slot.event.trgt_path, np);
    write_bounded(&mut slot.event.src_file, &oda.name);
    write_bounded(&mut slot.event.trgt_file, &nd.name);
    slot.event.event_type = EventType::Rename;
    slot.event.target_dev = dev;
    slot.event.ret_val = 0;
    proof {
        lemma_cstr_of_write(old(slot).event.src_path@, op@);
        lemma_cstr_of_write(old(slot).event.trgt_path@, np@);
        lemma_cstr_of_write(old(slot).event.src_file@, oda.name@);
        lemma_cstr_of_write(old(slot).event.trgt_file@, nd.name@);
    }
    let rec = encode(&slot.event);
    let _published = transport.publish(rec);
    RET_ALLOW
}

/// An emitted event is a rename exactly when both target fields are
/// populated: every other event blanks the target pair, and a rename is
/// published only once both target strings resolved to something
/// non-empty.
pub proof fn lemma_rename_iff_target(
    ev: FileEvent,
    et: EventType,
    dev: u32,
    src_path: Seq<u8>,
    src_file: Seq<u8>,
    trgt_path: Seq<u8>,
    trgt_file: Seq<u8>,
)
    requires
        fills(ev, et, dev, src_path, src_file, trgt_path, trgt_file),
        et == EventType::Rename ==> trgt_path.len() > 0 && trgt_file.len() > 0,
        et != EventType::Rename ==> trgt_path.len() == 0 && trgt_file.len() == 0,
    ensures
        ev.event_type == EventType::Rename <==> (ev.trgt_path_str().len() > 0
            && ev.trgt_file_str().len() > 0),
{
}

/// An emitted event records the very device filter value it was captured
/// against.
pub proof fn lemma_captured_device(
    ev: FileEvent,
    et: EventType,
    dev: u32,
    src_path: Seq<u8>,
    src_file: Seq<u8>,
    trgt_path: Seq<u8>,
    trgt_file: Seq<u8>,
)
    requires
        fills(ev, et, dev, src_path, src_file, trgt_path, trgt_file),
    ensures
        ev.target_dev == dev,
{
}

/// Filtering law, unlink side: unless the entry's owning device id
/// resolved to exactly the configured filter value, the capture is never
/// accepted and no event of it is ever published. This covers a device
/// that resolved to another value, an entry whose chain could not be
/// followed, a null entry, and an unset filter alike.
pub proof fn lemma_device_filtering_unlink(
    filter: Option<u32>,
    path: Option<&Vec<u8>>,
    dentry: Option<&DentryArg>,
)
    requires
        filter is None || dentry_device(dentry) != filter,
    ensures
        !unlink_accepts(filter, path, dentry),
{
}

/// Filtering law, rename side: the same, judged on the source entry.
pub proof fn lemma_device_filtering_rename(
    filter: Option<u32>,
    old_path: Option<&Vec<u8>>,
    old_dentry: Option<&DentryArg>,
    new_path: Option<&Vec<u8>>,
    new_dentry: Option<&DentryArg>,
)
    requires
        filter is None || dentry_device(old_dentry) != filter,
    ensures
        !rename_accepts(filter, old_path, old_dentry, new_path, new_dentry),
{
}

/// Last-resort return of a hook invocation whose own machinery has failed:
/// the kernel is handed the allow code, never a denial, so a fault inside
/// the monitor cannot take down or block the operation it observes.
pub fn panic() -> (ret: i32)
    ensures
        ret == RET_ALLOW,
{
    RET_ALLOW
}

} // verus!
