//! Descriptions of kqueue events: the names of their filter and flags.

use vstd::prelude::*;

use crate::kqueue::{Filter, KEvent};

verus! {

/// The system a kqueue runs on, as far as the names of the flags differ.
#[derive(Copy, Clone, Debug, PartialEq, Eq)]
pub enum System {
    FreeBsd,
    NetBsd,
    OpenBsd,
    DragonFly,
    Apple,
}

/// The names in `table` of the bits set in `bits`, in the table's order.
pub open spec fn names_set(table: Seq<(u32, &'static str)>, bits: u32) -> Seq<&'static str>
    decreases table.len(),
{
    if table.len() == 0 {
        Seq::empty()
    } else {
        let rest = names_set(table.drop_last(), bits);
        if bits & table.last().0 != 0 {
            rest.push(table.last().1)
        } else {
            rest
        }
    }
}

/// The names in `table` of the bits set in `bits`, in the table's order.
fn set_names(table: &Vec<(u32, &'static str)>, bits: u32) -> (names: Vec<&'static str>)
    ensures
        names@ == names_set(table@, bits),
{
    let mut names: Vec<&'static str> = Vec::new();
    let mut i: usize = 0;
    while i < table.len()
        invariant
            i <= table@.len(),
            names@ == names_set(table@.subrange(0, i as int), bits),
        decreases table@.len() - i,
    {
        proof {
            assert(table@.subrange(0, i as int + 1).drop_last() =~= table@.subrange(0, i as int));
        }
        let (bit, name) = table[i];
        if bits & bit != 0 {
            names.push(name);
        }
        i += 1;
    }
    proof {
        assert(table@.subrange(0, table@.len() as int) =~= table@);
    }
    names
}

/// The `EV_*` flags of `system`, in the order they are named.
pub open spec fn spec_flag_table(system: System) -> Seq<(u32, &'static str)> {
    match system {
        System::FreeBsd => seq![(0x1u32, "EV_ADD"), (0x2u32, "EV_DELETE"), (0x4u32, "EV_ENABLE"), (0x8u32, "EV_DISABLE"), (0x10u32, "EV_ONESHOT"), (0x20u32, "EV_CLEAR"), (0x40u32, "EV_RECEIPT"), (0x80u32, "EV_DISPATCH"), (0x1000u32, "EV_DROP"), (0x2000u32, "EV_FLAG1"), (0x4000u32, "EV_ERROR"), (0x8000u32, "EV_EOF")],
        System::NetBsd => seq![(0x1u32, "EV_ADD"), (0x2u32, "EV_DELETE"), (0x4u32, "EV_ENABLE"), (0x8u32, "EV_DISABLE"), (0x10u32, "EV_ONESHOT"), (0x20u32, "EV_CLEAR"), (0x40u32, "EV_RECEIPT"), (0x80u32, "EV_DISPATCH"), (0x2000u32, "EV_FLAG1"), (0x4000u32, "EV_ERROR"), (0x8000u32, "EV_EOF")],
        System::OpenBsd => seq![(0x1u32, "EV_ADD"), (0x2u32, "EV_DELETE"), (0x4u32, "EV_ENABLE"), (0x8u32, "EV_DISABLE"), (0x10u32, "EV_ONESHOT"), (0x20u32, "EV_CLEAR"), (0x40u32, "EV_RECEIPT"), (0x80u32, "EV_DISPATCH"), (0x2000u32, "EV_FLAG1"), (0x4000u32, "EV_ERROR"), (0x8000u32, "EV_EOF")],
        System::DragonFly => seq![(0x1u32, "EV_ADD"), (0x2u32, "EV_DELETE"), (0x4u32, "EV_ENABLE"), (0x8u32, "EV_DISABLE"), (0x10u32, "EV_ONESHOT"), (0x20u32, "EV_CLEAR"), (0x40u32, "EV_RECEIPT"), (0x80u32, "EV_DISPATCH"), (0x2000u32, "EV_FLAG1"), (0x4000u32, "EV_ERROR"), (0x8000u32, "EV_EOF"), (0x1000u32, "EV_NODATA")],
        System::Apple => seq![(0x1u32, "EV_ADD"), (0x2u32, "EV_DELETE"), (0x4u32, "EV_ENABLE"), (0x8u32, "EV_DISABLE"), (0x10u32, "EV_ONESHOT"), (0x20u32, "EV_CLEAR"), (0x40u32, "EV_RECEIPT"), (0x80u32, "EV_DISPATCH"), (0x2000u32, "EV_FLAG1"), (0x4000u32, "EV_ERROR"), (0x8000u32, "EV_EOF"), (0x2000u32, "EV_OOBAND")],
    }
}

/// The `EV_*` flags of `system`, in the order they are named.
fn flag_table(system: System) -> (t: Vec<(u32, &'static str)>)
    ensures
        t@ == spec_flag_table(system),
{
    match system {
        System::FreeBsd => vec![(0x1u32, "EV_ADD"), (0x2u32, "EV_DELETE"), (0x4u32, "EV_ENABLE"), (0x8u32, "EV_DISABLE"), (0x10u32, "EV_ONESHOT"), (0x20u32, "EV_CLEAR"), (0x40u32, "EV_RECEIPT"), (0x80u32, "EV_DISPATCH"), (0x1000u32, "EV_DROP"), (0x2000u32, "EV_FLAG1"), (0x4000u32, "EV_ERROR"), (0x8000u32, "EV_EOF")],
        System::NetBsd => vec![(0x1u32, "EV_ADD"), (0x2u32, "EV_DELETE"), (0x4u32, "EV_ENABLE"), (0x8u32, "EV_DISABLE"), (0x10u32, "EV_ONESHOT"), (0x20u32, "EV_CLEAR"), (0x40u32, "EV_RECEIPT"), (0x80u32, "EV_DISPATCH"), (0x2000u32, "EV_FLAG1"), (0x4000u32, "EV_ERROR"), (0x8000u32, "EV_EOF")],
        System::OpenBsd => vec![(0x1u32, "EV_ADD"), (0x2u32, "EV_DELETE"), (0x4u32, "EV_ENABLE"), (0x8u32, "EV_DISABLE"), (0x10u32, "EV_ONESHOT"), (0x20u32, "EV_CLEAR"), (0x40u32, "EV_RECEIPT"), (0x80u32, "EV_DISPATCH"), (0x2000u32, "EV_FLAG1"), (0x4000u32, "EV_ERROR"), (0x8000u32, "EV_EOF")],
        System::DragonFly => vec![(0x1u32, "EV_ADD"), (0x2u32, "EV_DELETE"), (0x4u32, "EV_ENABLE"), (0x8u32, "EV_DISABLE"), (0x10u32, "EV_ONESHOT"), (0x20u32, "EV_CLEAR"), (0x40u32, "EV_RECEIPT"), (0x80u32, "EV_DISPATCH"), (0x2000u32, "EV_FLAG1"), (0x4000u32, "EV_ERROR"), (0x8000u32, "EV_EOF"), (0x1000u32, "EV_NODATA")],
        System::Apple => vec![(0x1u32, "EV_ADD"), (0x2u32, "EV_DELETE"), (0x4u32, "EV_ENABLE"), (0x8u32, "EV_DISABLE"), (0x10u32, "EV_ONESHOT"), (0x20u32, "EV_CLEAR"), (0x40u32, "EV_RECEIPT"), (0x80u32, "EV_DISPATCH"), (0x2000u32, "EV_FLAG1"), (0x4000u32, "EV_ERROR"), (0x8000u32, "EV_EOF"), (0x2000u32, "EV_OOBAND")],
    }
}

/// The `NOTE_*` flags of `system` for `EVFILT_READ` and `EVFILT_WRITE`.
pub open spec fn spec_io_flag_table(system: System) -> Seq<(u32, &'static str)> {
    match system {
        System::FreeBsd => seq![(0x1u32, "NOTE_LOWAT"), (0x2u32, "NOTE_FILE_POLL")],
        System::NetBsd => seq![(0x1u32, "NOTE_LOWAT")],
        System::OpenBsd => seq![(0x1u32, "NOTE_LOWAT")],
        System::DragonFly => seq![(0x1u32, "NOTE_LOWAT")],
        System::Apple => seq![(0x1u32, "NOTE_LOWAT")],
    }
}

/// The `NOTE_*` flags of `system` for `EVFILT_READ` and `EVFILT_WRITE`.
fn io_flag_table(system: System) -> (t: Vec<(u32, &'static str)>)
    ensures
        t@ == spec_io_flag_table(system),
{
    match system {
        System::FreeBsd => vec![(0x1u32, "NOTE_LOWAT"), (0x2u32, "NOTE_FILE_POLL")],
        System::NetBsd => vec![(0x1u32, "NOTE_LOWAT")],
        System::OpenBsd => vec![(0x1u32, "NOTE_LOWAT")],
        System::DragonFly => vec![(0x1u32, "NOTE_LOWAT")],
        System::Apple => vec![(0x1u32, "NOTE_LOWAT")],
    }
}

/// The `NOTE_*` flags of `system` for `EVFILT_USER`.
pub open spec fn spec_user_flag_table(system: System) -> Seq<(u32, &'static str)> {
    match system {
        System::FreeBsd => seq![(0x1000000u32, "NOTE_TRIGGER"), (0x0u32, "NOTE_FFNOP"), (0x40000000u32, "NOTE_FFAND"), (0x80000000u32, "NOTE_FFOR"), (0xc0000000u32, "NOTE_FFCOPY"), (0xc0000000u32, "NOTE_FFCTRLMASK"), (0xffffffu32, "NOTE_FFLAGSMASK")],
        System::NetBsd => seq![(0x1000000u32, "NOTE_TRIGGER"), (0x0u32, "NOTE_FFNOP"), (0x40000000u32, "NOTE_FFAND"), (0x80000000u32, "NOTE_FFOR"), (0xc0000000u32, "NOTE_FFCOPY"), (0xc0000000u32, "NOTE_FFCTRLMASK"), (0xffffffu32, "NOTE_FFLAGSMASK")],
        System::OpenBsd => seq![(0x1000000u32, "NOTE_TRIGGER"), (0x0u32, "NOTE_FFNOP"), (0x40000000u32, "NOTE_FFAND"), (0x80000000u32, "NOTE_FFOR"), (0xc0000000u32, "NOTE_FFCOPY"), (0xc0000000u32, "NOTE_FFCTRLMASK"), (0xffffffu32, "NOTE_FFLAGSMASK")],
        System::DragonFly => seq![(0x1000000u32, "NOTE_TRIGGER"), (0x0u32, "NOTE_FFNOP"), (0x40000000u32, "NOTE_FFAND"), (0x80000000u32, "NOTE_FFOR"), (0xc0000000u32, "NOTE_FFCOPY"), (0xc0000000u32, "NOTE_FFCTRLMASK"), (0xffffffu32, "NOTE_FFLAGSMASK")],
        System::Apple => seq![(0x1000000u32, "NOTE_TRIGGER"), (0x0u32, "NOTE_FFNOP"), (0x40000000u32, "NOTE_FFAND"), (0x80000000u32, "NOTE_FFOR"), (0xc0000000u32, "NOTE_FFCOPY"), (0xc0000000u32, "NOTE_FFCTRLMASK"), (0xffffffu32, "NOTE_FFLAGSMASK")],
    }
}

/// The `NOTE_*` flags of `system` for `EVFILT_USER`.
fn user_flag_table(system: System) -> (t: Vec<(u32, &'static str)>)
    ensures
        t@ == spec_user_flag_table(system),
{
    match system {
        System::FreeBsd => vec![(0x1000000u32, "NOTE_TRIGGER"), (0x0u32, "NOTE_FFNOP"), (0x40000000u32, "NOTE_FFAND"), (0x80000000u32, "NOTE_FFOR"), (0xc0000000u32, "NOTE_FFCOPY"), (0xc0000000u32, "NOTE_FFCTRLMASK"), (0xffffffu32, "NOTE_FFLAGSMASK")],
        System::NetBsd => vec![(0x1000000u32, "NOTE_TRIGGER"), (0x0u32, "NOTE_FFNOP"), (0x40000000u32, "NOTE_FFAND"), (0x80000000u32, "NOTE_FFOR"), (0xc0000000u32, "NOTE_FFCOPY"), (0xc0000000u32, "NOTE_FFCTRLMASK"), (0xffffffu32, "NOTE_FFLAGSMASK")],
        System::OpenBsd => vec![(0x1000000u32, "NOTE_TRIGGER"), (0x0u32, "NOTE_FFNOP"), (0x40000000u32, "NOTE_FFAND"), (0x80000000u32, "NOTE_FFOR"), (0xc0000000u32, "NOTE_FFCOPY"), (0xc0000000u32, "NOTE_FFCTRLMASK"), (0xffffffu32, "NOTE_FFLAGSMASK")],
        System::DragonFly => vec![(0x1000000u32, "NOTE_TRIGGER"), (0x0u32, "NOTE_FFNOP"), (0x40000000u32, "NOTE_FFAND"), (0x80000000u32, "NOTE_FFOR"), (0xc0000000u32, "NOTE_FFCOPY"), (0xc0000000u32, "NOTE_FFCTRLMASK"), (0xffffffu32, "NOTE_FFLAGSMASK")],
        System::Apple => vec![(0x1000000u32, "NOTE_TRIGGER"), (0x0u32, "NOTE_FFNOP"), (0x40000000u32, "NOTE_FFAND"), (0x80000000u32, "NOTE_FFOR"), (0xc0000000u32, "NOTE_FFCOPY"), (0xc0000000u32, "NOTE_FFCTRLMASK"), (0xffffffu32, "NOTE_FFLAGSMASK")],
    }
}

/// The `NOTE_*` flags of `system` for `EVFILT_PROC`.
pub open spec fn spec_proc_flag_table(system: System) -> Seq<(u32, &'static str)> {
    match system {
        System::FreeBsd => seq![(0x80000000u32, "NOTE_EXIT"), (0x40000000u32, "NOTE_FORK"), (0x20000000u32, "NOTE_EXEC"), (0x1u32, "NOTE_TRACK"), (0x2u32, "NOTE_TRACKERR"), (0x4u32, "NOTE_CHILD")],
        System::NetBsd => seq![(0x80000000u32, "NOTE_EXIT"), (0x40000000u32, "NOTE_FORK"), (0x20000000u32, "NOTE_EXEC"), (0x1u32, "NOTE_TRACK"), (0x2u32, "NOTE_TRACKERR"), (0x4u32, "NOTE_CHILD")],
        System::OpenBsd => seq![(0x80000000u32, "NOTE_EXIT"), (0x40000000u32, "NOTE_FORK"), (0x20000000u32, "NOTE_EXEC"), (0x1u32, "NOTE_TRACK"), (0x2u32, "NOTE_TRACKERR"), (0x4u32, "NOTE_CHILD")],
        System::DragonFly => seq![(0x80000000u32, "NOTE_EXIT"), (0x40000000u32, "NOTE_FORK"), (0x20000000u32, "NOTE_EXEC"), (0x1u32, "NOTE_TRACK"), (0x2u32, "NOTE_TRACKERR"), (0x4u32, "NOTE_CHILD")],
        System::Apple => seq![(0x80000000u32, "NOTE_EXIT"), (0x40000000u32, "NOTE_FORK"), (0x20000000u32, "NOTE_EXEC"), (0x8000000u32, "NOTE_SIGNAL"), (0x1u32, "NOTE_TRACK"), (0x2u32, "NOTE_TRACKERR"), (0x4u32, "NOTE_CHILD")],
    }
}

/// The `NOTE_*` flags of `system` for `EVFILT_PROC`.
fn proc_flag_table(system: System) -> (t: Vec<(u32, &'static str)>)
    ensures
        t@ == spec_proc_flag_table(system),
{
    match system {
        System::FreeBsd => vec![(0x80000000u32, "NOTE_EXIT"), (0x40000000u32, "NOTE_FORK"), (0x20000000u32, "NOTE_EXEC"), (0x1u32, "NOTE_TRACK"), (0x2u32, "NOTE_TRACKERR"), (0x4u32, "NOTE_CHILD")],
        System::NetBsd => vec![(0x80000000u32, "NOTE_EXIT"), (0x40000000u32, "NOTE_FORK"), (0x20000000u32, "NOTE_EXEC"), (0x1u32, "NOTE_TRACK"), (0x2u32, "NOTE_TRACKERR"), (0x4u32, "NOTE_CHILD")],
        System::OpenBsd => vec![(0x80000000u32, "NOTE_EXIT"), (0x40000000u32, "NOTE_FORK"), (0x20000000u32, "NOTE_EXEC"), (0x1u32, "NOTE_TRACK"), (0x2u32, "NOTE_TRACKERR"), (0x4u32, "NOTE_CHILD")],
        System::DragonFly => vec![(0x80000000u32, "NOTE_EXIT"), (0x40000000u32, "NOTE_FORK"), (0x20000000u32, "NOTE_EXEC"), (0x1u32, "NOTE_TRACK"), (0x2u32, "NOTE_TRACKERR"), (0x4u32, "NOTE_CHILD")],
        System::Apple => vec![(0x80000000u32, "NOTE_EXIT"), (0x40000000u32, "NOTE_FORK"), (0x20000000u32, "NOTE_EXEC"), (0x8000000u32, "NOTE_SIGNAL"), (0x1u32, "NOTE_TRACK"), (0x2u32, "NOTE_TRACKERR"), (0x4u32, "NOTE_CHILD")],
    }
}

/// The `NOTE_*` flags of `system` for `EVFILT_VNODE`.
pub open spec fn spec_vnode_flag_table(system: System) -> Seq<(u32, &'static str)> {
    match system {
        System::FreeBsd => seq![(0x8u32, "NOTE_ATTRIB"), (0x100u32, "NOTE_CLOSE"), (0x200u32, "NOTE_CLOSE_WRITE"), (0x1u32, "NOTE_DELETE"), (0x4u32, "NOTE_EXTEND"), (0x10u32, "NOTE_LINK"), (0x80u32, "NOTE_OPEN"), (0x400u32, "NOTE_READ"), (0x20u32, "NOTE_RENAME"), (0x40u32, "NOTE_REVOKE"), (0x2u32, "NOTE_WRITE")],
        System::NetBsd => seq![(0x8u32, "NOTE_ATTRIB"), (0x100u32, "NOTE_CLOSE"), (0x200u32, "NOTE_CLOSE_WRITE"), (0x1u32, "NOTE_DELETE"), (0x4u32, "NOTE_EXTEND"), (0x10u32, "NOTE_LINK"), (0x80u32, "NOTE_OPEN"), (0x400u32, "NOTE_READ"), (0x20u32, "NOTE_RENAME"), (0x40u32, "NOTE_REVOKE"), (0x2u32, "NOTE_WRITE")],
        System::OpenBsd => seq![(0x8u32, "NOTE_ATTRIB"), (0x1u32, "NOTE_DELETE"), (0x4u32, "NOTE_EXTEND"), (0x10u32, "NOTE_LINK"), (0x20u32, "NOTE_RENAME"), (0x40u32, "NOTE_REVOKE"), (0x2u32, "NOTE_WRITE"), (0x80u32, "NOTE_TRUNCATE")],
        System::DragonFly => seq![(0x8u32, "NOTE_ATTRIB"), (0x1u32, "NOTE_DELETE"), (0x4u32, "NOTE_EXTEND"), (0x10u32, "NOTE_LINK"), (0x20u32, "NOTE_RENAME"), (0x40u32, "NOTE_REVOKE"), (0x2u32, "NOTE_WRITE")],
        System::Apple => seq![(0x8u32, "NOTE_ATTRIB"), (0x1u32, "NOTE_DELETE"), (0x4u32, "NOTE_EXTEND"), (0x10u32, "NOTE_LINK"), (0x20u32, "NOTE_RENAME"), (0x40u32, "NOTE_REVOKE"), (0x2u32, "NOTE_WRITE")],
    }
}

/// The `NOTE_*` flags of `system` for `EVFILT_VNODE`.
fn vnode_flag_table(system: System) -> (t: Vec<(u32, &'static str)>)
    ensures
        t@ == spec_vnode_flag_table(system),
{
    match system {
        System::FreeBsd => vec![(0x8u32, "NOTE_ATTRIB"), (0x100u32, "NOTE_CLOSE"), (0x200u32, "NOTE_CLOSE_WRITE"), (0x1u32, "NOTE_DELETE"), (0x4u32, "NOTE_EXTEND"), (0x10u32, "NOTE_LINK"), (0x80u32, "NOTE_OPEN"), (0x400u32, "NOTE_READ"), (0x20u32, "NOTE_RENAME"), (0x40u32, "NOTE_REVOKE"), (0x2u32, "NOTE_WRITE")],
        System::NetBsd => vec![(0x8u32, "NOTE_ATTRIB"), (0x100u32, "NOTE_CLOSE"), (0x200u32, "NOTE_CLOSE_WRITE"), (0x1u32, "NOTE_DELETE"), (0x4u32, "NOTE_EXTEND"), (0x10u32, "NOTE_LINK"), (0x80u32, "NOTE_OPEN"), (0x400u32, "NOTE_READ"), (0x20u32, "NOTE_RENAME"), (0x40u32, "NOTE_REVOKE"), (0x2u32, "NOTE_WRITE")],
        System::OpenBsd => vec![(0x8u32, "NOTE_ATTRIB"), (0x1u32, "NOTE_DELETE"), (0x4u32, "NOTE_EXTEND"), (0x10u32, "NOTE_LINK"), (0x20u32, "NOTE_RENAME"), (0x40u32, "NOTE_REVOKE"), (0x2u32, "NOTE_WRITE"), (0x80u32, "NOTE_TRUNCATE")],
        System::DragonFly => vec![(0x8u32, "NOTE_ATTRIB"), (0x1u32, "NOTE_DELETE"), (0x4u32, "NOTE_EXTEND"), (0x10u32, "NOTE_LINK"), (0x20u32, "NOTE_RENAME"), (0x40u32, "NOTE_REVOKE"), (0x2u32, "NOTE_WRITE")],
        System::Apple => vec![(0x8u32, "NOTE_ATTRIB"), (0x1u32, "NOTE_DELETE"), (0x4u32, "NOTE_EXTEND"), (0x10u32, "NOTE_LINK"), (0x20u32, "NOTE_RENAME"), (0x40u32, "NOTE_REVOKE"), (0x2u32, "NOTE_WRITE")],
    }
}

/// The `NOTE_*` flags of `system` for `EVFILT_SIGNAL`.
pub open spec fn spec_signal_flag_table(system: System) -> Seq<(u32, &'static str)> {
    match system {
        System::Apple => seq![(0x8000000u32, "NOTE_SIGNAL")],
        _ => Seq::empty(),
    }
}

/// The `NOTE_*` flags of `system` for `EVFILT_SIGNAL`.
fn signal_flag_table(system: System) -> (t: Vec<(u32, &'static str)>)
    ensures
        t@ == spec_signal_flag_table(system),
{
    match system {
        System::Apple => vec![(0x8000000u32, "NOTE_SIGNAL")],
        _ => Vec::new(),
    }
}

/// The name of `filter`, `None` for a filter without one, which
/// [`Filter::Other`] gives by its number.
pub open spec fn spec_filter_name(filter: Filter) -> Option<&'static str> {
    match filter {
        Filter::Read => Some("EVFILT_READ"),
        Filter::Write => Some("EVFILT_WRITE"),
        Filter::Aio => Some("EVFILT_AIO"),
        Filter::Vnode => Some("EVFILT_VNODE"),
        Filter::Proc => Some("EVFILT_PROC"),
        Filter::Signal => Some("EVFILT_SIGNAL"),
        Filter::Timer => Some("EVFILT_TIMER"),
        Filter::Procdesc => Some("EVFILT_PROCDESC"),
        Filter::Fs => Some("EVFILT_FS"),
        Filter::Lio => Some("EVFILT_LIO"),
        Filter::User => Some("EVFILT_USER"),
        Filter::Sendfile => Some("EVFILT_SENDFILE"),
        Filter::Empty => Some("EVFILT_EMPTY"),
        Filter::Except => Some("EVFILT_EXCEPT"),
        Filter::Machport => Some("EVFILT_MACHPORT"),
        Filter::Vm => Some("EVFILT_VM"),
        Filter::Other(_) => None,
    }
}

/// The name of `filter`, `None` for a filter without one, which
/// [`Filter::Other`] gives by its number.
pub fn filter_name(filter: Filter) -> (n: Option<&'static str>)
    ensures
        n == spec_filter_name(filter),
{
    match filter {
        Filter::Read => Some("EVFILT_READ"),
        Filter::Write => Some("EVFILT_WRITE"),
        Filter::Aio => Some("EVFILT_AIO"),
        Filter::Vnode => Some("EVFILT_VNODE"),
        Filter::Proc => Some("EVFILT_PROC"),
        Filter::Signal => Some("EVFILT_SIGNAL"),
        Filter::Timer => Some("EVFILT_TIMER"),
        Filter::Procdesc => Some("EVFILT_PROCDESC"),
        Filter::Fs => Some("EVFILT_FS"),
        Filter::Lio => Some("EVFILT_LIO"),
        Filter::User => Some("EVFILT_USER"),
        Filter::Sendfile => Some("EVFILT_SENDFILE"),
        Filter::Empty => Some("EVFILT_EMPTY"),
        Filter::Except => Some("EVFILT_EXCEPT"),
        Filter::Machport => Some("EVFILT_MACHPORT"),
        Filter::Vm => Some("EVFILT_VM"),
        Filter::Other(_) => None,
    }
}

/// The `NOTE_*` flags of `filter` on `system`, `None` for a filter whose
/// flags have no names.
pub open spec fn spec_fflag_table(filter: Filter, system: System) -> Option<Seq<(u32, &'static str)>> {
    match filter {
        Filter::Read | Filter::Write => Some(spec_io_flag_table(system)),
        Filter::User => Some(spec_user_flag_table(system)),
        Filter::Proc => Some(spec_proc_flag_table(system)),
        Filter::Signal => Some(spec_signal_flag_table(system)),
        Filter::Vnode => Some(spec_vnode_flag_table(system)),
        _ => None,
    }
}

/// The description of an event: the names of its filter, of its `EV_*`
/// flags and of its `NOTE_*` flags.
#[derive(Clone, Debug, PartialEq, Eq)]
pub struct EventNames {
    /// Name of the filter, `None` if it has none.
    pub filter: Option<&'static str>,
    /// Names of the `EV_*` flags set, in order.
    pub flags: Vec<&'static str>,
    /// Names of the `NOTE_*` flags set, in order, `None` if the filter's
    /// flags have no names.
    pub fflags: Option<Vec<&'static str>>,
}

impl KEvent {
    /// Name the filter and the flags of the event, as `system` names them.
    ///
    /// A filter without a name has no name here, [`Filter::Other`] holds its
    /// number; flags of a filter without flag names have no names here, the
    /// event holds their value.
    pub fn names(&self, system: System) -> (n: EventNames)
        ensures
            n.filter == spec_filter_name(self.filter),
            n.flags@ == names_set(spec_flag_table(system), self.flags as u32),
            match spec_fflag_table(self.filter, system) {
                Some(table) => n.fflags matches Some(f) && f@ == names_set(table, self.fflags),
                None => n.fflags is None,
            },
    {
        let filter = filter_name(self.filter);
        let flags = set_names(&flag_table(system), self.flags as u32);
        let fflags = match self.filter {
            Filter::Read | Filter::Write => Some(set_names(&io_flag_table(system), self.fflags)),
            Filter::User => Some(set_names(&user_flag_table(system), self.fflags)),
            Filter::Proc => Some(set_names(&proc_flag_table(system), self.fflags)),
            Filter::Signal => Some(set_names(&signal_flag_table(system), self.fflags)),
            Filter::Vnode => Some(set_names(&vnode_flag_table(system), self.fflags)),
            _ => None,
        };
        EventNames { filter, flags, fflags }
    }
}

} // verus!
