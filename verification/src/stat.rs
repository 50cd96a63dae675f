//! The aggregate counters: processor time, paging, swapping, interrupts,
//! context switches and process counts.
//!
//! A counter that an older kernel does not keep is reported through a pair of
//! output slots, either of which may be missing. The pair is decoded into an
//! optional reading, so that "not kept by this kernel" stays apart from a
//! reading of zero.

use libc::{c_uint, c_ulong, c_ulonglong};
use vstd::prelude::*;

verus! {

/// A counter value that can be told from zero.
pub trait Counter: Copy {
    /// The value is zero.
    spec fn reads_zero(&self) -> bool;

    /// Tests the value against zero.
    fn is_zero(&self) -> (zero: bool)
        ensures
            zero == self.reads_zero(),
    ;
}

impl Counter for u32 {
    open spec fn reads_zero(&self) -> bool {
        *self == 0
    }

    fn is_zero(&self) -> (zero: bool) {
        *self == 0
    }
}

impl Counter for u64 {
    open spec fn reads_zero(&self) -> bool {
        *self == 0
    }

    fn is_zero(&self) -> (zero: bool) {
        *self == 0
    }
}

/// A slot that holds a reading other than zero.
pub open spec fn populated<T: Counter>(slot: Option<T>) -> bool {
    slot matches Some(value) && !value.reads_zero()
}

/// The two output slots through which one counter is reported, in the order
/// in which they are scanned. `None` stands for a slot whose pointer was null.
#[derive(Debug, Clone, Copy, PartialEq, Eq)]
pub struct SlotPair<T> {
    pub first: Option<T>,
    pub second: Option<T>,
}

impl<T: Counter> SlotPair<T> {
    /// The reading that the pair stands for.
    ///
    /// The first populated slot gives the reading. Where neither slot is
    /// populated, a slot that is there gives a reading of zero, and the
    /// counter is absent only if both slots are missing.
    pub open spec fn reading(self) -> Option<T> {
        if populated(self.first) {
            self.first
        } else if populated(self.second) {
            self.second
        } else if self.first is Some {
            self.first
        } else {
            self.second
        }
    }

    /// Decodes the pair into an optional reading.
    pub fn decode(&self) -> (reading: Option<T>)
        ensures
            reading == self.reading(),
            reading is None <==> self.first is None && self.second is None,
            reading matches Some(value) ==> (value.reads_zero() <==> !populated(self.first)
                && !populated(self.second)),
    {
        match self.first {
            Some(value) => {
                if !value.is_zero() {
                    return self.first;
                }
            },
            None => {},
        }
        match self.second {
            Some(value) => {
                if !value.is_zero() {
                    return self.second;
                }
            },
            None => {},
        }
        match self.first {
            Some(_) => self.first,
            None => self.second,
        }
    }
}

/// What one aggregate-counter query filled in: fourteen slot pairs for the
/// counters that depend on the kernel's age, and four plain values.
#[derive(Debug, Clone, Copy, PartialEq, Eq)]
pub struct RawStat {
    pub user_processes: SlotPair<c_ulonglong>,
    pub nice_processes: SlotPair<c_ulonglong>,
    pub system_processes: SlotPair<c_ulonglong>,
    pub idle: SlotPair<c_ulonglong>,
    pub iowait: SlotPair<c_ulonglong>,
    pub irq: SlotPair<c_ulonglong>,
    pub soft_irq: SlotPair<c_ulonglong>,
    pub steal: SlotPair<c_ulonglong>,
    pub pin: SlotPair<c_ulong>,
    pub pout: SlotPair<c_ulong>,
    pub sin: SlotPair<c_ulong>,
    pub sout: SlotPair<c_ulong>,
    pub interrupts: SlotPair<c_uint>,
    pub context_switches: SlotPair<c_uint>,
    pub running_processes: c_uint,
    pub blocked_processes: c_uint,
    pub btime: c_uint,
    pub processes: c_uint,
}

/// Processor time by kind, in clock ticks.
#[derive(Debug, Clone, Copy, PartialEq, Eq)]
pub struct Cpu {
    pub user_processes: Option<c_ulonglong>,
    pub nice_processes: Option<c_ulonglong>,
    pub system_processes: Option<c_ulonglong>,
    pub idle: Option<c_ulonglong>,
    pub iowait: Option<c_ulonglong>,
    pub irq: Option<c_ulonglong>,
    pub soft_irq: Option<c_ulonglong>,
    pub steal: Option<c_ulonglong>,
}

/// Pages paged in and out.
#[derive(Debug, Clone, Copy, PartialEq, Eq)]
pub struct Page {
    pub pin: Option<c_ulong>,
    pub pout: Option<c_ulong>,
}

/// Pages swapped in and out.
#[derive(Debug, Clone, Copy, PartialEq, Eq)]
pub struct Swap {
    pub sin: Option<c_ulong>,
    pub sout: Option<c_ulong>,
}

/// The aggregate counters of one query.
#[derive(Debug, Clone, Copy, PartialEq, Eq)]
pub struct Stat {
    pub cpu: Cpu,
    pub page: Page,
    pub swap: Swap,
    pub interrupts: Option<c_uint>,
    pub context_switches: Option<c_uint>,
    pub running_processes: c_uint,
    pub blocked_processes: c_uint,
    pub btime: c_uint,
    pub processes: c_uint,
}

impl RawStat {
    /// The counters that this raw report stands for: each slot pair decoded
    /// by itself, each plain value as it is.
    pub open spec fn decoded(self) -> Stat {
        Stat {
            cpu: Cpu {
                user_processes: self.user_processes.reading(),
                nice_processes: self.nice_processes.reading(),
                system_processes: self.system_processes.reading(),
                idle: self.idle.reading(),
                iowait: self.iowait.reading(),
                irq: self.irq.reading(),
                soft_irq: self.soft_irq.reading(),
                steal: self.steal.reading(),
            },
            page: Page { pin: self.pin.reading(), pout: self.pout.reading() },
            swap: Swap { sin: self.sin.reading(), sout: self.sout.reading() },
            interrupts: self.interrupts.reading(),
            context_switches: self.context_switches.reading(),
            running_processes: self.running_processes,
            blocked_processes: self.blocked_processes,
            btime: self.btime,
            processes: self.processes,
        }
    }
}

/// Decodes what the aggregate-counter query filled in.
pub fn get_stat(raw: &RawStat) -> (stat: Stat)
    ensures
        stat == raw.decoded(),
{
    Stat {
        cpu: Cpu {
            user_processes: raw.user_processes.decode(),
            nice_processes: raw.nice_processes.decode(),
            system_processes: raw.system_processes.decode(),
            idle: raw.idle.decode(),
            iowait: raw.iowait.decode(),
            irq: raw.irq.decode(),
            soft_irq: raw.soft_irq.decode(),
            steal: raw.steal.decode(),
        },
        page: Page { pin: raw.pin.decode(), pout: raw.pout.decode() },
        swap: Swap { sin: raw.sin.decode(), sout: raw.sout.decode() },
        interrupts: raw.interrupts.decode(),
        context_switches: raw.context_switches.decode(),
        running_processes: raw.running_processes,
        blocked_processes: raw.blocked_processes,
        btime: raw.btime,
        processes: raw.processes,
    }
}

} // verus!
