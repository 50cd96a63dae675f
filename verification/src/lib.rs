//! Typed marshalling for the statistics that libprocps reports.
//!
//! Each accessor takes the raw result of one native call (a packed integer,
//! a block of counters, a NUL-terminated byte buffer, an array of records) and
//! returns the owned, typed value that stands for it. The native calls
//! themselves are made by the caller.

pub mod cstr;
pub mod diskstat;
pub mod pwcache;
pub mod stat;
pub mod sysinfo;
pub mod version;
pub mod wchan;
pub mod whattime;

pub use cstr::{decode_str, decode_string, find_terminator, DecodeError};
pub use diskstat::{
    get_diskstat, Disk, DiskStat, DiskStatView, DiskView, Name, Partition, PartitionView, RawDisk,
    RawPartition,
};
pub use pwcache::{get_group, get_user};
pub use stat::{get_stat, Counter, Cpu, Page, RawStat, SlotPair, Stat, Swap};
pub use sysinfo::{get_meminfo, get_uptime, MemInfo, Uptime};
pub use version::{get_kernel_info, get_kernel_version, KernelVersion};
pub use wchan::{lookup_wchan_str, lookup_wchan_string};
pub use whattime::{get_uptime_str, get_uptime_string};
