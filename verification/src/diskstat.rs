//! Disks and partitions, adopted from the records of one enumeration.
//!
//! A raw record carries its name in a fixed-size byte buffer. Adoption copies
//! the counters, decodes every name once, and fails on the first record whose
//! name cannot be decoded.

use crate::cstr::{decode_string, decoded, DecodeError};
use libc::{c_uint, c_ulonglong};
use vstd::prelude::*;

verus! {

/// Something that carries a decoded name.
pub trait Name {
    /// The name, as text.
    spec fn name_text(&self) -> Seq<char>;

    /// An owned copy of the name.
    fn name_as_string(&self) -> (name: String)
        ensures
            name@ == self.name_text(),
    ;

    /// The name, borrowed.
    fn name_as_str(&self) -> (name: &str)
        ensures
            name@ == self.name_text(),
    ;
}

/// One disk as the enumeration reports it, its name in a buffer of `N` bytes.
#[derive(Debug, Clone, Copy, PartialEq, Eq)]
pub struct RawDisk<const N: usize> {
    pub reads_sectors: c_ulonglong,
    pub written_sectors: c_ulonglong,
    pub disk_name: [u8; N],
    pub inprogress_io: c_uint,
    pub merged_reads: c_uint,
    pub merged_writes: c_uint,
    pub milli_reading: c_uint,
    pub milli_spent_io: c_uint,
    pub milli_writing: c_uint,
    pub partitions: c_uint,
    pub reads: c_uint,
    pub weighted_milli_spent_io: c_uint,
    pub writes: c_uint,
}

/// One partition as the enumeration reports it, its name in a buffer of `M`
/// bytes.
#[derive(Debug, Clone, Copy, PartialEq, Eq)]
pub struct RawPartition<const M: usize> {
    pub partition_name: [u8; M],
    pub reads_sectors: c_ulonglong,
    pub parent_disk: c_uint,
    pub reads: c_uint,
    pub writes: c_uint,
    pub requested_writes: c_ulonglong,
}

/// The I/O counters of one disk.
#[derive(Debug, Clone, PartialEq, Eq)]
pub struct Disk {
    pub name: String,
    pub reads_sectors: c_ulonglong,
    pub written_sectors: c_ulonglong,
    pub inprogress_io: c_uint,
    pub merged_reads: c_uint,
    pub merged_writes: c_uint,
    pub milli_reading: c_uint,
    pub milli_spent_io: c_uint,
    pub milli_writing: c_uint,
    pub partitions: c_uint,
    pub reads: c_uint,
    pub weighted_milli_spent_io: c_uint,
    pub writes: c_uint,
}

/// The I/O counters of one partition. `parent_disk` is the position of its
/// disk among the disks it was reported with.
#[derive(Debug, Clone, PartialEq, Eq)]
pub struct Partition {
    pub name: String,
    pub reads_sectors: c_ulonglong,
    pub parent_disk: c_uint,
    pub reads: c_uint,
    pub writes: c_uint,
    pub requested_writes: c_ulonglong,
}

/// The disks and the partitions of one enumeration.
#[derive(Debug, Clone, PartialEq, Eq)]
pub struct DiskStat {
    pub disks: Vec<Disk>,
    pub partitions: Vec<Partition>,
}

/// A disk, its name as text.
pub struct DiskView {
    pub name: Seq<char>,
    pub reads_sectors: c_ulonglong,
    pub written_sectors: c_ulonglong,
    pub inprogress_io: c_uint,
    pub merged_reads: c_uint,
    pub merged_writes: c_uint,
    pub milli_reading: c_uint,
    pub milli_spent_io: c_uint,
    pub milli_writing: c_uint,
    pub partitions: c_uint,
    pub reads: c_uint,
    pub weighted_milli_spent_io: c_uint,
    pub writes: c_uint,
}

/// A partition, its name as text.
pub struct PartitionView {
    pub name: Seq<char>,
    pub reads_sectors: c_ulonglong,
    pub parent_disk: c_uint,
    pub reads: c_uint,
    pub writes: c_uint,
    pub requested_writes: c_ulonglong,
}

/// The disks and partitions of one enumeration, as sequences.
pub struct DiskStatView {
    pub disks: Seq<DiskView>,
    pub partitions: Seq<PartitionView>,
}

impl View for Disk {
    type V = DiskView;

    open spec fn view(&self) -> DiskView {
        DiskView {
            name: self.name@,
            reads_sectors: self.reads_sectors,
            written_sectors: self.written_sectors,
            inprogress_io: self.inprogress_io,
            merged_reads: self.merged_reads,
            merged_writes: self.merged_writes,
            milli_reading: self.milli_reading,
            milli_spent_io: self.milli_spent_io,
            milli_writing: self.milli_writing,
            partitions: self.partitions,
            reads: self.reads,
            weighted_milli_spent_io: self.weighted_milli_spent_io,
            writes: self.writes,
        }
    }
}

impl View for Partition {
    type V = PartitionView;

    open spec fn view(&self) -> PartitionView {
        PartitionView {
            name: self.name@,
            reads_sectors: self.reads_sectors,
            parent_disk: self.parent_disk,
            reads: self.reads,
            writes: self.writes,
            requested_writes: self.requested_writes,
        }
    }
}

impl View for DiskStat {
    type V = DiskStatView;

    open spec fn view(&self) -> DiskStatView {
        DiskStatView {
            disks: Seq::new(self.disks@.len(), |i: int| self.disks@[i]@),
            partitions: Seq::new(self.partitions@.len(), |i: int| self.partitions@[i]@),
        }
    }
}

impl DiskStatView {
    /// Every partition names a disk that is there.
    pub open spec fn parents_in_range(self) -> bool {
        forall|j: int|
            0 <= j < self.partitions.len() ==> (#[trigger] self.partitions[j]).parent_disk
                < self.disks.len()
    }
}

impl<const N: usize> RawDisk<N> {
    /// The disk that this record stands for, with the given name.
    pub open spec fn named(self, name: Seq<char>) -> DiskView {
        DiskView {
            name,
            reads_sectors: self.reads_sectors,
            written_sectors: self.written_sectors,
            inprogress_io: self.inprogress_io,
            merged_reads: self.merged_reads,
            merged_writes: self.merged_writes,
            milli_reading: self.milli_reading,
            milli_spent_io: self.milli_spent_io,
            milli_writing: self.milli_writing,
            partitions: self.partitions,
            reads: self.reads,
            weighted_milli_spent_io: self.weighted_milli_spent_io,
            writes: self.writes,
        }
    }

    /// The disk that this record stands for, or why its name has no text.
    pub open spec fn adopted(self) -> Result<DiskView, DecodeError> {
        match decoded(self.disk_name@) {
            Ok(name) => Ok(self.named(name)),
            Err(e) => Err(e),
        }
    }

    /// Adopts one disk record.
    pub fn adopt(&self) -> (disk: Result<Disk, DecodeError>)
        ensures
            match disk {
                Ok(d) => self.adopted() == Ok::<DiskView, DecodeError>(d@),
                Err(e) => self.adopted() == Err::<DiskView, DecodeError>(e),
            },
    {
        match decode_string(self.disk_name.as_slice()) {
            Ok(name) => Ok(
                Disk {
                    name,
                    reads_sectors: self.reads_sectors,
                    written_sectors: self.written_sectors,
                    inprogress_io: self.inprogress_io,
                    merged_reads: self.merged_reads,
                    merged_writes: self.merged_writes,
                    milli_reading: self.milli_reading,
                    milli_spent_io: self.milli_spent_io,
                    milli_writing: self.milli_writing,
                    partitions: self.partitions,
                    reads: self.reads,
                    weighted_milli_spent_io: self.weighted_milli_spent_io,
                    writes: self.writes,
                },
            ),
            Err(e) => Err(e),
        }
    }
}

impl<const M: usize> RawPartition<M> {
    /// The partition that this record stands for, with the given name.
    pub open spec fn named(self, name: Seq<char>) -> PartitionView {
        PartitionView {
            name,
            reads_sectors: self.reads_sectors,
            parent_disk: self.parent_disk,
            reads: self.reads,
            writes: self.writes,
            requested_writes: self.requested_writes,
        }
    }

    /// The partition that this record stands for, or why its name has no
    /// text.
    pub open spec fn adopted(self) -> Result<PartitionView, DecodeError> {
        match decoded(self.partition_name@) {
            Ok(name) => Ok(self.named(name)),
            Err(e) => Err(e),
        }
    }

    /// Adopts one partition record.
    pub fn adopt(&self) -> (partition: Result<Partition, DecodeError>)
        ensures
            match partition {
                Ok(p) => self.adopted() == Ok::<PartitionView, DecodeError>(p@),
                Err(e) => self.adopted() == Err::<PartitionView, DecodeError>(e),
            },
    {
        match decode_string(self.partition_name.as_slice()) {
            Ok(name) => Ok(
                Partition {
                    name,
                    reads_sectors: self.reads_sectors,
                    parent_disk: self.parent_disk,
                    reads: self.reads,
                    writes: self.writes,
                    requested_writes: self.requested_writes,
                },
            ),
            Err(e) => Err(e),
        }
    }
}

/// Every partition record names a disk record that is there.
pub open spec fn raw_parents_in_range<const N: usize, const M: usize>(
    disks: Seq<RawDisk<N>>,
    partitions: Seq<RawPartition<M>>,
) -> bool {
    forall|j: int|
        0 <= j < partitions.len() ==> (#[trigger] partitions[j]).parent_disk < disks.len()
}

/// `i` is the first disk record that cannot be adopted.
pub open spec fn is_first_bad_disk<const N: usize>(raw: Seq<RawDisk<N>>, i: int) -> bool {
    &&& 0 <= i < raw.len()
    &&& raw[i].adopted() is Err
    &&& forall|k: int| 0 <= k < i ==> (#[trigger] raw[k]).adopted() is Ok
}

/// `j` is the first partition record that cannot be adopted.
pub open spec fn is_first_bad_partition<const M: usize>(raw: Seq<RawPartition<M>>, j: int) -> bool {
    &&& 0 <= j < raw.len()
    &&& raw[j].adopted() is Err
    &&& forall|k: int| 0 <= k < j ==> (#[trigger] raw[k]).adopted() is Ok
}

/// Every record can be adopted.
pub open spec fn adoptable<const N: usize, const M: usize>(
    disks: Seq<RawDisk<N>>,
    partitions: Seq<RawPartition<M>>,
) -> bool {
    &&& forall|i: int| 0 <= i < disks.len() ==> (#[trigger] disks[i]).adopted() is Ok
    &&& forall|j: int| 0 <= j < partitions.len() ==> (#[trigger] partitions[j]).adopted() is Ok
}

/// `stat` is what the records stand for: as many disks and partitions as
/// there are records, in their order, each adopted by itself.
pub open spec fn adopts_to<const N: usize, const M: usize>(
    disks: Seq<RawDisk<N>>,
    partitions: Seq<RawPartition<M>>,
    stat: DiskStatView,
) -> bool {
    &&& stat.disks.len() == disks.len()
    &&& stat.partitions.len() == partitions.len()
    &&& forall|i: int|
        0 <= i < disks.len() ==> (#[trigger] disks[i]).adopted() == Ok::<DiskView, DecodeError>(
            stat.disks[i],
        )
    &&& forall|j: int|
        0 <= j < partitions.len() ==> (#[trigger] partitions[j]).adopted() == Ok::<
            PartitionView,
            DecodeError,
        >(stat.partitions[j])
}

/// `error` is what adoption stops with: the error of the first disk record
/// that cannot be adopted or, where every disk can, of the first such
/// partition record.
pub open spec fn fails_with<const N: usize, const M: usize>(
    disks: Seq<RawDisk<N>>,
    partitions: Seq<RawPartition<M>>,
    error: DecodeError,
) -> bool {
    ||| exists|i: int|
        is_first_bad_disk(disks, i) && (#[trigger] disks[i]).adopted() == Err::<
            DiskView,
            DecodeError,
        >(error)
    ||| {
        &&& forall|i: int| 0 <= i < disks.len() ==> (#[trigger] disks[i]).adopted() is Ok
        &&& exists|j: int|
            is_first_bad_partition(partitions, j) && (#[trigger] partitions[j]).adopted() == Err::<
                PartitionView,
                DecodeError,
            >(error)
    }
}

/// Adopts the disk records in their order, up to the first that fails.
fn adopt_disks<const N: usize>(raw: &[RawDisk<N>]) -> (disks: Result<Vec<Disk>, DecodeError>)
    ensures
        match disks {
            Ok(v) => {
                &&& v@.len() == raw@.len()
                &&& forall|i: int|
                    0 <= i < raw@.len() ==> (#[trigger] raw@[i]).adopted() == Ok::<
                        DiskView,
                        DecodeError,
                    >(v@[i]@)
            },
            Err(e) => exists|i: int|
                is_first_bad_disk(raw@, i) && (#[trigger] raw@[i]).adopted() == Err::<
                    DiskView,
                    DecodeError,
                >(e),
        },
{
    let mut out: Vec<Disk> = Vec::new();
    let mut i: usize = 0;
    while i < raw.len()
        invariant
            i <= raw@.len(),
            out@.len() == i,
            forall|k: int|
                0 <= k < i ==> (#[trigger] raw@[k]).adopted() == Ok::<DiskView, DecodeError>(
                    out@[k]@,
                ),
        decreases raw@.len() - i,
    {
        match raw[i].adopt() {
            Ok(disk) => {
                out.push(disk);
            },
            Err(e) => {
                assert(is_first_bad_disk(raw@, i as int));
                return Err(e);
            },
        }
        i += 1;
    }
    Ok(out)
}

/// Adopts the partition records in their order, up to the first that fails.
fn adopt_partitions<const M: usize>(raw: &[RawPartition<M>]) -> (partitions: Result<
    Vec<Partition>,
    DecodeError,
>)
    ensures
        match partitions {
            Ok(v) => {
                &&& v@.len() == raw@.len()
                &&& forall|j: int|
                    0 <= j < raw@.len() ==> (#[trigger] raw@[j]).adopted() == Ok::<
                        PartitionView,
                        DecodeError,
                    >(v@[j]@)
            },
            Err(e) => exists|j: int|
                is_first_bad_partition(raw@, j) && (#[trigger] raw@[j]).adopted() == Err::<
                    PartitionView,
                    DecodeError,
                >(e),
        },
{
    let mut out: Vec<Partition> = Vec::new();
    let mut j: usize = 0;
    while j < raw.len()
        invariant
            j <= raw@.len(),
            out@.len() == j,
            forall|k: int|
                0 <= k < j ==> (#[trigger] raw@[k]).adopted() == Ok::<PartitionView, DecodeError>(
                    out@[k]@,
                ),
        decreases raw@.len() - j,
    {
        match raw[j].adopt() {
            Ok(partition) => {
                out.push(partition);
            },
            Err(e) => {
                assert(is_first_bad_partition(raw@, j as int));
                return Err(e);
            },
        }
        j += 1;
    }
    Ok(out)
}

/// Adopts the records of one enumeration: the disks, then the partitions.
///
/// Succeeds exactly when every name can be decoded. The result then holds one
/// disk per disk record and one partition per partition record, in the order
/// of the records, and a partition's `parent_disk` is the one its record
/// gave. Otherwise the error is that of the first record that fails.
pub fn get_diskstat<const N: usize, const M: usize>(
    disks: &[RawDisk<N>],
    partitions: &[RawPartition<M>],
) -> (stat: Result<DiskStat, DecodeError>)
    ensures
        stat is Ok <==> adoptable(disks@, partitions@),
        match stat {
            Ok(s) => {
                &&& adopts_to(disks@, partitions@, s@)
                &&& s.disks@.len() == disks@.len()
                &&& s.partitions@.len() == partitions@.len()
                &&& raw_parents_in_range(disks@, partitions@) ==> s@.parents_in_range()
            },
            Err(e) => fails_with(disks@, partitions@, e),
        },
{
    let adopted_disks = match adopt_disks(disks) {
        Ok(v) => v,
        Err(e) => {
            return Err(e);
        },
    };
    let adopted_partitions = match adopt_partitions(partitions) {
        Ok(v) => v,
        Err(e) => {
            return Err(e);
        },
    };
    let stat = DiskStat { disks: adopted_disks, partitions: adopted_partitions };
    proof {
        if raw_parents_in_range(disks@, partitions@) {
            lemma_adoption_keeps_parents(disks@, partitions@, stat@);
        }
    }
    Ok(stat)
}

/// Adoption keeps the back-references: where every partition record names a
/// disk record that is there, every adopted partition names an adopted disk.
pub proof fn lemma_adoption_keeps_parents<const N: usize, const M: usize>(
    disks: Seq<RawDisk<N>>,
    partitions: Seq<RawPartition<M>>,
    stat: DiskStatView,
)
    requires
        adopts_to(disks, partitions, stat),
        raw_parents_in_range(disks, partitions),
    ensures
        stat.disks.len() == disks.len(),
        stat.partitions.len() == partitions.len(),
        stat.parents_in_range(),
{
    assert forall|j: int| 0 <= j < stat.partitions.len() implies (
    #[trigger] stat.partitions[j]).parent_disk < stat.disks.len() by {
        assert(partitions[j].adopted() == Ok::<PartitionView, DecodeError>(stat.partitions[j]));
        assert(partitions[j].parent_disk < disks.len());
    }
}

/// The records decide what is adopted: two results of adopting the same
/// records are equal.
pub proof fn lemma_adoption_is_determined<const N: usize, const M: usize>(
    disks: Seq<RawDisk<N>>,
    partitions: Seq<RawPartition<M>>,
    a: DiskStatView,
    b: DiskStatView,
)
    requires
        adopts_to(disks, partitions, a),
        adopts_to(disks, partitions, b),
    ensures
        a == b,
{
    assert forall|i: int| 0 <= i < a.disks.len() implies a.disks[i] == b.disks[i] by {
        assert(disks[i].adopted() == Ok::<DiskView, DecodeError>(a.disks[i]));
        assert(disks[i].adopted() == Ok::<DiskView, DecodeError>(b.disks[i]));
    }
    assert forall|j: int| 0 <= j < a.partitions.len() implies a.partitions[j]
        == b.partitions[j] by {
        assert(partitions[j].adopted() == Ok::<PartitionView, DecodeError>(a.partitions[j]));
        assert(partitions[j].adopted() == Ok::<PartitionView, DecodeError>(b.partitions[j]));
    }
    assert(a.disks =~= b.disks);
    assert(a.partitions =~= b.partitions);
}

/// The records decide how adoption fails: it stops with one error at most,
/// and never both fails and succeeds.
pub proof fn lemma_failure_is_determined<const N: usize, const M: usize>(
    disks: Seq<RawDisk<N>>,
    partitions: Seq<RawPartition<M>>,
    a: DecodeError,
    b: DecodeError,
)
    requires
        fails_with(disks, partitions, a),
        fails_with(disks, partitions, b),
    ensures
        a == b,
        !adoptable(disks, partitions),
{
    if exists|i: int| is_first_bad_disk(disks, i) {
        let i = choose|i: int| is_first_bad_disk(disks, i);
        assert forall|k: int| is_first_bad_disk(disks, k) implies k == i by {
            if k < i {
                assert(disks[k].adopted() is Ok);
            } else if i < k {
                assert(disks[i].adopted() is Ok);
            }
        }
        assert(disks[i].adopted() is Err);
    } else {
        let j = choose|j: int| is_first_bad_partition(partitions, j);
        assert(is_first_bad_partition(partitions, j));
        assert forall|k: int| is_first_bad_partition(partitions, k) implies k == j by {
            if k < j {
                assert(partitions[k].adopted() is Ok);
            } else if j < k {
                assert(partitions[j].adopted() is Ok);
            }
        }
        assert(partitions[j].adopted() is Err);
    }
}

impl Name for Disk {
    open spec fn name_text(&self) -> Seq<char> {
        self.name@
    }

    fn name_as_string(&self) -> (name: String) {
        self.name.clone()
    }

    fn name_as_str(&self) -> (name: &str) {
        self.name.as_str()
    }
}

impl Name for Partition {
    open spec fn name_text(&self) -> Seq<char> {
        self.name@
    }

    fn name_as_string(&self) -> (name: String) {
        self.name.clone()
    }

    fn name_as_str(&self) -> (name: &str) {
        self.name.as_str()
    }
}

} // verus!
