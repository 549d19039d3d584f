//! Usage of the root file system.

use vstd::prelude::*;

verus! {

/// One mounted disk as the system reports it.
pub struct DiskInfo {
    /// Whether the disk is mounted at `/`.
    pub is_root: bool,
    pub total_space: u64,
    pub available_space: u64,
}

/// The disk that counts as the root disk: the first mounted at `/`, else
/// the first disk.
pub open spec fn root_disk_index(disks: Seq<DiskInfo>) -> Option<int> {
    if exists|i: int| 0 <= i < disks.len() && disks[i].is_root {
        let i = choose|i: int|
            0 <= i < disks.len() && disks[i].is_root && forall|j: int| 0 <= j < i ==> !disks[j].is_root;
        Some(i)
    } else if disks.len() > 0 {
        Some(0)
    } else {
        None
    }
}

/// `(total, used)` bytes of the root disk, where used is total minus
/// available (never below zero); `(0, 0)` without disks.
pub fn root_disk_usage(disks: &Vec<DiskInfo>) -> (r: (u64, u64))
    ensures
        disks@.len() == 0 ==> r == (0u64, 0u64),
        disks@.len() > 0 ==> (forall|j: int| 0 <= j < disks@.len() ==> !disks@[j].is_root) ==> r == (
            disks@[0].total_space,
            if disks@[0].available_space <= disks@[0].total_space {
                (disks@[0].total_space - disks@[0].available_space) as u64
            } else {
                0u64
            },
        ),
        forall|i: int|
            0 <= i < disks@.len() && disks@[i].is_root && (forall|j: int| 0 <= j < i ==> !disks@[j].is_root)
                ==> r == (
                disks@[i].total_space,
                if disks@[i].available_space <= disks@[i].total_space {
                    (disks@[i].total_space - disks@[i].available_space) as u64
                } else {
                    0u64
                },
            ),
{
    let mut i: usize = 0;
    while i < disks.len()
        invariant
            i <= disks.len(),
            forall|j: int| 0 <= j < i ==> !disks@[j].is_root,
        decreases disks.len() - i,
    {
        if disks[i].is_root {
            let d = &disks[i];
            return (d.total_space, d.total_space.saturating_sub(d.available_space));
        }
        i += 1;
    }
    if disks.len() == 0 {
        (0, 0)
    } else {
        let d = &disks[0];
        (d.total_space, d.total_space.saturating_sub(d.available_space))
    }
}

} // verus!
