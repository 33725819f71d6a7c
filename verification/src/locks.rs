//! One operation per disk. A validation speaks of a snapshot, and a second
//! operation on the same disk would change what the snapshot shows; so an
//! operation that changes a disk holds the disk for as long as it runs.

use crate::text::same_text;
use vstd::prelude::*;
use vstd::string::*;

verus! {

/// The disks that are held by a running operation.
#[derive(Debug)]
pub struct DiskLocks {
    held: Vec<String>,
}

/// The ids of the disks in a list.
pub open spec fn ids_of(held: Seq<String>) -> Set<Seq<char>> {
    Set::new(|id: Seq<char>| exists|i: int| 0 <= i < held.len() && (#[trigger] held[i])@ == id)
}

impl View for DiskLocks {
    type V = Set<Seq<char>>;

    closed spec fn view(&self) -> Set<Seq<char>> {
        ids_of(self.held@)
    }
}

impl DiskLocks {
    /// No disk is held.
    pub fn new() -> (locks: DiskLocks)
        ensures
            locks@ == Set::<Seq<char>>::empty(),
    {
        let locks = DiskLocks { held: Vec::new() };
        assert(locks@ =~= Set::empty());
        locks
    }

    /// Whether the disk is held.
    pub fn is_locked(&self, disk_id: &str) -> (r: bool)
        ensures
            r == self@.contains(disk_id@),
    {
        let n: usize = self.held.len();
        let mut i: usize = 0;
        while i < n
            invariant
                n == self.held@.len(),
                i <= n,
                forall|k: int| 0 <= k < i ==> (#[trigger] self.held@[k])@ != disk_id@,
            decreases n - i,
        {
            if same_text(self.held[i].as_str(), disk_id) {
                assert(self.held@[i as int]@ == disk_id@);
                return true;
            }
            i = i + 1;
        }
        false
    }

    /// Takes hold of the disk for an operation, unless it is held already.
    /// The operation may run exactly if `true` comes back, and is to let go
    /// of the disk when it has ended.
    pub fn try_lock(&mut self, disk_id: &str) -> (granted: bool)
        ensures
            granted == !old(self)@.contains(disk_id@),
            final(self)@ == old(self)@.insert(disk_id@),
    {
        if self.is_locked(disk_id) {
            assert(self@ =~= self@.insert(disk_id@));
            false
        } else {
            let ghost before = self.held@;
            self.held.push(String::from_str(disk_id));
            proof {
                assert(forall|k: int| 0 <= k < before.len() ==> self.held@[k] == before[k]);
                assert(self.held@[before.len() as int]@ == disk_id@);
                assert forall|x: Seq<char>| ids_of(self.held@).contains(x) implies ids_of(
                    before,
                ).insert(disk_id@).contains(x) by {
                    let w = choose|i: int|
                        0 <= i < self.held@.len() && (#[trigger] self.held@[i])@ == x;
                    if w < before.len() {
                        assert(before[w]@ == x);
                    }
                }
                assert forall|x: Seq<char>|
                    ids_of(before).insert(disk_id@).contains(x) implies ids_of(
                    self.held@,
                ).contains(x) by {
                    if x == disk_id@ {
                        assert(self.held@[before.len() as int]@ == x);
                    } else {
                        let w = choose|i: int|
                            0 <= i < before.len() && (#[trigger] before[i])@ == x;
                        assert(self.held@[w]@ == x);
                    }
                }
                assert(ids_of(self.held@) =~= ids_of(before).insert(disk_id@));
            }
            true
        }
    }

    /// Lets go of the disk.
    pub fn unlock(&mut self, disk_id: &str)
        ensures
            final(self)@ == old(self)@.remove(disk_id@),
    {
        let ghost before = self.held@;
        let mut kept: Vec<String> = Vec::new();
        let n: usize = self.held.len();
        let mut i: usize = 0;
        while i < n
            invariant
                n == self.held@.len(),
                self.held@ == before,
                i <= n,
                forall|k: int| 0 <= k < kept@.len() ==> (#[trigger] kept@[k])@ != disk_id@,
                forall|k: int|
                    0 <= k < kept@.len() ==> ids_of(before.take(i as int)).contains(
                        (#[trigger] kept@[k])@,
                    ),
                forall|k: int|
                    0 <= k < i && (#[trigger] before[k])@ != disk_id@ ==> ids_of(kept@).contains(
                        before[k]@,
                    ),
            decreases n - i,
        {
            let ghost so_far = kept@;
            if !same_text(self.held[i].as_str(), disk_id) {
                kept.push(self.held[i].clone());
                proof {
                    assert(kept@[so_far.len() as int]@ == before[i as int]@);
                    assert forall|k: int| 0 <= k < i + 1 && (#[trigger] before[k])@
                        != disk_id@ implies ids_of(kept@).contains(before[k]@) by {
                        if k < i {
                            let w = choose|j: int|
                                0 <= j < so_far.len() && (#[trigger] so_far[j])@ == before[k]@;
                            assert(kept@[w]@ == before[k]@);
                        }
                    }
                }
            }
            proof {
                assert forall|k: int| 0 <= k < kept@.len() implies ids_of(
                    before.take(i + 1),
                ).contains((#[trigger] kept@[k])@) by {
                    if k < so_far.len() {
                        assert(kept@[k] == so_far[k]);
                        let w = choose|j: int|
                            0 <= j < before.take(i as int).len() && (#[trigger] before.take(
                                i as int,
                            )[j])@ == so_far[k]@;
                        assert(before.take(i + 1)[w]@ == so_far[k]@);
                    } else {
                        assert(before.take(i + 1)[i as int]@ == kept@[k]@);
                    }
                }
            }
            i = i + 1;
        }
        proof {
            assert(before.take(n as int) =~= before);
            assert forall|x: Seq<char>| ids_of(kept@).contains(x) implies ids_of(before).remove(
                disk_id@,
            ).contains(x) by {
                let w = choose|j: int| 0 <= j < kept@.len() && (#[trigger] kept@[j])@ == x;
                assert(ids_of(before).contains(kept@[w]@));
            }
            assert forall|x: Seq<char>| ids_of(before).remove(disk_id@).contains(x) implies ids_of(
                kept@,
            ).contains(x) by {
                let w = choose|j: int| 0 <= j < before.len() && (#[trigger] before[j])@ == x;
                assert(ids_of(kept@).contains(before[w]@));
            }
            assert(ids_of(kept@) =~= ids_of(before).remove(disk_id@));
        }
        self.held = kept;
    }
}

/// Taking hold of a disk makes it held, letting go of it makes it free, and
/// neither changes whether any other disk is held.
pub proof fn lemma_hold_and_release(held: Set<Seq<char>>, disk_id: Seq<char>)
    ensures
        held.insert(disk_id).contains(disk_id),
        !held.insert(disk_id).remove(disk_id).contains(disk_id),
        forall|other: Seq<char>|
            other != disk_id ==> (held.insert(disk_id).contains(other) <==> held.contains(other)),
        forall|other: Seq<char>|
            other != disk_id ==> (held.remove(disk_id).contains(other) <==> held.contains(other)),
{
}

} // verus!
