//! Inode numbers: the reserved range and the allocator of one mount session.

use vstd::prelude::*;

verus! {

/// No inode. A record that carries it has not been given an identity yet.
pub const INODE_NULL: u64 = 0;

/// The root of the tree.
pub const INODE_ROOT: u64 = 1;

/// The configuration file.
pub const INODE_CONFIG: u64 = 2;

/// The control socket.
pub const INODE_SOCKET: u64 = 3;

/// The status file.
pub const INODE_STATUS_FILE: u64 = 4;

/// The directory of volumes.
pub const INODE_VOLUMES_DIR: u64 = 5;

/// The directory of all bundles.
pub const INODE_ALL_BUNDLES_DIR: u64 = 6;

/// The directory of all filters.
pub const INODE_ALL_FILTERS_DIR: u64 = 7;

/// The trash.
pub const INODE_TRASH_DIR: u64 = 8;

/// The first inode that is handed out dynamically. Everything below it is
/// reserved for well-known nodes.
pub const INODE_MIN: u64 = 64;

/// Whether an inode lies in the reserved range.
pub open spec fn spec_is_reserved_inode(inode: u64) -> bool {
    inode < INODE_MIN
}

/// Whether an inode lies in the reserved range.
pub fn is_reserved_inode(inode: u64) -> (reserved: bool)
    ensures
        reserved == spec_is_reserved_inode(inode),
{
    inode < INODE_MIN
}

/// Hands out inode numbers, each one once, in increasing order.
#[derive(Debug)]
pub struct InodeAllocator {
    /// The number that is handed out next; zero once all are spent.
    next: u64,
}

/// The number that is handed out first after a store was found to hold
/// `observed` as its highest inode.
pub open spec fn spec_first_after(observed: Option<u64>) -> Option<u64> {
    let highest: u64 = match observed {
        Some(m) => if m >= INODE_MIN - 1 {
            m
        } else {
            (INODE_MIN - 1) as u64
        },
        None => (INODE_MIN - 1) as u64,
    };
    if highest < u64::MAX {
        Some((highest + 1) as u64)
    } else {
        None
    }
}

impl InodeAllocator {
    #[verifier::type_invariant]
    spec fn well_formed(&self) -> bool {
        self.next == 0 || self.next >= INODE_MIN
    }

    /// The number that the next call of [`InodeAllocator::next`] hands out,
    /// or `None` when every number is spent.
    pub closed spec fn upcoming(&self) -> Option<u64> {
        if self.next == 0 {
            None
        } else {
            Some(self.next)
        }
    }

    /// The allocator after one more number has been taken from it.
    pub closed spec fn advanced(&self) -> InodeAllocator {
        if self.next == 0 || self.next == u64::MAX {
            InodeAllocator { next: 0 }
        } else {
            InodeAllocator { next: (self.next + 1) as u64 }
        }
    }

    /// The allocator after `count` numbers have been taken from it.
    pub open spec fn advanced_by(&self, count: nat) -> InodeAllocator
        decreases count,
    {
        if count == 0 {
            *self
        } else {
            self.advanced_by((count - 1) as nat).advanced()
        }
    }

    /// The result of call number `index` (counted from zero) in a run of
    /// calls of [`InodeAllocator::next`] that starts at this allocator.
    pub open spec fn nth(&self, index: nat) -> Option<u64> {
        self.advanced_by(index).upcoming()
    }

    /// An allocator for an empty store: it starts at the first dynamic inode.
    pub fn new() -> (alloc: InodeAllocator)
        ensures
            alloc.upcoming() == Some(INODE_MIN),
    {
        InodeAllocator { next: INODE_MIN }
    }

    /// An allocator for a store whose highest persisted inode is `observed`
    /// (`None` for a store without rows). It starts right above that inode
    /// and never inside the reserved range.
    pub fn recover(observed: Option<u64>) -> (alloc: InodeAllocator)
        ensures
            alloc.upcoming() == spec_first_after(observed),
    {
        let highest: u64 = match observed {
            Some(m) => if m >= INODE_MIN - 1 {
                m
            } else {
                INODE_MIN - 1
            },
            None => INODE_MIN - 1,
        };
        if highest < u64::MAX {
            InodeAllocator { next: highest + 1 }
        } else {
            InodeAllocator { next: 0 }
        }
    }

    /// The number that would be handed out next.
    pub fn peek(&self) -> (upcoming: Option<u64>)
        ensures
            upcoming == self.upcoming(),
    {
        if self.next == 0 {
            None
        } else {
            Some(self.next)
        }
    }

    /// Hands out the next number and steps past it. `None` says that every
    /// number is spent; the allocator then stays as it is.
    pub fn next(&mut self) -> (inode: Option<u64>)
        ensures
            inode == old(self).upcoming(),
            *final(self) == old(self).advanced(),
            final(self).upcoming() == match old(self).upcoming() {
                Some(v) => if v < u64::MAX {
                    Some((v + 1) as u64)
                } else {
                    None
                },
                None => None,
            },
            inode matches Some(v) ==> v >= INODE_MIN,
    {
        proof {
            use_type_invariant(&*self);
        }
        if self.next == 0 {
            None
        } else {
            let inode = self.next;
            if inode == u64::MAX {
                self.next = 0;
            } else {
                self.next = inode + 1;
            }
            Some(inode)
        }
    }
}

/// Call number `index` hands out the starting number plus `index`, as long
/// as that number exists; after that every call hands out nothing.
pub proof fn lemma_nth_is_start_plus_index(alloc: InodeAllocator, index: nat)
    ensures
        alloc.nth(index) == match alloc.upcoming() {
            Some(start) => if start + index <= u64::MAX {
                Some((start + index) as u64)
            } else {
                None
            },
            None => None,
        },
    decreases index,
{
    if index > 0 {
        lemma_nth_is_start_plus_index(alloc, (index - 1) as nat);
    }
}

/// Within one session the numbers handed out are strictly increasing: of two
/// calls the later one gives the larger number. Once a call gives nothing, so
/// does every later call.
pub proof fn lemma_allocation_strictly_increasing(alloc: InodeAllocator, earlier: nat, later: nat)
    requires
        earlier < later,
    ensures
        alloc.nth(later) is Some ==> alloc.nth(earlier) is Some && alloc.nth(earlier)->Some_0
            < alloc.nth(later)->Some_0,
        alloc.nth(earlier) is None ==> alloc.nth(later) is None,
{
    lemma_nth_is_start_plus_index(alloc, earlier);
    lemma_nth_is_start_plus_index(alloc, later);
}

/// No number is handed out twice in one session.
pub proof fn lemma_allocation_never_repeats(alloc: InodeAllocator, i: nat, j: nat)
    requires
        i != j,
        alloc.nth(i) is Some,
        alloc.nth(j) is Some,
    ensures
        alloc.nth(i) != alloc.nth(j),
{
    if i < j {
        lemma_allocation_strictly_increasing(alloc, i, j);
    } else {
        lemma_allocation_strictly_increasing(alloc, j, i);
    }
}

/// After a store is reopened whose highest persisted inode is `highest`, the
/// first number handed out is `highest + 1`. The reserved range is always
/// populated, so `highest` is never below its end.
pub proof fn lemma_first_after_reopen(highest: u64)
    requires
        highest >= INODE_MIN - 1,
        highest < u64::MAX,
    ensures
        spec_first_after(Some(highest)) == Some((highest + 1) as u64),
{
}

/// A recovered allocator never hands out a reserved inode.
pub proof fn lemma_recovered_skips_reserved(observed: Option<u64>)
    ensures
        spec_first_after(observed) matches Some(first) ==> first >= INODE_MIN,
{
}

} // verus!
