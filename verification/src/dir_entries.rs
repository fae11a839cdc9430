//! The entries of a directory listing and the cursor that resumes it.
//!
//! A listing starts with `.` and `..` and goes on with the names under the
//! directory. Every entry carries the offset at which the listing goes on
//! after it, so the offset of a call says all that is needed to resume: no
//! state is kept between calls.

use vstd::prelude::*;
use crate::file_type::FileType;
use crate::node_name::NodeName;

verus! {

/// One entry of a directory listing.
#[derive(Debug)]
pub struct DirEntry {
    pub ino: u64,
    /// The offset that resumes the listing right after this entry.
    pub offset: i64,
    pub kind: FileType,
    pub name: String,
}

/// What a [`DirEntry`] holds, as mathematics.
pub struct DirEntryView {
    pub ino: u64,
    pub offset: i64,
    pub kind: FileType,
    pub name: Seq<char>,
}

impl View for DirEntry {
    type V = DirEntryView;

    open spec fn view(&self) -> DirEntryView {
        DirEntryView { ino: self.ino, offset: self.offset, kind: self.kind, name: self.name@ }
    }
}

/// What a list of entries holds.
pub open spec fn entry_views(entries: Seq<DirEntry>) -> Seq<DirEntryView> {
    entries.map_values(|entry: DirEntry| entry@)
}

/// The offset at which a listing starts: a negative offset starts it anew.
pub open spec fn spec_start(offset: i64) -> int {
    if offset < 0 {
        0
    } else {
        offset as int
    }
}

/// How many names the store has to leave out for a listing that resumes at
/// `offset`: the two synthetic entries are no names.
pub open spec fn spec_names_to_skip(offset: i64) -> int {
    if spec_start(offset) <= 2 {
        0
    } else {
        spec_start(offset) - 2
    }
}

/// The synthetic entries that a listing at `offset` starts with.
pub open spec fn spec_synthetic(ino: u64, parent: u64, offset: i64) -> Seq<DirEntryView> {
    let dot = DirEntryView { ino, offset: 1, kind: FileType::Directory, name: "."@ };
    let dotdot = DirEntryView { ino: parent, offset: 2, kind: FileType::Directory, name: ".."@ };
    if spec_start(offset) == 0 {
        seq![dot, dotdot]
    } else if spec_start(offset) == 1 {
        seq![dotdot]
    } else {
        Seq::empty()
    }
}

/// How many of `count` names have an offset that can be told, when the
/// first of them is name number `skipped` of the directory.
pub open spec fn spec_listable(skipped: int, count: int) -> int {
    if skipped + 2 + count <= i64::MAX {
        count
    } else if skipped + 2 >= i64::MAX {
        0
    } else {
        i64::MAX - (skipped + 2)
    }
}

/// The entries of `names`, which the store gave after it left out `skipped`
/// names: name number `k` of the directory resumes at offset `k + 3`.
pub open spec fn spec_name_entries(skipped: int, names: Seq<NodeName>) -> Seq<DirEntryView> {
    Seq::new(
        spec_listable(skipped, names.len() as int) as nat,
        |k: int|
            DirEntryView {
                ino: names[k].inode,
                offset: (skipped + k + 3) as i64,
                kind: names[k].file_type->Some_0,
                name: names[k].name@,
            },
    )
}

/// The listing of directory `ino` from `offset` on, where `parent` is what
/// `..` leads to and `names` are the names that the store gave after it
/// left out [`spec_names_to_skip`] of them.
pub open spec fn spec_dir_entries(ino: u64, parent: u64, offset: i64, names: Seq<NodeName>) -> Seq<
    DirEntryView,
> {
    spec_synthetic(ino, parent, offset) + spec_name_entries(spec_names_to_skip(offset), names)
}

/// How many names the store has to leave out for a listing at `offset`.
pub fn names_to_skip(offset: i64) -> (skip: i64)
    ensures
        skip == spec_names_to_skip(offset),
{
    if offset <= 2 {
        0
    } else {
        offset - 2
    }
}

/// Builds the listing of directory `ino` from `offset` on. Every name must
/// carry its file type, as the names read from the store do.
pub fn dir_entries(ino: u64, parent: u64, offset: i64, names: &Vec<NodeName>) -> (entries: Vec<
    DirEntry,
>)
    requires
        forall|i: int| 0 <= i < names.len() ==> (#[trigger] names[i]).file_type is Some,
    ensures
        entry_views(entries@) == spec_dir_entries(ino, parent, offset, names@),
{
    let mut entries: Vec<DirEntry> = Vec::new();
    if offset <= 0 {
        entries.push(
            DirEntry { ino, offset: 1, kind: FileType::Directory, name: String::from_str(".") },
        );
    }
    if offset <= 1 {
        entries.push(
            DirEntry {
                ino: parent,
                offset: 2,
                kind: FileType::Directory,
                name: String::from_str(".."),
            },
        );
    }
    assert(entry_views(entries@) =~= spec_synthetic(ino, parent, offset));
    let skipped = names_to_skip(offset);
    let ghost head = entry_views(entries@);
    let ghost tail = spec_name_entries(skipped as int, names@);
    let mut k: usize = 0;
    while k < names.len() && skipped < i64::MAX - 2 && (k as u64) < ((i64::MAX - 2 - skipped) as u64)
        invariant
            k <= names.len(),
            0 <= skipped,
            skipped == spec_names_to_skip(offset),
            k <= spec_listable(skipped as int, names.len() as int),
            tail == spec_name_entries(skipped as int, names@),
            entry_views(entries@) == head + tail.take(k as int),
            forall|i: int| 0 <= i < names.len() ==> (#[trigger] names[i]).file_type is Some,
        decreases names.len() - k,
    {
        let name = &names[k];
        let kind = match name.file_type {
            Some(kind) => kind,
            None => FileType::RegularFile,
        };
        let entry = DirEntry {
            ino: name.inode,
            offset: skipped + (k as i64) + 3,
            kind,
            name: name.name.clone(),
        };
        let ghost before = entries@;
        entries.push(entry);
        proof {
            assert(entry@ == tail[k as int]);
            assert(entry_views(entries@) =~= entry_views(before).push(entry@));
            assert(tail.take(k + 1) =~= tail.take(k as int).push(tail[k as int]));
            assert(head + tail.take(k + 1) =~= (head + tail.take(k as int)).push(tail[k as int]));
        }
        k = k + 1;
    }
    assert(k == spec_listable(skipped as int, names.len() as int));
    assert(tail.take(k as int) =~= tail);
    entries
}

/// In a listing from the start, every entry carries the offset that is one
/// more than its own position: the cursor grows by one with each entry, the
/// two synthetic ones included.
pub proof fn lemma_offsets_count_entries(ino: u64, parent: u64, names: Seq<NodeName>, k: int)
    requires
        0 <= k < spec_dir_entries(ino, parent, 0, names).len(),
    ensures
        spec_dir_entries(ino, parent, 0, names)[k].offset == k + 1,
{
}

/// A listing from the start names `.` first, then `..` with the main parent
/// of the directory, then the names in the order of the store.
pub proof fn lemma_listing_order(ino: u64, parent: u64, names: Seq<NodeName>)
    requires
        names.len() + 2 <= i64::MAX,
    ensures
        spec_dir_entries(ino, parent, 0, names).len() == names.len() + 2,
        spec_dir_entries(ino, parent, 0, names)[0].name == "."@,
        spec_dir_entries(ino, parent, 0, names)[0].ino == ino,
        spec_dir_entries(ino, parent, 0, names)[1].name == ".."@,
        spec_dir_entries(ino, parent, 0, names)[1].ino == parent,
        forall|k: int|
            0 <= k < names.len() ==> (#[trigger] spec_dir_entries(ino, parent, 0, names)[k + 2]).name
                == names[k].name@,
{
}

/// A listing can be resumed at any offset it has handed out: where the store
/// leaves out the names that the offset stands for, the resumed listing is
/// the rest of the listing from the start, with nothing twice and nothing
/// missing. Asking again with the same offset gives the same entries.
pub proof fn lemma_listing_resumes(ino: u64, parent: u64, offset: i64, names: Seq<NodeName>)
    requires
        0 <= offset <= names.len() + 2,
        names.len() + 2 <= i64::MAX,
    ensures
        spec_dir_entries(ino, parent, offset, names.skip(spec_names_to_skip(offset)))
            == spec_dir_entries(ino, parent, 0, names).skip(offset as int),
{
    let resumed = spec_dir_entries(ino, parent, offset, names.skip(spec_names_to_skip(offset)));
    let rest = spec_dir_entries(ino, parent, 0, names).skip(offset as int);
    assert(resumed.len() == rest.len());
    assert forall|k: int| 0 <= k < resumed.len() implies resumed[k] == rest[k] by {
        if offset >= 2 {
            let skipped = offset - 2;
            assert(names.skip(skipped)[k] == names[skipped + k]);
        } else if offset == 1 {
            if k >= 1 {
                assert(names.skip(0)[k - 1] == names[k - 1]);
            }
        } else {
            if k >= 2 {
                assert(names.skip(0)[k - 2] == names[k - 2]);
            }
        }
    }
    assert(resumed =~= rest);
}

} // verus!
