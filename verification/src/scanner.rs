//! Putting the outcome of a directory scan together: the sizes of the
//! entries add up to the size of the directory, and the entries are shown
//! largest first.

use vstd::prelude::*;
use vstd::string::*;

verus! {

/// A file or a directory with its size.
#[derive(Debug)]
pub struct FileNode {
    pub name: String,
    pub path: String,
    pub size: u64,
    pub is_dir: bool,
    pub children: Option<Vec<FileNode>>,
    /// Seconds since the epoch.
    pub last_modified: u64,
    /// The files in the node: 1 for a file.
    pub file_count: u64,
}

/// The sum of the sizes of the nodes.
pub open spec fn total_size(nodes: Seq<FileNode>) -> nat
    decreases nodes.len(),
{
    if nodes.len() == 0 {
        0
    } else {
        total_size(nodes.drop_last()) + nodes.last().size as nat
    }
}

/// The sum of the file counts of the nodes.
pub open spec fn total_files(nodes: Seq<FileNode>) -> nat
    decreases nodes.len(),
{
    if nodes.len() == 0 {
        0
    } else {
        total_files(nodes.drop_last()) + nodes.last().file_count as nat
    }
}

/// The sum of the numbers.
pub open spec fn sum_of(numbers: Seq<u64>) -> nat
    decreases numbers.len(),
{
    if numbers.len() == 0 {
        0
    } else {
        sum_of(numbers.drop_last()) + numbers.last() as nat
    }
}

/// A sum as far as 64 bits hold it.
pub open spec fn held(sum: nat) -> u64 {
    if sum > u64::MAX {
        u64::MAX
    } else {
        sum as u64
    }
}

/// `sorted` with `x` put behind the last node that is at least as large.
pub open spec fn insert_by_size(sorted: Seq<FileNode>, x: FileNode) -> Seq<FileNode>
    decreases sorted.len(),
{
    if sorted.len() == 0 {
        seq![x]
    } else if sorted.last().size >= x.size {
        sorted.push(x)
    } else {
        insert_by_size(sorted.drop_last(), x).push(sorted.last())
    }
}

/// The nodes, largest first; nodes of one size keep their order.
pub open spec fn sorted_by_size(nodes: Seq<FileNode>) -> Seq<FileNode>
    decreases nodes.len(),
{
    if nodes.len() == 0 {
        Seq::empty()
    } else {
        insert_by_size(sorted_by_size(nodes.drop_last()), nodes.last())
    }
}

/// Whether no node is larger than one before it.
pub open spec fn descending(nodes: Seq<FileNode>) -> bool {
    forall|i: int, j: int| 0 <= i <= j < nodes.len() ==> nodes[i].size >= nodes[j].size
}

/// The place at which `insert_by_size` puts a node: behind the last node
/// that is at least as large.
pub open spec fn place_for(sorted: Seq<FileNode>, size: u64) -> int
    decreases sorted.len(),
{
    if sorted.len() == 0 {
        0
    } else if sorted.last().size >= size {
        sorted.len() as int
    } else {
        place_for(sorted.drop_last(), size)
    }
}

/// Inserting a node puts it at its place and leaves the others in order.
pub proof fn lemma_insert_at_place(sorted: Seq<FileNode>, x: FileNode)
    ensures
        0 <= place_for(sorted, x.size) <= sorted.len(),
        insert_by_size(sorted, x) == sorted.insert(place_for(sorted, x.size), x),
    decreases sorted.len(),
{
    if sorted.len() > 0 && sorted.last().size < x.size {
        let init = sorted.drop_last();
        lemma_insert_at_place(init, x);
        let k = place_for(init, x.size);
        assert(init.insert(k, x).push(sorted.last()) =~= sorted.insert(k, x));
    } else if sorted.len() > 0 {
        assert(sorted.push(x) =~= sorted.insert(sorted.len() as int, x));
    } else {
        assert(seq![x] =~= sorted.insert(0, x));
    }
}

/// Inserting a node into nodes that are descending gives nodes that are
/// descending, with the same nodes and the new one.
pub proof fn lemma_insert_keeps_order(sorted: Seq<FileNode>, x: FileNode)
    requires
        descending(sorted),
    ensures
        descending(insert_by_size(sorted, x)),
        insert_by_size(sorted, x).len() == sorted.len() + 1,
        insert_by_size(sorted, x).to_multiset() == sorted.to_multiset().insert(x),
    decreases sorted.len(),
{
    broadcast use vstd::seq_lib::group_to_multiset_ensures;

    if sorted.len() == 0 {
        assert(seq![x] =~= Seq::<FileNode>::empty().push(x));
    } else if sorted.last().size >= x.size {
    } else {
        let init = sorted.drop_last();
        assert forall|i: int, j: int| 0 <= i <= j < init.len() implies init[i].size
            >= init[j].size by {
            assert(init[i] == sorted[i] && init[j] == sorted[j]);
        }
        lemma_insert_keeps_order(init, x);
        lemma_insert_at_place(init, x);
        let k = place_for(init, x.size);
        let grown = insert_by_size(init, x);
        let all = grown.push(sorted.last());
        assert forall|i: int, j: int| 0 <= i <= j < all.len() implies all[i].size
            >= all[j].size by {
            if j < grown.len() {
                assert(all[i] == grown[i] && all[j] == grown[j]);
            } else if i < grown.len() {
                if i < k {
                    assert(all[i] == sorted[i]);
                } else if i == k {
                } else {
                    assert(all[i] == sorted[i - 1]);
                }
            }
        }
        assert(sorted =~= init.push(sorted.last()));
        assert(sorted.to_multiset() == init.to_multiset().insert(sorted.last()));
        assert(all.to_multiset() =~= sorted.to_multiset().insert(x));
    }
}

/// Sorting gives the same nodes, largest first.
pub proof fn lemma_sorted_by_size(nodes: Seq<FileNode>)
    ensures
        descending(sorted_by_size(nodes)),
        sorted_by_size(nodes).len() == nodes.len(),
        sorted_by_size(nodes).to_multiset() == nodes.to_multiset(),
    decreases nodes.len(),
{
    broadcast use vstd::seq_lib::group_to_multiset_ensures;

    if nodes.len() > 0 {
        let init = nodes.drop_last();
        lemma_sorted_by_size(init);
        lemma_insert_keeps_order(sorted_by_size(init), nodes.last());
        assert(nodes =~= init.push(nodes.last()));
    } else {
        assert(nodes.to_multiset() =~= Seq::<FileNode>::empty().to_multiset());
    }
}

/// Adds the sizes and the file counts of the nodes up, as far as 64 bits
/// hold the sums.
pub fn totals(nodes: &Vec<FileNode>) -> (sums: (u64, u64))
    ensures
        sums.0 == held(total_size(nodes@)),
        sums.1 == held(total_files(nodes@)),
{
    let mut size: u64 = 0;
    let mut files: u64 = 0;
    let n: usize = nodes.len();
    let mut i: usize = 0;
    assert(nodes@.take(0).len() == 0);
    while i < n
        invariant
            n == nodes.len(),
            i <= n,
            size == held(total_size(nodes@.take(i as int))),
            files == held(total_files(nodes@.take(i as int))),
        decreases n - i,
    {
        proof {
            let more = nodes@.take(i + 1);
            assert(more.drop_last() =~= nodes@.take(i as int));
            assert(more.last() == nodes@[i as int]);
        }
        size = size.saturating_add(nodes[i].size);
        files = files.saturating_add(nodes[i].file_count);
        i = i + 1;
    }
    assert(nodes@.take(n as int) =~= nodes@);
    (size, files)
}

/// Puts a node behind the last node that is at least as large.
pub fn insert_node(sorted: &mut Vec<FileNode>, x: FileNode)
    ensures
        final(sorted)@ == insert_by_size(old(sorted)@, x),
{
    let mut k: usize = sorted.len();
    assert(sorted@.take(k as int) =~= sorted@);
    while k > 0 && sorted[k - 1].size < x.size
        invariant
            k <= sorted.len(),
            sorted@ == old(sorted)@,
            place_for(sorted@, x.size) == place_for(sorted@.take(k as int), x.size),
        decreases k,
    {
        proof {
            let here = sorted@.take(k as int);
            assert(here.last() == sorted@[k - 1]);
            assert(here.drop_last() =~= sorted@.take(k - 1));
        }
        k = k - 1;
    }
    proof {
        let here = sorted@.take(k as int);
        if k > 0 {
            assert(here.last() == sorted@[k - 1]);
        }
        assert(place_for(here, x.size) == k);
        lemma_insert_at_place(sorted@, x);
    }
    sorted.insert(k, x);
}

/// Sorts the nodes, largest first; nodes of one size keep their order.
pub fn sort_by_size(nodes: Vec<FileNode>) -> (sorted: Vec<FileNode>)
    ensures
        sorted@ == sorted_by_size(nodes@),
        descending(sorted@),
        sorted@.to_multiset() == nodes@.to_multiset(),
{
    let ghost all = nodes@;
    let mut rest = nodes;
    let mut sorted: Vec<FileNode> = Vec::new();
    // A vector gives its nodes away from the back. They are to be inserted
    // from the front, so they are turned round first.
    let mut reversed: Vec<FileNode> = Vec::new();
    while rest.len() > 0
        invariant
            rest@.len() + reversed@.len() == all.len(),
            rest@ == all.take(rest@.len() as int),
            forall|k: int|
                0 <= k < reversed@.len() ==> reversed@[k] == all[all.len() - 1 - k],
        decreases rest.len(),
    {
        match rest.pop() {
            Some(node) => {
                reversed.push(node);
                assert(rest@ =~= all.take(rest@.len() as int));
            },
            None => {},
        }
    }
    assert(all.take(0).len() == 0);
    while reversed.len() > 0
        invariant
            reversed@.len() <= all.len(),
            forall|k: int|
                0 <= k < reversed@.len() ==> reversed@[k] == all[all.len() - 1 - k],
            sorted@ == sorted_by_size(all.take(all.len() - reversed@.len())),
        decreases reversed.len(),
    {
        let ghost done = all.len() - reversed@.len();
        match reversed.pop() {
            Some(node) => {
                proof {
                    let more = all.take(done + 1);
                    assert(more.drop_last() =~= all.take(done));
                    assert(more.last() == node);
                }
                insert_node(&mut sorted, node);
            },
            None => {},
        }
    }
    proof {
        assert(all.take(all.len() as int) =~= all);
        lemma_sorted_by_size(all);
    }
    sorted
}

/// Puts the node of a scanned directory together: its size and file count
/// are the sums over its entries, and the entries are its children, the
/// directories before the files where sizes are equal, largest first.
pub fn directory_node(name: String, path: String, dirs: Vec<FileNode>, files: Vec<FileNode>) -> (node:
    FileNode)
    ensures
        node.name == name,
        node.path == path,
        node.is_dir,
        node.last_modified == 0,
        node.size == held(total_size(dirs@ + files@)),
        node.file_count == held(total_files(dirs@ + files@)),
        node.children matches Some(children) && children@ == sorted_by_size(dirs@ + files@),
{
    let mut entries = dirs;
    let mut files = files;
    let ghost first = entries@;
    let ghost second = files@;
    entries.append(&mut files);
    assert(entries@ =~= first + second);
    let (size, file_count) = totals(&entries);
    FileNode {
        name,
        path,
        size,
        is_dir: true,
        children: Some(sort_by_size(entries)),
        last_modified: 0,
        file_count,
    }
}

/// Sums sizes up, as far as 64 bits hold the sum.
pub fn sum_sizes(sizes: &Vec<u64>) -> (sum: u64)
    ensures
        sum == held(sum_of(sizes@)),
{
    let mut sum: u64 = 0;
    let n: usize = sizes.len();
    let mut i: usize = 0;
    assert(sizes@.take(0).len() == 0);
    while i < n
        invariant
            n == sizes.len(),
            i <= n,
            sum == held(sum_of(sizes@.take(i as int))),
        decreases n - i,
    {
        proof {
            let more = sizes@.take(i + 1);
            assert(more.drop_last() =~= sizes@.take(i as int));
            assert(more.last() == sizes@[i as int]);
        }
        sum = sum.saturating_add(sizes[i]);
        i = i + 1;
    }
    assert(sizes@.take(n as int) =~= sizes@);
    sum
}

/// Sums a subdirectory up whose files were only measured: its size is
/// that of its files and its directories, its file count likewise, and its
/// children are its directories, largest first.
pub fn summarize_subdirectory(file_sizes: &Vec<u64>, dirs: Vec<FileNode>) -> (summary: (
    u64,
    u64,
    Vec<FileNode>,
))
    ensures
        summary.0 == held(sum_of(file_sizes@) + total_size(dirs@)),
        summary.1 == held(file_sizes@.len() + total_files(dirs@)),
        summary.2@ == sorted_by_size(dirs@),
{
    let (dir_size, dir_files) = totals(&dirs);
    let size: u64 = sum_sizes(file_sizes).saturating_add(dir_size);
    let count: u64 = if file_sizes.len() as u128 > u64::MAX as u128 {
        u64::MAX
    } else {
        (file_sizes.len() as u64).saturating_add(dir_files)
    };
    (size, count, sort_by_size(dirs))
}

} // verus!
