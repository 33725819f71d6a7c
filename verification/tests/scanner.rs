use partition_engine::scanner::{
    directory_node, insert_node, sort_by_size, sum_sizes, summarize_subdirectory, totals,
    FileNode,
};

fn file(name: &str, size: u64) -> FileNode {
    FileNode {
        name: name.to_string(),
        path: format!("/root/{}", name),
        size,
        is_dir: false,
        children: None,
        last_modified: 5,
        file_count: 1,
    }
}

fn dir(name: &str, size: u64, file_count: u64) -> FileNode {
    FileNode {
        name: name.to_string(),
        path: format!("/root/{}", name),
        size,
        is_dir: true,
        children: Some(vec![]),
        last_modified: 6,
        file_count,
    }
}

fn names(nodes: &[FileNode]) -> Vec<&str> {
    nodes.iter().map(|n| n.name.as_str()).collect()
}

#[test]
fn nodes_are_sorted_largest_first_and_equal_ones_keep_their_order() {
    let sorted = sort_by_size(vec![
        file("a", 5),
        file("b", 9),
        file("c", 5),
        file("d", 0),
        file("e", 9),
        file("f", 7),
    ]);
    assert_eq!(names(&sorted), vec!["b", "e", "f", "a", "c", "d"]);
    assert!(sort_by_size(vec![]).is_empty());
    assert_eq!(names(&sort_by_size(vec![file("x", 1)])), vec!["x"]);
    let same = sort_by_size(vec![file("1", 3), file("2", 3), file("3", 3)]);
    assert_eq!(names(&same), vec!["1", "2", "3"]);
    let rising = sort_by_size(vec![file("1", 1), file("2", 2), file("3", 3)]);
    assert_eq!(names(&rising), vec!["3", "2", "1"]);
}

#[test]
fn sorting_agrees_with_the_stable_sort_of_the_standard_library() {
    let mut seed: u64 = 12345;
    for round in 0..50 {
        let mut input = Vec::new();
        for i in 0..(round % 17) {
            seed = seed.wrapping_mul(6364136223846793005).wrapping_add(1442695040888963407);
            input.push((format!("n{}", i), (seed >> 33) % 5));
        }
        let mut expected = input.clone();
        expected.sort_by(|a, b| b.1.cmp(&a.1));
        let sorted = sort_by_size(input.iter().map(|(n, s)| file(n, *s)).collect());
        let got: Vec<(String, u64)> = sorted.iter().map(|n| (n.name.clone(), n.size)).collect();
        assert_eq!(got, expected);
    }
}

#[test]
fn a_node_is_inserted_behind_the_last_that_is_as_large() {
    let mut nodes = vec![file("a", 9), file("b", 5), file("c", 5), file("d", 1)];
    insert_node(&mut nodes, file("x", 5));
    assert_eq!(names(&nodes), vec!["a", "b", "c", "x", "d"]);
    insert_node(&mut nodes, file("y", 10));
    assert_eq!(names(&nodes), vec!["y", "a", "b", "c", "x", "d"]);
    insert_node(&mut nodes, file("z", 0));
    assert_eq!(names(&nodes), vec!["y", "a", "b", "c", "x", "d", "z"]);
    let mut empty = Vec::new();
    insert_node(&mut empty, file("only", 3));
    assert_eq!(names(&empty), vec!["only"]);
}

#[test]
fn sizes_and_file_counts_add_up() {
    assert_eq!(totals(&vec![]), (0, 0));
    assert_eq!(totals(&vec![file("a", 5), dir("b", 100, 7), file("c", 1)]), (106, 9));
    assert_eq!(totals(&vec![file("a", u64::MAX), file("b", 1)]), (u64::MAX, 2));
    assert_eq!(totals(&vec![dir("a", 1, u64::MAX), dir("b", 1, u64::MAX)]), (2, u64::MAX));
    assert_eq!(sum_sizes(&vec![]), 0);
    assert_eq!(sum_sizes(&vec![1, 2, 3]), 6);
    assert_eq!(sum_sizes(&vec![u64::MAX - 1, 1, 1]), u64::MAX);
}

#[test]
fn a_directory_is_the_sum_of_its_entries() {
    let node = directory_node(
        "root".to_string(),
        "/root".to_string(),
        vec![dir("small", 10, 2), dir("big", 50, 3)],
        vec![file("f", 10), file("g", 70)],
    );
    assert_eq!(node.name, "root");
    assert_eq!(node.path, "/root");
    assert!(node.is_dir);
    assert_eq!(node.last_modified, 0);
    assert_eq!(node.size, 140);
    assert_eq!(node.file_count, 7);
    assert_eq!(names(node.children.as_ref().unwrap()), vec!["g", "big", "small", "f"]);

    let empty = directory_node(String::new(), "/".to_string(), vec![], vec![]);
    assert_eq!((empty.size, empty.file_count), (0, 0));
    assert!(empty.children.unwrap().is_empty());
}

#[test]
fn a_subdirectory_counts_its_files_without_listing_them() {
    let (size, count, children) =
        summarize_subdirectory(&vec![5, 5, 1], vec![dir("a", 10, 4), dir("b", 20, 1)]);
    assert_eq!((size, count), (41, 8));
    assert_eq!(names(&children), vec!["b", "a"]);
    let (size, count, children) = summarize_subdirectory(&vec![], vec![]);
    assert_eq!((size, count), (0, 0));
    assert!(children.is_empty());
    let (size, count, _) = summarize_subdirectory(&vec![u64::MAX], vec![dir("a", 1, u64::MAX)]);
    assert_eq!((size, count), (u64::MAX, u64::MAX));
}
