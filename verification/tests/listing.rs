use ai_write_novel::listing::{
    file_nodes, format_directory_listing, is_hidden_name, name_less, sort_entries, visible_entries,
};

fn e(is_dir: bool, name: &str, rel: &str) -> (bool, String, String) {
    (is_dir, name.to_string(), rel.to_string())
}

#[test]
fn names_compare_by_code_points() {
    assert!(name_less("a", "b"));
    assert!(!name_less("b", "a"));
    assert!(name_less("ab", "abc"));
    assert!(!name_less("abc", "abc"));
    assert!(name_less("", "a"));
    assert!(name_less("Z", "a"));
    assert!(name_less("Chuong", "Chương"));
}

#[test]
fn hidden_names() {
    assert!(is_hidden_name(".wiki"));
    assert!(is_hidden_name("."));
    assert!(!is_hidden_name("wiki"));
    assert!(!is_hidden_name(""));
}

#[test]
fn sorting_puts_folders_first_then_names() {
    let v = vec![
        (false, "b.md".to_string(), 1),
        (true, "z".to_string(), 2),
        (false, "a.md".to_string(), 3),
        (true, "c".to_string(), 4),
        (false, "a.md".to_string(), 5),
    ];
    let r = sort_entries(v);
    let tags: Vec<i32> = r.iter().map(|x| x.2).collect();
    // Equal entries keep their order.
    assert_eq!(tags, vec![4, 2, 3, 5, 1]);
}

#[test]
fn sorting_keeps_every_entry_in_order() {
    let v = vec![(true, "b".to_string(), 1), (true, "a".to_string(), 2), (false, "a".to_string(), 3)];
    let r = sort_entries(v);
    assert_eq!(r.len(), 3);
    for w in r.windows(2) {
        let (x, y) = (&w[0], &w[1]);
        assert!(x.0 && !y.0 || x.0 == y.0 && !name_less(&y.1, &x.1));
    }
    let mut tags: Vec<i32> = r.iter().map(|x| x.2).collect();
    tags.sort();
    assert_eq!(tags, vec![1, 2, 3]);
}

#[test]
fn hidden_entries_are_dropped() {
    let v = vec![e(true, ".wiki", ".wiki"), e(false, "a.md", "a.md"), e(false, ".env", ".env")];
    let r = visible_entries(v);
    assert_eq!(r.len(), 1);
    assert_eq!(r[0].1, "a.md");
}

#[test]
fn directory_listing_format() {
    let v = vec![
        e(false, "memory.md", "memory.md"),
        e(true, "Chương", "Chương"),
        e(true, ".wiki", ".wiki"),
        e(false, "Ghi chú.md", "Ghi chú.md"),
    ];
    assert_eq!(
        format_directory_listing(v),
        "📁 Chương (Chương)\n📄 Ghi chú.md (Ghi chú.md)\n📄 memory.md (memory.md)\n"
    );
}

#[test]
fn empty_directory_listing() {
    assert_eq!(format_directory_listing(vec![]), "Thư mục trống.");
    assert_eq!(format_directory_listing(vec![e(false, ".hidden", ".hidden")]), "Thư mục trống.");
}

#[test]
fn explorer_nodes() {
    let v = vec![
        e(false, "b.md", "Chương/b.md"),
        e(true, "sub", "Chương/sub"),
        e(false, ".DS_Store", "Chương/.DS_Store"),
        e(false, "a.md", "Chương/a.md"),
    ];
    let nodes = file_nodes(v);
    assert_eq!(nodes.len(), 3);
    assert_eq!(nodes[0].name, "sub");
    assert_eq!(nodes[0].path, "Chương/sub");
    assert_eq!(nodes[0].node_type, "folder");
    assert_eq!(nodes[1].name, "a.md");
    assert_eq!(nodes[1].node_type, "file");
    assert_eq!(nodes[2].name, "b.md");
    assert!(nodes.iter().all(|n| n.children.is_empty()));
}
