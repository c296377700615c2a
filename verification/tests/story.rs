use ai_write_novel::story::{
    markdown_stem, new_file_name, previous_chapters, story_context, story_sections, wiki_listing,
};

fn pair(a: &str, b: &str) -> (String, String) {
    (a.to_string(), b.to_string())
}

#[test]
fn markdown_names() {
    assert_eq!(markdown_stem("Chương 1.md"), Some("Chương 1".to_string()));
    assert_eq!(markdown_stem("a.md"), Some("a".to_string()));
    assert_eq!(markdown_stem("..md"), Some(".".to_string()));
    assert_eq!(markdown_stem(".md"), None);
    assert_eq!(markdown_stem("a.txt"), None);
    assert_eq!(markdown_stem("md"), None);
    assert_eq!(markdown_stem("a.MD"), None);
}

#[test]
fn new_files_get_the_md_extension() {
    assert_eq!(new_file_name("Chương 2"), "Chương 2.md");
    assert_eq!(new_file_name("Chương 2.md"), "Chương 2.md");
    assert_eq!(new_file_name(".md"), ".md");
    assert_eq!(new_file_name("md"), "md.md");
    assert_eq!(new_file_name(""), ".md");
}

#[test]
fn chapters_before_the_current_one() {
    let files = vec![
        pair("Chương 3.md", "ba"),
        pair("Chương 1.md", "một"),
        pair("ghi chú.txt", "bỏ qua"),
        pair("Chương 2.md", "   \n"),
    ];
    assert_eq!(
        previous_chapters(files, "Chương/Chương 3.md"),
        "## Chương 1.md\nmột\n\n"
    );
}

#[test]
fn all_chapters_when_the_file_is_elsewhere() {
    let files = vec![pair("b.md", "B"), pair("a.md", "A")];
    assert_eq!(previous_chapters(files, "Nhân vật/An.md"), "## a.md\nA\n\n## b.md\nB\n\n");
    assert_eq!(previous_chapters(vec![], "x"), "");
    let files = vec![pair("a.md", "A")];
    assert_eq!(previous_chapters(files, "Chương/a.md"), "");
}

#[test]
fn context_sections() {
    let sections = vec![
        (
            "QUY TẮC TRUYỆN".to_string(),
            vec![pair("luật.md", "Không phép thuật"), pair("rỗng.md", " "), pair("x.txt", "x")],
        ),
        ("NHÂN VẬT".to_string(), vec![]),
        ("CỐT TRUYỆN".to_string(), vec![pair("mở đầu.md", "Bắt đầu")]),
    ];
    assert_eq!(
        story_context(&sections),
        "# KIẾN THỨC VỀ TRUYỆN\n\n## QUY TẮC TRUYỆN\n### luật\nKhông phép thuật\n\n\n## CỐT TRUYỆN\n### mở đầu\nBắt đầu\n\n\n"
    );
    assert_eq!(story_context(&vec![]), "# KIẾN THỨC VỀ TRUYỆN\n\n");
}

#[test]
fn context_folders() {
    let s = story_sections();
    assert_eq!(
        s,
        vec![
            ("Quy tắc", "QUY TẮC TRUYỆN"),
            ("Nhân vật", "NHÂN VẬT"),
            ("Vật phẩm", "VẬT PHẨM & BỐI CẢNH"),
            ("Cốt truyện", "CỐT TRUYỆN"),
        ]
    );
}

#[test]
fn wiki_entities() {
    let files = vec![
        pair("An.md", "wiki/Characters/An.md"),
        pair("notes.txt", "wiki/notes.txt"),
        pair("Rồng.md", "wiki/Lore/Rồng.md"),
    ];
    assert_eq!(
        wiki_listing(&files),
        "--- DANH SÁCH THỰC THỂ WIKI ---\n• wiki/Characters/An.md\n• wiki/Lore/Rồng.md\n"
    );
    assert_eq!(wiki_listing(&vec![]), "--- DANH SÁCH THỰC THỂ WIKI ---\n");
}
