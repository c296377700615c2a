use ai_write_novel::gemini::Schema;
use ai_write_novel::tools::{
    get_agent_tools, get_coordinate_schema, get_tool_declarations, plan_wiki_upsert,
    route_file_tool, route_tool_call, unknown_tool_message, wiki_document_text, wiki_folder,
    FileToolRequest, ToolArgs,
    ToolRequest,
};

fn no_args() -> ToolArgs {
    ToolArgs {
        path: None,
        content: None,
        entity_type: None,
        name: None,
        tags: None,
        file_path: None,
        directory: None,
    }
}

fn prop_names(s: &Schema) -> Vec<String> {
    s.properties.as_ref().unwrap().iter().map(|(n, _)| n.clone()).collect()
}

#[test]
fn declared_tools() {
    let decls = get_tool_declarations();
    assert_eq!(decls.len(), 1);
    let names: Vec<&str> = decls[0].function_declarations.iter().map(|d| d.name.as_str()).collect();
    assert_eq!(
        names,
        vec!["list_directory", "read_file", "write_file", "delete_file", "wiki_list_entities", "wiki_upsert_entity"]
    );
    let f = &decls[0].function_declarations;
    assert_eq!(f[0].parameters.field_type, "object");
    assert_eq!(prop_names(&f[0].parameters), vec!["path"]);
    assert_eq!(f[0].parameters.required, Some(vec!["path".to_string()]));
    assert_eq!(
        f[1].description,
        "Đọc nội dung chi tiết của một file .md."
    );
    assert_eq!(prop_names(&f[2].parameters), vec!["path", "content"]);
    assert_eq!(prop_names(&f[4].parameters), Vec::<String>::new());
    assert_eq!(f[4].parameters.required, Some(vec![]));
    let upsert = &f[5].parameters;
    assert_eq!(prop_names(upsert), vec!["entity_type", "name", "content", "tags"]);
    let tags = &upsert.properties.as_ref().unwrap()[3].1;
    assert_eq!(tags.field_type, "array");
    assert_eq!(tags.items.as_ref().unwrap().field_type, "string");
    assert_eq!(
        upsert.required,
        Some(vec!["entity_type".to_string(), "name".to_string(), "content".to_string()])
    );
}

#[test]
fn coordinator_schema() {
    let s = get_coordinate_schema();
    assert_eq!(s.field_type, "object");
    assert_eq!(prop_names(&s), vec!["explanation", "agent"]);
    assert_eq!(s.required, Some(vec!["explanation".to_string(), "agent".to_string()]));
    let agent = &s.properties.as_ref().unwrap()[1].1;
    assert_eq!(agent.field_type, "string");
    assert_eq!(
        agent.description.as_deref(),
        Some("Loại agent: 'chat', 'ideation', 'writing', 'general'. Null nếu trả lời trực tiếp.")
    );
}

#[test]
fn basic_file_tools() {
    let t = get_agent_tools();
    let names: Vec<&str> = t[0].function_declarations.iter().map(|d| d.name.as_str()).collect();
    assert_eq!(names, vec!["read_file", "write_file", "list_files"]);
    assert_eq!(prop_names(&t[0].function_declarations[2].parameters), vec!["directory"]);
}

#[test]
fn tool_calls_are_routed_with_defaults() {
    match route_tool_call("list_directory", &no_args()) {
        ToolRequest::ListDirectory { path } => assert_eq!(path, "."),
        _ => panic!("list_directory"),
    }
    match route_tool_call("read_file", &no_args()) {
        ToolRequest::ReadFile { path } => assert_eq!(path, ""),
        _ => panic!("read_file"),
    }
    let mut args = no_args();
    args.path = Some("Chương/1.md".to_string());
    args.content = Some("nội dung".to_string());
    match route_tool_call("write_file", &args) {
        ToolRequest::WriteFile { path, content } => {
            assert_eq!(path, "Chương/1.md");
            assert_eq!(content, "nội dung");
        }
        _ => panic!("write_file"),
    }
    assert!(matches!(route_tool_call("delete_file", &args), ToolRequest::DeleteFile { .. }));
    assert!(matches!(route_tool_call("wiki_list_entities", &args), ToolRequest::WikiListEntities));
    args.tags = Some(vec![Some("a".to_string()), None]);
    match route_tool_call("wiki_upsert_entity", &args) {
        ToolRequest::WikiUpsertEntity { entity_type, name, content, tags } => {
            assert_eq!(entity_type, "Others");
            assert_eq!(name, "Unnamed");
            assert_eq!(content, "nội dung");
            assert_eq!(tags, vec!["a".to_string(), "".to_string()]);
        }
        _ => panic!("wiki_upsert_entity"),
    }
    match route_tool_call("google_search", &args) {
        ToolRequest::Unknown { name } => assert_eq!(name, "google_search"),
        _ => panic!("unknown"),
    }
}

#[test]
fn unknown_tool_error() {
    assert_eq!(unknown_tool_message("abc"), "Công cụ không tồn tại: abc");
}

#[test]
fn wiki_folders() {
    assert_eq!(wiki_folder("Character"), "Characters");
    assert_eq!(wiki_folder("NHÂN VẬT"), "Characters");
    assert_eq!(wiki_folder("world"), "World");
    assert_eq!(wiki_folder("Bối Cảnh"), "World");
    assert_eq!(wiki_folder("LORE"), "Lore");
    assert_eq!(wiki_folder("kiến thức"), "Lore");
    assert_eq!(wiki_folder("Plot"), "Plot");
    assert_eq!(wiki_folder("Cốt truyện"), "Plot");
    assert_eq!(wiki_folder("vũ khí"), "Others");
}

#[test]
fn wiki_entity_file() {
    let (path, doc) = plan_wiki_upsert(
        "character",
        "An",
        "Một kiếm sĩ.",
        &vec!["chinh".to_string(), "bi-an".to_string()],
    );
    assert_eq!(path, "wiki/Characters/An.md");
    assert_eq!(doc, "---\ntype: Characters\ntags: [\"chinh\", \"bi-an\"]\n---\n\nMột kiếm sĩ.");
    let (_, doc) = plan_wiki_upsert("x", "B", "", &vec![]);
    assert_eq!(doc, "---\ntype: Others\ntags: []\n---\n\n");
}

#[test]
fn basic_file_tool_calls() {
    let mut args = no_args();
    args.file_path = Some("a.md".to_string());
    match route_file_tool("read_file", &args) {
        FileToolRequest::Read { file_path } => assert_eq!(file_path, "a.md"),
        _ => panic!("read"),
    }
    match route_file_tool("write_file", &no_args()) {
        FileToolRequest::Write { file_path, content } => {
            assert_eq!(file_path, "");
            assert_eq!(content, "");
        }
        _ => panic!("write"),
    }
    match route_file_tool("list_files", &no_args()) {
        FileToolRequest::List { directory } => assert_eq!(directory, None),
        _ => panic!("list"),
    }
    match route_file_tool("delete", &no_args()) {
        FileToolRequest::Unknown { error } => assert_eq!(error, "Unknown tool: delete"),
        _ => panic!("unknown"),
    }
}

#[test]
fn wiki_document_layout() {
    assert_eq!(
        wiki_document_text("World", "[\"a\"]", "Mô tả"),
        "---\ntype: World\ntags: [\"a\"]\n---\n\nMô tả"
    );
}

#[test]
fn wiki_entities_live_in_the_wiki_folder() {
    let (path, doc) = plan_wiki_upsert("CHARACTER", "VuongLam", "abc", &vec!["a".to_string()]);
    assert_eq!(path, "wiki/Characters/VuongLam.md");
    assert_eq!(doc, "---\ntype: Characters\ntags: [\"a\"]\n---\n\nabc");
}

#[test]
fn property_names_are_distinct() {
    let mut schemas = vec![get_coordinate_schema()];
    for d in get_tool_declarations().into_iter().chain(get_agent_tools()) {
        for f in d.function_declarations {
            schemas.push(f.parameters);
        }
    }
    for s in &schemas {
        let mut names = prop_names(s);
        let n = names.len();
        names.sort();
        names.dedup();
        assert_eq!(names.len(), n);
    }
}
