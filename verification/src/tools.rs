//! The tools offered to the model: their declarations, and how a call is routed to one.

use vstd::prelude::*;
use vstd::string::*;
use crate::gemini::{
    declares, distinct_names, is_flat, is_object, is_param, opt_view, FunctionDecl, ParamSpec, Schema,
    ToolDeclaration,
};

verus! {

/// A required-name list.
pub open spec fn name_views(v: Seq<String>) -> Seq<Seq<char>> {
    v.map_values(|x: String| x@)
}

fn param(name: &str, ty: &str, description: &str) -> (r: (String, Schema))
    ensures
        r.0@ == name@,
        is_param(
            r.1,
            ParamSpec { name: name@, ty: ty@, description: Some(description@), item_ty: None },
        ),
{
    (
        String::from_str(name),
        Schema {
            field_type: String::from_str(ty),
            properties: None,
            items: None,
            required: None,
            description: Some(String::from_str(description)),
        },
    )
}

fn array_param(name: &str, item_ty: &str, description: &str) -> (r: (String, Schema))
    ensures
        r.0@ == name@,
        is_param(
            r.1,
            ParamSpec {
                name: name@,
                ty: "array"@,
                description: Some(description@),
                item_ty: Some(item_ty@),
            },
        ),
{
    let item = Schema {
        field_type: String::from_str(item_ty),
        properties: None,
        items: None,
        required: None,
        description: None,
    };
    (
        String::from_str(name),
        Schema {
            field_type: String::from_str("array"),
            properties: None,
            items: Some(Box::new(item)),
            required: None,
            description: Some(String::from_str(description)),
        },
    )
}

fn object_schema(properties: Vec<(String, Schema)>, required: Vec<String>) -> (s: Schema)
    ensures
        s.field_type@ == "object"@,
        s.items is None,
        s.description is None,
        s.properties == Some(properties),
        s.required == Some(required),
{
    Schema {
        field_type: String::from_str("object"),
        properties: Some(properties),
        items: None,
        required: Some(required),
        description: None,
    }
}

fn one_name(a: &str) -> (r: Vec<String>)
    ensures
        name_views(r@) == seq![a@],
{
    let mut r = Vec::new();
    r.push(String::from_str(a));
    assert(name_views(r@) =~= seq![a@]);
    r
}

fn two_names(a: &str, b: &str) -> (r: Vec<String>)
    ensures
        name_views(r@) == seq![a@, b@],
{
    let mut r = Vec::new();
    r.push(String::from_str(a));
    r.push(String::from_str(b));
    assert(name_views(r@) =~= seq![a@, b@]);
    r
}

fn three_names(a: &str, b: &str, c: &str) -> (r: Vec<String>)
    ensures
        name_views(r@) == seq![a@, b@, c@],
{
    let mut r = Vec::new();
    r.push(String::from_str(a));
    r.push(String::from_str(b));
    r.push(String::from_str(c));
    assert(name_views(r@) =~= seq![a@, b@, c@]);
    r
}

/// A string parameter with a description.
pub open spec fn string_param(name: Seq<char>, description: Seq<char>) -> ParamSpec {
    ParamSpec { name, ty: "string"@, description: Some(description), item_ty: None }
}

/// The description of the `path` parameter of `list_directory`.
pub open spec fn list_directory_path_doc() -> Seq<char> {
    "Đường dẫn thư mục muốn xem (ví dụ: '.', 'Chương', 'Nhân vật'). Dùng '.' cho thư mục gốc."@
}

/// The description of `list_directory`.
pub open spec fn list_directory_doc() -> Seq<char> {
    "Liệt kê danh sách file và thư mục trong một đường dẫn cụ thể (tương đối so với root)."@
}

/// Declaration of `list_directory`.
pub fn decl_list_directory() -> (d: FunctionDecl)
    ensures
        declares(
            d,
            "list_directory"@,
            list_directory_doc(),
            seq![string_param("path"@, list_directory_path_doc())],
            seq!["path"@],
        ),
{
    let mut props = Vec::new();
    let p = param(
        "path",
        "string",
        "Đường dẫn thư mục muốn xem (ví dụ: '.', 'Chương', 'Nhân vật'). Dùng '.' cho thư mục gốc.",
    );
    props.push(p);
    let req = one_name("path");
    let parameters = object_schema(props, req);
    let d = FunctionDecl {
        name: String::from_str("list_directory"),
        description: String::from_str(
            "Liệt kê danh sách file và thư mục trong một đường dẫn cụ thể (tương đối so với root).",
        ),
        parameters,
    };
    assert(is_object(d.parameters, seq![string_param("path"@, list_directory_path_doc())], seq!["path"@]));
    d
}

} // verus!

verus! {

/// The description of the `path` parameter of `read_file`.
pub open spec fn read_file_path_doc() -> Seq<char> {
    "Đường dẫn đến file cần đọc (ví dụ: 'Chương/Chuong1.md')."@
}

/// Declaration of `read_file`.
pub fn decl_read_file() -> (d: FunctionDecl)
    ensures
        declares(
            d,
            "read_file"@,
            "Đọc nội dung chi tiết của một file .md."@,
            seq![string_param("path"@, read_file_path_doc())],
            seq!["path"@],
        ),
{
    let mut props = Vec::new();
    props.push(param("path", "string", "Đường dẫn đến file cần đọc (ví dụ: 'Chương/Chuong1.md')."));
    let parameters = object_schema(props, one_name("path"));
    FunctionDecl {
        name: String::from_str("read_file"),
        description: String::from_str("Đọc nội dung chi tiết của một file .md."),
        parameters,
    }
}

/// The description of `write_file`.
pub open spec fn write_file_doc() -> Seq<char> {
    "Tạo mới hoặc ghi đè nội dung vào một file. Chuyên dùng để lưu chương truyện."@
}

/// Declaration of `write_file`.
pub fn decl_write_file() -> (d: FunctionDecl)
    ensures
        declares(
            d,
            "write_file"@,
            write_file_doc(),
            seq![
                string_param("path"@, "Đường dẫn file (ví dụ: 'Chương/Chuong2.md')."@),
                string_param("content"@, "Toàn bộ nội dung văn bản muốn ghi vào file."@),
            ],
            seq!["path"@, "content"@],
        ),
{
    proof {
        reveal_strlit("path");
        reveal_strlit("content");
    }
    let mut props = Vec::new();
    props.push(param("path", "string", "Đường dẫn file (ví dụ: 'Chương/Chuong2.md')."));
    props.push(param("content", "string", "Toàn bộ nội dung văn bản muốn ghi vào file."));
    proof {
        assert(props@[0].0@ == "path"@ && props@[1].0@ == "content"@);
        assert("path"@.len() != "content"@.len());
        assert(props@[0].0@ != props@[1].0@);
        assert(distinct_names(props@));
    }
    let parameters = object_schema(props, two_names("path", "content"));
    FunctionDecl {
        name: String::from_str("write_file"),
        description: String::from_str(
            "Tạo mới hoặc ghi đè nội dung vào một file. Chuyên dùng để lưu chương truyện.",
        ),
        parameters,
    }
}

/// Declaration of `delete_file`.
pub fn decl_delete_file() -> (d: FunctionDecl)
    ensures
        declares(
            d,
            "delete_file"@,
            "Xóa một file hoặc thư mục không còn cần thiết."@,
            seq![string_param("path"@, "Đường dẫn file hoặc thư mục cần xóa."@)],
            seq!["path"@],
        ),
{
    let mut props = Vec::new();
    props.push(param("path", "string", "Đường dẫn file hoặc thư mục cần xóa."));
    let parameters = object_schema(props, one_name("path"));
    FunctionDecl {
        name: String::from_str("delete_file"),
        description: String::from_str("Xóa một file hoặc thư mục không còn cần thiết."),
        parameters,
    }
}

/// Declaration of `wiki_list_entities`.
pub fn decl_wiki_list_entities() -> (d: FunctionDecl)
    ensures
        declares(
            d,
            "wiki_list_entities"@,
            "Liệt kê toàn bộ các thực thể kiến thức đang có trong Wiki (wiki/)."@,
            Seq::empty(),
            Seq::empty(),
        ),
{
    let props: Vec<(String, Schema)> = Vec::new();
    let req: Vec<String> = Vec::new();
    assert(name_views(req@) =~= Seq::<Seq<char>>::empty());
    let parameters = object_schema(props, req);
    FunctionDecl {
        name: String::from_str("wiki_list_entities"),
        description: String::from_str(
            "Liệt kê toàn bộ các thực thể kiến thức đang có trong Wiki (wiki/).",
        ),
        parameters,
    }
}

/// The description of `wiki_upsert_entity`.
pub open spec fn wiki_upsert_doc() -> Seq<char> {
    "Tạo mới hoặc cập nhật một thực thể trong Wiki (Nhân vật, Địa danh, Lore...). Tự động thêm Frontmatter."@
}

/// The parameters of `wiki_upsert_entity`.
pub open spec fn wiki_upsert_params() -> Seq<ParamSpec> {
    seq![
        string_param("entity_type"@, "Loại thực thể: Character, World, Lore, Plot."@),
        string_param("name"@, "Tên thực thể (ví dụ: 'NamChinh')."@),
        string_param("content"@, "Nội dung mô tả."@),
        ParamSpec {
            name: "tags"@,
            ty: "array"@,
            description: Some("Danh sách nhãn (ví dụ: ['quan-trong', 'bi-an'])."@),
            item_ty: Some("string"@),
        },
    ]
}

/// Declaration of `wiki_upsert_entity`.
pub fn decl_wiki_upsert_entity() -> (d: FunctionDecl)
    ensures
        declares(
            d,
            "wiki_upsert_entity"@,
            wiki_upsert_doc(),
            wiki_upsert_params(),
            seq!["entity_type"@, "name"@, "content"@],
        ),
{
    proof {
        reveal_strlit("entity_type");
        reveal_strlit("name");
        reveal_strlit("content");
        reveal_strlit("tags");
        assert("name"@[0] != "tags"@[0]);
    }
    let mut props = Vec::new();
    props.push(param("entity_type", "string", "Loại thực thể: Character, World, Lore, Plot."));
    props.push(param("name", "string", "Tên thực thể (ví dụ: 'NamChinh')."));
    props.push(param("content", "string", "Nội dung mô tả."));
    props.push(
        array_param("tags", "string", "Danh sách nhãn (ví dụ: ['quan-trong', 'bi-an'])."),
    );
    proof {
        assert(props@[0].0@ == "entity_type"@ && props@[1].0@ == "name"@);
        assert(props@[2].0@ == "content"@ && props@[3].0@ == "tags"@);
        assert(props@[0].0@ != props@[1].0@);
        assert(props@[0].0@ != props@[2].0@);
        assert(props@[0].0@ != props@[3].0@);
        assert(props@[1].0@ != props@[2].0@);
        assert(props@[1].0@ != props@[3].0@);
        assert(props@[2].0@ != props@[3].0@);
        assert(distinct_names(props@));
    }
    let parameters = object_schema(props, three_names("entity_type", "name", "content"));
    FunctionDecl {
        name: String::from_str("wiki_upsert_entity"),
        description: String::from_str(
            "Tạo mới hoặc cập nhật một thực thể trong Wiki (Nhân vật, Địa danh, Lore...). Tự động thêm Frontmatter.",
        ),
        parameters,
    }
}

/// The names of the tools, in declaration order.
pub open spec fn declared_tool_names() -> Seq<Seq<char>> {
    seq![
        "list_directory"@,
        "read_file"@,
        "write_file"@,
        "delete_file"@,
        "wiki_list_entities"@,
        "wiki_upsert_entity"@,
    ]
}

/// The declarations of all tools, as one group.
pub fn get_tool_declarations() -> (r: Vec<ToolDeclaration>)
    ensures
        r@.len() == 1,
        r@[0].function_declarations@.len() == 6,
        declares(
            r@[0].function_declarations@[0],
            "list_directory"@,
            list_directory_doc(),
            seq![string_param("path"@, list_directory_path_doc())],
            seq!["path"@],
        ),
        declares(
            r@[0].function_declarations@[1],
            "read_file"@,
            "Đọc nội dung chi tiết của một file .md."@,
            seq![string_param("path"@, read_file_path_doc())],
            seq!["path"@],
        ),
        declares(
            r@[0].function_declarations@[2],
            "write_file"@,
            write_file_doc(),
            seq![
                string_param("path"@, "Đường dẫn file (ví dụ: 'Chương/Chuong2.md')."@),
                string_param("content"@, "Toàn bộ nội dung văn bản muốn ghi vào file."@),
            ],
            seq!["path"@, "content"@],
        ),
        declares(
            r@[0].function_declarations@[3],
            "delete_file"@,
            "Xóa một file hoặc thư mục không còn cần thiết."@,
            seq![string_param("path"@, "Đường dẫn file hoặc thư mục cần xóa."@)],
            seq!["path"@],
        ),
        declares(
            r@[0].function_declarations@[4],
            "wiki_list_entities"@,
            "Liệt kê toàn bộ các thực thể kiến thức đang có trong Wiki (wiki/)."@,
            Seq::empty(),
            Seq::empty(),
        ),
        declares(
            r@[0].function_declarations@[5],
            "wiki_upsert_entity"@,
            wiki_upsert_doc(),
            wiki_upsert_params(),
            seq!["entity_type"@, "name"@, "content"@],
        ),
{
    let mut decls = Vec::new();
    decls.push(decl_list_directory());
    decls.push(decl_read_file());
    decls.push(decl_write_file());
    decls.push(decl_delete_file());
    decls.push(decl_wiki_list_entities());
    decls.push(decl_wiki_upsert_entity());
    let mut r = Vec::new();
    r.push(ToolDeclaration { function_declarations: decls });
    r
}

} // verus!

verus! {

/// The parameters of the coordinator's reply.
pub open spec fn coordinate_params() -> Seq<ParamSpec> {
    seq![
        string_param("explanation"@, "Lời giải thích hoặc nội dung trả lời trực tiếp"@),
        string_param(
            "agent"@,
            "Loại agent: 'chat', 'ideation', 'writing', 'general'. Null nếu trả lời trực tiếp."@,
        ),
    ]
}

/// The JSON schema the coordinator's reply must follow: an object with the string fields
/// `explanation` and `agent`, both required.
pub fn get_coordinate_schema() -> (s: Schema)
    ensures
        is_object(s, coordinate_params(), seq!["explanation"@, "agent"@]),
{
    proof {
        reveal_strlit("explanation");
        reveal_strlit("agent");
    }
    let mut props = Vec::new();
    props.push(param("explanation", "string", "Lời giải thích hoặc nội dung trả lời trực tiếp"));
    props.push(
        param(
            "agent",
            "string",
            "Loại agent: 'chat', 'ideation', 'writing', 'general'. Null nếu trả lời trực tiếp.",
        ),
    );
    proof {
        assert(props@[0].0@ == "explanation"@ && props@[1].0@ == "agent"@);
        assert("explanation"@.len() != "agent"@.len());
        assert(props@[0].0@ != props@[1].0@);
        assert(distinct_names(props@));
    }
    object_schema(props, two_names("explanation", "agent"))
}

/// The example path in the parameter docs of the basic file tools.
pub open spec fn file_path_doc() -> Seq<char> {
    "Đường dẫn file relative, ví dụ: Chương/Chương 1.md"@
}

/// The declarations of the basic file tools (`read_file`, `write_file`, `list_files`).
pub fn get_agent_tools() -> (r: Vec<ToolDeclaration>)
    ensures
        r@.len() == 1,
        r@[0].function_declarations@.len() == 3,
        declares(
            r@[0].function_declarations@[0],
            "read_file"@,
            "Đọc nội dung một file trong truyện"@,
            seq![string_param("file_path"@, file_path_doc())],
            seq!["file_path"@],
        ),
        declares(
            r@[0].function_declarations@[1],
            "write_file"@,
            "Ghi nội dung vào một file trong truyện"@,
            seq![
                string_param("file_path"@, file_path_doc()),
                string_param("content"@, "Nội dung mới để ghi vào file"@),
            ],
            seq!["file_path"@, "content"@],
        ),
        declares(
            r@[0].function_declarations@[2],
            "list_files"@,
            "Liệt kê tất cả files và folders trong một thư mục"@,
            seq![string_param("directory"@, "Đường dẫn thư mục relative, ví dụ: Chương"@)],
            seq!["directory"@],
        ),
{
    proof {
        reveal_strlit("file_path");
        reveal_strlit("content");
    }
    let mut read_props = Vec::new();
    read_props.push(param("file_path", "string", "Đường dẫn file relative, ví dụ: Chương/Chương 1.md"));
    let read = FunctionDecl {
        name: String::from_str("read_file"),
        description: String::from_str("Đọc nội dung một file trong truyện"),
        parameters: object_schema(read_props, one_name("file_path")),
    };
    let mut write_props = Vec::new();
    write_props.push(param("file_path", "string", "Đường dẫn file relative, ví dụ: Chương/Chương 1.md"));
    write_props.push(param("content", "string", "Nội dung mới để ghi vào file"));
    proof {
        assert(write_props@[0].0@ == "file_path"@ && write_props@[1].0@ == "content"@);
        assert("file_path"@.len() != "content"@.len());
        assert(write_props@[0].0@ != write_props@[1].0@);
        assert(distinct_names(write_props@));
    }
    let write = FunctionDecl {
        name: String::from_str("write_file"),
        description: String::from_str("Ghi nội dung vào một file trong truyện"),
        parameters: object_schema(write_props, two_names("file_path", "content")),
    };
    let mut list_props = Vec::new();
    list_props.push(param("directory", "string", "Đường dẫn thư mục relative, ví dụ: Chương"));
    let list = FunctionDecl {
        name: String::from_str("list_files"),
        description: String::from_str("Liệt kê tất cả files và folders trong một thư mục"),
        parameters: object_schema(list_props, one_name("directory")),
    };
    let mut decls = Vec::new();
    decls.push(read);
    decls.push(write);
    decls.push(list);
    let mut r = Vec::new();
    r.push(ToolDeclaration { function_declarations: decls });
    r
}

} // verus!

verus! {

/// The arguments of a tool call that the tools read: for each key, the value when it is a
/// JSON string; for `tags`, the elements of the array (each when it is a string).
pub struct ToolArgs {
    pub path: Option<String>,
    pub content: Option<String>,
    pub entity_type: Option<String>,
    pub name: Option<String>,
    pub tags: Option<Vec<Option<String>>>,
    pub file_path: Option<String>,
    pub directory: Option<String>,
}

/// What a tool call asks for, with the defaults of missing arguments filled in.
pub enum ToolRequest {
    ListDirectory { path: String },
    ReadFile { path: String },
    WriteFile { path: String, content: String },
    DeleteFile { path: String },
    WikiListEntities,
    WikiUpsertEntity { entity_type: String, name: String, content: String, tags: Vec<String> },
    Unknown { name: String },
}

/// View of a tool request.
pub enum RequestView {
    ListDirectory { path: Seq<char> },
    ReadFile { path: Seq<char> },
    WriteFile { path: Seq<char>, content: Seq<char> },
    DeleteFile { path: Seq<char> },
    WikiListEntities,
    WikiUpsertEntity {
        entity_type: Seq<char>,
        name: Seq<char>,
        content: Seq<char>,
        tags: Seq<Seq<char>>,
    },
    Unknown { name: Seq<char> },
}

impl View for ToolRequest {
    type V = RequestView;

    open spec fn view(&self) -> RequestView {
        match self {
            ToolRequest::ListDirectory { path } => RequestView::ListDirectory { path: path@ },
            ToolRequest::ReadFile { path } => RequestView::ReadFile { path: path@ },
            ToolRequest::WriteFile { path, content } => RequestView::WriteFile {
                path: path@,
                content: content@,
            },
            ToolRequest::DeleteFile { path } => RequestView::DeleteFile { path: path@ },
            ToolRequest::WikiListEntities => RequestView::WikiListEntities,
            ToolRequest::WikiUpsertEntity { entity_type, name, content, tags } => {
                RequestView::WikiUpsertEntity {
                    entity_type: entity_type@,
                    name: name@,
                    content: content@,
                    tags: name_views(tags@),
                }
            },
            ToolRequest::Unknown { name } => RequestView::Unknown { name: name@ },
        }
    }
}

/// The value of an optional string argument, or `default`.
pub open spec fn arg_or(a: Option<String>, default: Seq<char>) -> Seq<char> {
    match a {
        Some(s) => s@,
        None => default,
    }
}

/// The tags of a wiki entry: the array's elements, a non-string element as the empty
/// string; no array gives no tags.
pub open spec fn tag_views(t: Option<Vec<Option<String>>>) -> Seq<Seq<char>> {
    match t {
        Some(v) => v@.map_values(|e: Option<String>| arg_or(e, Seq::empty())),
        None => Seq::empty(),
    }
}

/// The request a call of the tool `name` with `args` makes.
pub open spec fn route(name: Seq<char>, args: ToolArgs) -> RequestView {
    if name == "list_directory"@ {
        RequestView::ListDirectory { path: arg_or(args.path, "."@) }
    } else if name == "read_file"@ {
        RequestView::ReadFile { path: arg_or(args.path, ""@) }
    } else if name == "write_file"@ {
        RequestView::WriteFile {
            path: arg_or(args.path, ""@),
            content: arg_or(args.content, ""@),
        }
    } else if name == "delete_file"@ {
        RequestView::DeleteFile { path: arg_or(args.path, ""@) }
    } else if name == "wiki_list_entities"@ {
        RequestView::WikiListEntities
    } else if name == "wiki_upsert_entity"@ {
        RequestView::WikiUpsertEntity {
            entity_type: arg_or(args.entity_type, "Others"@),
            name: arg_or(args.name, "Unnamed"@),
            content: arg_or(args.content, ""@),
            tags: tag_views(args.tags),
        }
    } else {
        RequestView::Unknown { name }
    }
}

fn arg_or_exec(a: &Option<String>, default: &str) -> (r: String)
    ensures
        r@ == arg_or(*a, default@),
{
    match a {
        Some(s) => s.clone(),
        None => String::from_str(default),
    }
}

fn tags_exec(t: &Option<Vec<Option<String>>>) -> (r: Vec<String>)
    ensures
        name_views(r@) == tag_views(*t),
{
    let mut r: Vec<String> = Vec::new();
    match t {
        Some(v) => {
            let mut i: usize = 0;
            while i < v.len()
                invariant
                    i <= v.len(),
                    name_views(r@) == v@.take(i as int).map_values(
                        |e: Option<String>| arg_or(e, Seq::empty()),
                    ),
                decreases v.len() - i,
            {
                let ghost before = name_views(r@);
                r.push(arg_or_exec(&v[i], ""));
                proof {
                    reveal_strlit("");
                    assert(""@ =~= Seq::<char>::empty());
                    assert(name_views(r@) =~= before.push(arg_or(v@[i as int], Seq::empty())));
                    assert(v@.take(i + 1) =~= v@.take(i as int).push(v@[i as int]));
                }
                i += 1;
            }
            assert(v@.take(v.len() as int) =~= v@);
        },
        None => {
            assert(name_views(r@) =~= Seq::<Seq<char>>::empty());
        },
    }
    r
}

/// Routes a call of the tool `name` to the request it makes.
pub fn route_tool_call(name: &str, args: &ToolArgs) -> (r: ToolRequest)
    ensures
        r@ == route(name@, *args),
{
    if crate::text::str_eq(name, "list_directory") {
        ToolRequest::ListDirectory { path: arg_or_exec(&args.path, ".") }
    } else if crate::text::str_eq(name, "read_file") {
        ToolRequest::ReadFile { path: arg_or_exec(&args.path, "") }
    } else if crate::text::str_eq(name, "write_file") {
        ToolRequest::WriteFile {
            path: arg_or_exec(&args.path, ""),
            content: arg_or_exec(&args.content, ""),
        }
    } else if crate::text::str_eq(name, "delete_file") {
        ToolRequest::DeleteFile { path: arg_or_exec(&args.path, "") }
    } else if crate::text::str_eq(name, "wiki_list_entities") {
        ToolRequest::WikiListEntities
    } else if crate::text::str_eq(name, "wiki_upsert_entity") {
        ToolRequest::WikiUpsertEntity {
            entity_type: arg_or_exec(&args.entity_type, "Others"),
            name: arg_or_exec(&args.name, "Unnamed"),
            content: arg_or_exec(&args.content, ""),
            tags: tags_exec(&args.tags),
        }
    } else {
        ToolRequest::Unknown { name: String::from_str(name) }
    }
}

/// The error answered for a call of a tool that does not exist.
pub open spec fn unknown_tool_error(name: Seq<char>) -> Seq<char> {
    "Công cụ không tồn tại: "@ + name
}

/// The error answered for a call of a tool that does not exist.
pub fn unknown_tool_message(name: &str) -> (r: String)
    ensures
        r@ == unknown_tool_error(name@),
{
    String::from_str("Công cụ không tồn tại: ").concat(name)
}

/// Each argument of a call feeds its own field of the request: `path` the path of the
/// file tools (`.` for a listing, empty otherwise when missing), `content` the content,
/// `entity_type` the entity's type (`Others` when missing), `name` its name (`Unnamed`
/// when missing), and each element of `tags` the tag at its place (empty when it is not a
/// string).
pub proof fn law_arguments_feed_their_fields(args: ToolArgs)
    ensures
        route("list_directory"@, args) == (RequestView::ListDirectory {
            path: match args.path {
                Some(p) => p@,
                None => "."@,
            },
        }),
        route("read_file"@, args) matches RequestView::ReadFile { path } && (args.path matches Some(
            p,
        ) ==> path == p@),
        route("delete_file"@, args) matches RequestView::DeleteFile { path } && (args.path matches Some(
            p,
        ) ==> path == p@),
        route("write_file"@, args) matches RequestView::WriteFile { path, content } && (
        args.path matches Some(p) ==> path == p@) && (args.content matches Some(c) ==> content
            == c@),
        route("wiki_upsert_entity"@, args) matches RequestView::WikiUpsertEntity {
            entity_type,
            name,
            content,
            tags,
        } && entity_type == match args.entity_type {
            Some(e) => e@,
            None => "Others"@,
        } && name == match args.name {
            Some(n) => n@,
            None => "Unnamed"@,
        } && (args.content matches Some(c) ==> content == c@) && tags.len() == match args.tags {
            Some(v) => v@.len(),
            None => 0,
        } && (args.tags matches Some(v) ==> forall|i: int|
            0 <= i < v@.len() ==> tags[i] == match #[trigger] v@[i] {
                Some(t) => t@,
                None => Seq::<char>::empty(),
            }),
{
    reveal_strlit("list_directory");
    reveal_strlit("read_file");
    reveal_strlit("write_file");
    reveal_strlit("delete_file");
    reveal_strlit("wiki_list_entities");
    reveal_strlit("wiki_upsert_entity");
    assert("read_file"@[0] != "list_directory"@[0]);
    assert("delete_file"@[0] != "list_directory"@[0]);
    assert("delete_file"@[0] != "read_file"@[0]);
    assert("write_file"@[0] != "list_directory"@[0]);
    assert("write_file"@[0] != "read_file"@[0]);
    assert("wiki_upsert_entity"@.len() != "list_directory"@.len());
    assert("wiki_upsert_entity"@.len() != "read_file"@.len());
    assert("wiki_upsert_entity"@.len() != "write_file"@.len());
    assert("wiki_upsert_entity"@.len() != "delete_file"@.len());
    assert("wiki_upsert_entity"@[5] != "wiki_list_entities"@[5]);
}

/// Every declared tool is routed to its own request, and a name that is not declared is
/// answered as an unknown tool.
pub proof fn law_declared_tools_are_routed(name: Seq<char>, args: ToolArgs)
    ensures
        declared_tool_names().contains(name) ==> !(route(name, args) is Unknown),
        !declared_tool_names().contains(name) ==> route(name, args) == (RequestView::Unknown {
            name,
        }),
{
    let names = declared_tool_names();
    if names.contains(name) {
        let k = choose|k: int| 0 <= k < names.len() && names[k] == name;
        assert(k == 0 || k == 1 || k == 2 || k == 3 || k == 4 || k == 5);
    } else {
        assert(name != names[0]);
        assert(name != names[1]);
        assert(name != names[2]);
        assert(name != names[3]);
        assert(name != names[4]);
        assert(name != names[5]);
    }
}

} // verus!

verus! {

/// The wiki folder of an entity type, given in lower case.
pub open spec fn wiki_folder_for(lower: Seq<char>) -> Seq<char> {
    if lower == "character"@ || lower == "nhân vật"@ {
        "Characters"@
    } else if lower == "world"@ || lower == "bối cảnh"@ {
        "World"@
    } else if lower == "lore"@ || lower == "kiến thức"@ {
        "Lore"@
    } else if lower == "plot"@ || lower == "cốt truyện"@ {
        "Plot"@
    } else {
        "Others"@
    }
}

/// The wiki folder of an entity type, named in English or Vietnamese, in any case.
pub fn wiki_folder(entity_type: &str) -> (r: &'static str)
    ensures
        r@ == wiki_folder_for(crate::text::lowercase(entity_type@)),
{
    let lower = crate::text::to_lowercase(entity_type);
    let l = lower.as_str();
    if crate::text::str_eq(l, "character") || crate::text::str_eq(l, "nhân vật") {
        "Characters"
    } else if crate::text::str_eq(l, "world") || crate::text::str_eq(l, "bối cảnh") {
        "World"
    } else if crate::text::str_eq(l, "lore") || crate::text::str_eq(l, "kiến thức") {
        "Lore"
    } else if crate::text::str_eq(l, "plot") || crate::text::str_eq(l, "cốt truyện") {
        "Plot"
    } else {
        "Others"
    }
}

/// The path of a wiki entity's file, relative to the story root.
pub open spec fn wiki_entity_path(folder: Seq<char>, name: Seq<char>) -> Seq<char> {
    "wiki/"@ + folder + "/"@ + name + ".md"@
}

/// The text `Debug` gives for a list of strings (`["a", "b"]`, with Rust string escapes).
pub uninterp spec fn debug_list(items: Seq<Seq<char>>) -> Seq<char>;

/// `format!("{:?}", items)`: the text is named by `debug_list`, a function of the items
/// alone; Rust's string escaping is not written out here.
#[verifier::external_body]
fn debug_format_list(items: &Vec<String>) -> (r: String)
    ensures
        r@ == debug_list(name_views(items@)),
{
    format!("{items:?}")
}

/// The file of a wiki entity: a front matter with its type and its tags (as written by
/// `tags_text`), then its content.
pub open spec fn wiki_document(folder: Seq<char>, tags_text: Seq<char>, content: Seq<char>) -> Seq<
    char,
> {
    "---\n"@ + "type: "@ + folder + "\n"@ + "tags: "@ + tags_text + "\n"@ + "---\n\n"@ + content
}

/// The file of a wiki entity in the folder `folder`, once its tags are written as text.
pub fn wiki_document_text(folder: &str, tags_text: &str, content: &str) -> (r: String)
    ensures
        r@ == wiki_document(folder@, tags_text@, content@),
{
    String::from_str("---\n").concat("type: ").concat(folder).concat("\n").concat("tags: ").concat(
        tags_text,
    ).concat("\n").concat("---\n\n").concat(content)
}

/// The path and the text of the file that creates or updates a wiki entity.
pub fn plan_wiki_upsert(entity_type: &str, name: &str, content: &str, tags: &Vec<String>) -> (r: (
    String,
    String,
))
    ensures
        r.0@ == wiki_entity_path(wiki_folder_for(crate::text::lowercase(entity_type@)), name@),
        r.1@ == wiki_document(
            wiki_folder_for(crate::text::lowercase(entity_type@)),
            debug_list(name_views(tags@)),
            content@,
        ),
{
    let folder = wiki_folder(entity_type);
    let path = String::from_str("wiki/").concat(folder).concat("/").concat(name).concat(".md");
    let tags_text = debug_format_list(tags);
    let doc = wiki_document_text(folder, tags_text.as_str(), content);
    (path, doc)
}

/// What a call of the basic file tools asks for.
pub enum FileToolRequest {
    Read { file_path: String },
    Write { file_path: String, content: String },
    List { directory: Option<String> },
    Unknown { error: String },
}

/// `Unknown tool: {name}`.
pub open spec fn unknown_file_tool(name: Seq<char>) -> Seq<char> {
    "Unknown tool: "@ + name
}

/// Routes a call of the basic file tools: `read_file` and `write_file` read `file_path`
/// (and `content`), empty when missing; `list_files` reads `directory`, kept optional.
pub fn route_file_tool(tool_name: &str, args: &ToolArgs) -> (r: FileToolRequest)
    ensures
        tool_name@ == "read_file"@ ==> (r matches FileToolRequest::Read { file_path }
            && file_path@ == arg_or(args.file_path, ""@)),
        tool_name@ == "write_file"@ ==> (r matches FileToolRequest::Write { file_path, content }
            && file_path@ == arg_or(args.file_path, ""@) && content@ == arg_or(args.content, ""@)),
        tool_name@ == "list_files"@ ==> (r matches FileToolRequest::List { directory }
            && opt_view(directory) == opt_view(args.directory)),
        tool_name@ != "read_file"@ && tool_name@ != "write_file"@ && tool_name@ != "list_files"@
            ==> (r matches FileToolRequest::Unknown { error } && error@ == unknown_file_tool(
            tool_name@,
        )),
{
    proof {
        reveal_strlit("read_file");
        reveal_strlit("write_file");
        reveal_strlit("list_files");
        assert("write_file"@.len() != "read_file"@.len());
        assert("list_files"@.len() != "read_file"@.len());
        assert("list_files"@[0] != "write_file"@[0]);
    }
    if crate::text::str_eq(tool_name, "read_file") {
        FileToolRequest::Read { file_path: arg_or_exec(&args.file_path, "") }
    } else if crate::text::str_eq(tool_name, "write_file") {
        FileToolRequest::Write {
            file_path: arg_or_exec(&args.file_path, ""),
            content: arg_or_exec(&args.content, ""),
        }
    } else if crate::text::str_eq(tool_name, "list_files") {
        let directory = match &args.directory {
            Some(d) => Some(d.clone()),
            None => None,
        };
        FileToolRequest::List { directory }
    } else {
        FileToolRequest::Unknown { error: String::from_str("Unknown tool: ").concat(tool_name) }
    }
}

} // verus!
