//! The conversation model exchanged with the Gemini API, and its mathematical view.

use vstd::prelude::*;

verus! {

/// A function call requested by the model: the tool's name and its arguments as JSON text.
pub struct FunctionCallData {
    pub name: String,
    pub args: String,
}

/// What a tool answered: `{"result": ..}` or `{"error": ..}`.
pub enum ToolResponse {
    Result(String),
    Error(String),
}

/// A tool's answer, sent back to the model under the tool's name.
pub struct FunctionResponseData {
    pub name: String,
    pub response: ToolResponse,
}

/// One part of a message.
pub enum GeminiPart {
    Text { text: String },
    FunctionCall { function_call: FunctionCallData },
    FunctionResponse { function_response: FunctionResponseData },
}

/// One message of the conversation: a role (`user`, `model`, `function`, `system`) and parts.
pub struct GeminiContent {
    pub role: String,
    pub parts: Vec<GeminiPart>,
}

/// The thinking level asked of the model.
pub struct ThinkingConfig {
    pub thinking_level: String,
}

/// Mathematical view of a message part.
pub enum PartView {
    Text(Seq<char>),
    Call { name: Seq<char>, args: Seq<char> },
    Response { name: Seq<char>, is_error: bool, text: Seq<char> },
}

/// Mathematical view of a message.
pub struct ContentView {
    pub role: Seq<char>,
    pub parts: Seq<PartView>,
}

impl View for FunctionCallData {
    type V = (Seq<char>, Seq<char>);

    open spec fn view(&self) -> (Seq<char>, Seq<char>) {
        (self.name@, self.args@)
    }
}

impl View for GeminiPart {
    type V = PartView;

    open spec fn view(&self) -> PartView {
        match self {
            GeminiPart::Text { text } => PartView::Text(text@),
            GeminiPart::FunctionCall { function_call } => PartView::Call {
                name: function_call.name@,
                args: function_call.args@,
            },
            GeminiPart::FunctionResponse { function_response } => match &function_response.response {
                ToolResponse::Result(t) => PartView::Response {
                    name: function_response.name@,
                    is_error: false,
                    text: t@,
                },
                ToolResponse::Error(t) => PartView::Response {
                    name: function_response.name@,
                    is_error: true,
                    text: t@,
                },
            },
        }
    }
}

/// The views of a sequence of parts.
pub open spec fn part_views(ps: Seq<GeminiPart>) -> Seq<PartView> {
    ps.map_values(|p: GeminiPart| p@)
}

impl View for GeminiContent {
    type V = ContentView;

    open spec fn view(&self) -> ContentView {
        ContentView { role: self.role@, parts: part_views(self.parts@) }
    }
}

/// The views of a sequence of messages.
pub open spec fn content_views(cs: Seq<GeminiContent>) -> Seq<ContentView> {
    cs.map_values(|c: GeminiContent| c@)
}

impl FunctionCallData {
    /// A copy of this call.
    pub fn duplicate(&self) -> (r: Self)
        ensures
            r@ == self@,
    {
        FunctionCallData { name: self.name.clone(), args: self.args.clone() }
    }
}

impl GeminiPart {
    /// A copy of this part.
    pub fn duplicate(&self) -> (r: Self)
        ensures
            r@ == self@,
    {
        match self {
            GeminiPart::Text { text } => GeminiPart::Text { text: text.clone() },
            GeminiPart::FunctionCall { function_call } => GeminiPart::FunctionCall {
                function_call: function_call.duplicate(),
            },
            GeminiPart::FunctionResponse { function_response } => {
                let response = match &function_response.response {
                    ToolResponse::Result(t) => ToolResponse::Result(t.clone()),
                    ToolResponse::Error(t) => ToolResponse::Error(t.clone()),
                };
                GeminiPart::FunctionResponse {
                    function_response: FunctionResponseData {
                        name: function_response.name.clone(),
                        response,
                    },
                }
            },
        }
    }

    /// A text part.
    pub fn text(text: String) -> (r: Self)
        ensures
            r@ == PartView::Text(text@),
    {
        GeminiPart::Text { text }
    }
}

/// Copies of all the parts of `ps`.
pub fn duplicate_parts(ps: &Vec<GeminiPart>) -> (r: Vec<GeminiPart>)
    ensures
        part_views(r@) == part_views(ps@),
{
    let mut r: Vec<GeminiPart> = Vec::new();
    let mut i: usize = 0;
    while i < ps.len()
        invariant
            i <= ps.len(),
            part_views(r@) == part_views(ps@).take(i as int),
        decreases ps.len() - i,
    {
        let ghost before = part_views(r@);
        r.push(ps[i].duplicate());
        assert(part_views(r@) =~= before.push(ps@[i as int]@));
        assert(part_views(ps@).take(i + 1) =~= part_views(ps@).take(i as int).push(ps@[i as int]@));
        i += 1;
    }
    assert(part_views(ps@).take(ps.len() as int) =~= part_views(ps@));
    r
}

impl GeminiContent {
    /// A copy of this message.
    pub fn duplicate(&self) -> (r: Self)
        ensures
            r@ == self@,
    {
        GeminiContent { role: self.role.clone(), parts: duplicate_parts(&self.parts) }
    }

    /// A message of one text part.
    pub fn from_text(role: String, text: String) -> (r: Self)
        ensures
            r@ == (ContentView { role: role@, parts: seq![PartView::Text(text@)] }),
    {
        let parts = vec![GeminiPart::Text { text }];
        let r = GeminiContent { role, parts };
        assert(part_views(r.parts@) =~= seq![PartView::Text(r.parts@[0]->text@)]);
        r
    }
}

/// A text message, as a view.
pub open spec fn text_message(role: Seq<char>, text: Seq<char>) -> ContentView {
    ContentView { role, parts: seq![PartView::Text(text)] }
}

} // verus!

verus! {

/// A JSON schema for function parameters; the properties are kept in declaration order
/// with distinct names.
pub struct Schema {
    pub field_type: String,
    pub properties: Option<Vec<(String, Schema)>>,
    pub items: Option<Box<Schema>>,
    pub required: Option<Vec<String>>,
    pub description: Option<String>,
}

/// A function the model may call.
pub struct FunctionDecl {
    pub name: String,
    pub description: String,
    pub parameters: Schema,
}

/// A group of function declarations.
pub struct ToolDeclaration {
    pub function_declarations: Vec<FunctionDecl>,
}

/// The view of an optional string.
pub open spec fn opt_view(o: Option<String>) -> Option<Seq<char>> {
    match o {
        Some(s) => Some(s@),
        None => None,
    }
}

/// The description of one parameter: its type, description and, for arrays, the type of
/// the items.
pub struct ParamSpec {
    pub name: Seq<char>,
    pub ty: Seq<char>,
    pub description: Option<Seq<char>>,
    pub item_ty: Option<Seq<char>>,
}

/// `s` is a schema of type `ty` with no properties, items or required list.
pub open spec fn is_flat(s: Schema, ty: Seq<char>, description: Option<Seq<char>>) -> bool {
    &&& s.field_type@ == ty
    &&& s.properties is None
    &&& s.items is None
    &&& s.required is None
    &&& opt_view(s.description) == description
}

/// `s` is the schema of the parameter described by `p`.
pub open spec fn is_param(s: Schema, p: ParamSpec) -> bool {
    &&& s.field_type@ == p.ty
    &&& s.properties is None
    &&& s.required is None
    &&& opt_view(s.description) == p.description
    &&& match p.item_ty {
        None => s.items is None,
        Some(t) => s.items matches Some(b) && is_flat(*b, t, None),
    }
}

/// No two properties of `props` have the same name (the properties form a map).
pub open spec fn distinct_names(props: Seq<(String, Schema)>) -> bool {
    forall|i: int, j: int|
        0 <= i < j < props.len() ==> (#[trigger] props[i]).0@ != (#[trigger] props[j]).0@
}

/// `s` is an object schema with exactly the parameters `ps`, in order, under distinct
/// names, and the required names `req`.
pub open spec fn is_object(s: Schema, ps: Seq<ParamSpec>, req: Seq<Seq<char>>) -> bool {
    &&& s.field_type@ == "object"@
    &&& s.properties matches Some(props) && distinct_names(props@)
    &&& s.items is None
    &&& s.description is None
    &&& s.required matches Some(r) && r@.map_values(|x: String| x@) == req
    &&& s.properties matches Some(props) && props@.len() == ps.len() && forall|i: int|
        0 <= i < ps.len() ==> (#[trigger] props@[i]).0@ == ps[i].name && is_param(
            props@[i].1,
            ps[i],
        )
}

/// `d` declares the function `name` with the description `description`, the parameters
/// `ps` and the required names `req`.
pub open spec fn declares(
    d: FunctionDecl,
    name: Seq<char>,
    description: Seq<char>,
    ps: Seq<ParamSpec>,
    req: Seq<Seq<char>>,
) -> bool {
    &&& d.name@ == name
    &&& d.description@ == description
    &&& is_object(d.parameters, ps, req)
}

} // verus!
