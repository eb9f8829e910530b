//! Content that routers hand back, on the host's side and as a sandboxed
//! router's component delivers it, and the total conversion from the one
//! to the other.
//!
//! The two sides differ where the component carries plain text: a
//! timestamp as RFC 3339 text, a tool's input schema as key and data. Where
//! the two sides agree, one type serves both.
use vstd::prelude::*;
use crate::convert::{KeyValue, UtcInstant, rfc3339_instant, string_to_datetime, value_to_json, object_text, json_parses};
use crate::rpc::json_quoted;
use crate::lists::{Tool, Resource};

verus! {

/// Who a message or an annotation is meant for.
#[derive(PartialEq, Eq, Structural, Debug, Clone, Copy)]
pub enum Role {
    User,
    Assistant,
}

/// Notes on a piece of content. The priority, a 32-bit float, is carried as
/// its bit pattern.
pub struct Annotations {
    pub audience: Option<Vec<Role>>,
    pub priority_bits: Option<u32>,
    pub timestamp: Option<UtcInstant>,
}

pub struct TextContent {
    pub text: String,
    pub annotations: Option<Annotations>,
}

pub struct ImageContent {
    pub data: String,
    pub mime_type: String,
    pub annotations: Option<Annotations>,
}

/// What a resource holds: text, or a blob encoded as text.
pub enum ResourceContents {
    Text { uri: String, mime_type: Option<String>, text: String },
    Blob { uri: String, mime_type: Option<String>, blob: String },
}

pub struct EmbeddedResource {
    pub resource: ResourceContents,
    pub annotations: Option<Annotations>,
}

pub enum Content {
    Text(TextContent),
    Image(ImageContent),
    Resource(EmbeddedResource),
}

pub struct CallToolResult {
    pub content: Vec<Content>,
    pub is_error: Option<bool>,
}

pub struct ReadResourceResult {
    pub contents: Vec<ResourceContents>,
}

pub enum PromptMessageContent {
    Text { text: String },
    Image { image: ImageContent },
    Resource { resource: EmbeddedResource },
}

pub struct PromptMessage {
    pub role: Role,
    pub content: PromptMessageContent,
}

pub struct GetPromptResult {
    pub description: Option<String>,
    pub messages: Vec<PromptMessage>,
}

// ---- as a component delivers them ----

/// Annotations as a component delivers them: the timestamp is RFC 3339 text.
pub struct GuestAnnotations {
    pub audience: Option<Vec<Role>>,
    pub priority_bits: Option<u32>,
    pub timestamp: Option<String>,
}

pub struct GuestTextContent {
    pub text: String,
    pub annotations: Option<GuestAnnotations>,
}

pub struct GuestImageContent {
    pub data: String,
    pub mime_type: String,
    pub annotations: Option<GuestAnnotations>,
}

pub struct GuestEmbeddedResource {
    pub resource_contents: ResourceContents,
    pub annotations: Option<GuestAnnotations>,
}

pub enum GuestContent {
    Text(GuestTextContent),
    Image(GuestImageContent),
    Embedded(GuestEmbeddedResource),
}

/// A tool as a component delivers it: the input schema is a key and data.
pub struct GuestTool {
    pub name: String,
    pub description: String,
    pub input_schema: KeyValue,
}

pub struct GuestResource {
    pub name: String,
    pub description: Option<String>,
    pub uri: String,
    pub mime_type: String,
    pub annotations: Option<GuestAnnotations>,
}

pub struct GuestCallToolResult {
    pub content: Vec<GuestContent>,
    pub is_error: Option<bool>,
}

pub enum GuestPromptMessageContent {
    Text(GuestTextContent),
    Image(GuestImageContent),
    McpResource(GuestEmbeddedResource),
}

pub struct GuestPromptMessage {
    pub role: Role,
    pub content: GuestPromptMessageContent,
}

pub struct GuestGetPromptResult {
    pub description: Option<String>,
    pub messages: Vec<GuestPromptMessage>,
}

// ---- what each conversion gives ----

/// The instant that optional RFC 3339 text denotes.
pub open spec fn instant_of(t: Option<String>) -> Option<UtcInstant> {
    match t {
        None => None,
        Some(s) => match rfc3339_instant(s@) {
            None => None,
            Some((secs, nanos)) => Some(UtcInstant { secs, nanos }),
        },
    }
}

/// `r` is the conversion of `g`: the audience is always present (empty where the
/// component gave none), and the timestamp is the instant its text denotes.
pub open spec fn annotations_match(r: Annotations, g: GuestAnnotations) -> bool {
    &&& r.priority_bits == g.priority_bits
    &&& r.timestamp == instant_of(g.timestamp)
    &&& r.audience is Some
    &&& match g.audience {
        Some(v) => r.audience->0@ == v@,
        None => r.audience->0@.len() == 0,
    }
}

pub open spec fn opt_annotations_match(r: Option<Annotations>, g: Option<GuestAnnotations>) -> bool {
    match (r, g) {
        (None, None) => true,
        (Some(a), Some(b)) => annotations_match(a, b),
        _ => false,
    }
}

pub open spec fn text_match(r: TextContent, g: GuestTextContent) -> bool {
    r.text == g.text && opt_annotations_match(r.annotations, g.annotations)
}

pub open spec fn image_match(r: ImageContent, g: GuestImageContent) -> bool {
    &&& r.data == g.data
    &&& r.mime_type == g.mime_type
    &&& opt_annotations_match(r.annotations, g.annotations)
}

pub open spec fn embedded_match(r: EmbeddedResource, g: GuestEmbeddedResource) -> bool {
    r.resource == g.resource_contents && opt_annotations_match(r.annotations, g.annotations)
}

pub open spec fn content_match(r: Content, g: GuestContent) -> bool {
    match (r, g) {
        (Content::Text(a), GuestContent::Text(b)) => text_match(a, b),
        (Content::Image(a), GuestContent::Image(b)) => image_match(a, b),
        (Content::Resource(a), GuestContent::Embedded(b)) => embedded_match(a, b),
        _ => false,
    }
}

/// The JSON text of a schema entry, as `value_to_json` writes it.
pub open spec fn schema_text(v: KeyValue) -> Seq<char> {
    object_text(
        json_quoted(v.key@),
        if json_parses(v.data@) {
            v.data@
        } else {
            json_quoted(v.data@)
        },
    )
}

pub open spec fn tool_match(r: Tool, g: GuestTool) -> bool {
    &&& r.name == g.name
    &&& r.description == g.description
    &&& r.input_schema@ == schema_text(g.input_schema)
}

pub open spec fn resource_match(r: Resource, g: GuestResource) -> bool {
    &&& r.name == g.name
    &&& r.description == g.description
    &&& r.uri == g.uri
    &&& r.mime_type == g.mime_type
    &&& opt_annotations_match(r.annotations, g.annotations)
}

pub open spec fn prompt_message_match(r: PromptMessage, g: GuestPromptMessage) -> bool {
    &&& r.role == g.role
    &&& match (r.content, g.content) {
        (PromptMessageContent::Text { text }, GuestPromptMessageContent::Text(b)) => text == b.text,
        (PromptMessageContent::Image { image }, GuestPromptMessageContent::Image(b)) => image_match(
            image,
            b,
        ),
        (
            PromptMessageContent::Resource { resource },
            GuestPromptMessageContent::McpResource(b),
        ) => embedded_match(resource, b),
        _ => false,
    }
}

/// Each of `r` is the conversion of the item of `g` at the same place.
pub open spec fn all_match<R, G>(r: Seq<R>, g: Seq<G>, m: spec_fn(R, G) -> bool) -> bool {
    r.len() == g.len() && forall|i: int| 0 <= i < r.len() ==> #[trigger] m(r[i], g[i])
}

// ---- the conversions ----

pub fn annotations_from_guest(g: GuestAnnotations) -> (r: Annotations)
    ensures
        annotations_match(r, g),
{
    let audience = match g.audience {
        Some(v) => v,
        None => Vec::new(),
    };
    Annotations {
        audience: Some(audience),
        priority_bits: g.priority_bits,
        timestamp: string_to_datetime(g.timestamp),
    }
}

pub fn opt_annotations_from_guest(g: Option<GuestAnnotations>) -> (r: Option<Annotations>)
    ensures
        opt_annotations_match(r, g),
{
    match g {
        Some(a) => Some(annotations_from_guest(a)),
        None => None,
    }
}

pub fn text_from_guest(g: GuestTextContent) -> (r: TextContent)
    ensures
        text_match(r, g),
{
    TextContent { text: g.text, annotations: opt_annotations_from_guest(g.annotations) }
}

pub fn image_from_guest(g: GuestImageContent) -> (r: ImageContent)
    ensures
        image_match(r, g),
{
    ImageContent {
        data: g.data,
        mime_type: g.mime_type,
        annotations: opt_annotations_from_guest(g.annotations),
    }
}

pub fn embedded_from_guest(g: GuestEmbeddedResource) -> (r: EmbeddedResource)
    ensures
        embedded_match(r, g),
{
    EmbeddedResource {
        resource: g.resource_contents,
        annotations: opt_annotations_from_guest(g.annotations),
    }
}

pub fn content_from_guest(g: GuestContent) -> (r: Content)
    ensures
        content_match(r, g),
{
    match g {
        GuestContent::Text(t) => Content::Text(text_from_guest(t)),
        GuestContent::Image(i) => Content::Image(image_from_guest(i)),
        GuestContent::Embedded(e) => Content::Resource(embedded_from_guest(e)),
    }
}

pub fn tool_from_guest(g: GuestTool) -> (r: Tool)
    ensures
        tool_match(r, g),
{
    Tool { name: g.name, description: g.description, input_schema: value_to_json(g.input_schema) }
}

pub fn resource_from_guest(g: GuestResource) -> (r: Resource)
    ensures
        resource_match(r, g),
{
    Resource {
        uri: g.uri,
        name: g.name,
        description: g.description,
        mime_type: g.mime_type,
        annotations: opt_annotations_from_guest(g.annotations),
    }
}

pub fn prompt_message_from_guest(g: GuestPromptMessage) -> (r: PromptMessage)
    ensures
        prompt_message_match(r, g),
{
    let content = match g.content {
        GuestPromptMessageContent::Text(t) => PromptMessageContent::Text { text: t.text },
        GuestPromptMessageContent::Image(i) => PromptMessageContent::Image {
            image: image_from_guest(i),
        },
        GuestPromptMessageContent::McpResource(e) => PromptMessageContent::Resource {
            resource: embedded_from_guest(e),
        },
    };
    PromptMessage { role: g.role, content }
}

pub fn contents_from_guest(g: Vec<GuestContent>) -> (r: Vec<Content>)
    ensures
        all_match(r@, g@, |a: Content, b: GuestContent| content_match(a, b)),
{
    let ghost gs = g@;
    let mut src = g;
    let mut r: Vec<Content> = Vec::new();
    let n = src.len();
    let mut i: usize = 0;
    while i < n
        invariant
            n == gs.len(),
            0 <= i <= n,
            src@ == gs.skip(i as int),
            r@.len() == i,
            forall|k: int| 0 <= k < i ==> content_match(#[trigger] r@[k], gs[k]),
        decreases n - i,
    {
        let item = src.remove(0);
        assert(item == gs[i as int]);
        r.push(content_from_guest(item));
        assert(src@ =~= gs.skip(i + 1));
        i = i + 1;
    }
    r
}

pub fn tools_from_guest(g: Vec<GuestTool>) -> (r: Vec<Tool>)
    ensures
        all_match(r@, g@, |a: Tool, b: GuestTool| tool_match(a, b)),
{
    let ghost gs = g@;
    let mut src = g;
    let mut r: Vec<Tool> = Vec::new();
    let n = src.len();
    let mut i: usize = 0;
    while i < n
        invariant
            n == gs.len(),
            0 <= i <= n,
            src@ == gs.skip(i as int),
            r@.len() == i,
            forall|k: int| 0 <= k < i ==> tool_match(#[trigger] r@[k], gs[k]),
        decreases n - i,
    {
        let item = src.remove(0);
        assert(item == gs[i as int]);
        r.push(tool_from_guest(item));
        assert(src@ =~= gs.skip(i + 1));
        i = i + 1;
    }
    r
}

pub fn resources_from_guest(g: Vec<GuestResource>) -> (r: Vec<Resource>)
    ensures
        all_match(r@, g@, |a: Resource, b: GuestResource| resource_match(a, b)),
{
    let ghost gs = g@;
    let mut src = g;
    let mut r: Vec<Resource> = Vec::new();
    let n = src.len();
    let mut i: usize = 0;
    while i < n
        invariant
            n == gs.len(),
            0 <= i <= n,
            src@ == gs.skip(i as int),
            r@.len() == i,
            forall|k: int| 0 <= k < i ==> resource_match(#[trigger] r@[k], gs[k]),
        decreases n - i,
    {
        let item = src.remove(0);
        assert(item == gs[i as int]);
        r.push(resource_from_guest(item));
        assert(src@ =~= gs.skip(i + 1));
        i = i + 1;
    }
    r
}

pub fn prompt_messages_from_guest(g: Vec<GuestPromptMessage>) -> (r: Vec<PromptMessage>)
    ensures
        all_match(r@, g@, |a: PromptMessage, b: GuestPromptMessage| prompt_message_match(a, b)),
{
    let ghost gs = g@;
    let mut src = g;
    let mut r: Vec<PromptMessage> = Vec::new();
    let n = src.len();
    let mut i: usize = 0;
    while i < n
        invariant
            n == gs.len(),
            0 <= i <= n,
            src@ == gs.skip(i as int),
            r@.len() == i,
            forall|k: int| 0 <= k < i ==> prompt_message_match(#[trigger] r@[k], gs[k]),
        decreases n - i,
    {
        let item = src.remove(0);
        assert(item == gs[i as int]);
        r.push(prompt_message_from_guest(item));
        assert(src@ =~= gs.skip(i + 1));
        i = i + 1;
    }
    r
}

pub fn call_tool_result_from_guest(g: GuestCallToolResult) -> (r: CallToolResult)
    ensures
        r.is_error == g.is_error,
        all_match(r.content@, g.content@, |a: Content, b: GuestContent| content_match(a, b)),
{
    CallToolResult { content: contents_from_guest(g.content), is_error: g.is_error }
}

pub fn get_prompt_result_from_guest(g: GuestGetPromptResult) -> (r: GetPromptResult)
    ensures
        r.description == g.description,
        all_match(
            r.messages@,
            g.messages@,
            |a: PromptMessage, b: GuestPromptMessage| prompt_message_match(a, b),
        ),
{
    GetPromptResult {
        description: g.description,
        messages: prompt_messages_from_guest(g.messages),
    }
}

} // verus!
