//! How MCP parameter and result types are read from and written as JSON.
//!
//! Reading follows the rules of a derived deserializer: a struct is read
//! from an object (fields by name, unknown names ignored, absent or null
//! optional fields become `None`) or from an array holding exactly one item
//! per field, in declaration order. Writing produces objects whose keys are
//! in sorted order, leaving out the optional fields marked to be skipped.
use vstd::prelude::*;

use crate::json::{
    copy_entries, empty_array, entries_model, get_field, items_model, json_opt_string, json_str,
    json_string, lemma_array_model, lemma_object_model, obj_get, opt_str_model, JsonModel,
    JsonValue,
};
use crate::mcp::{
    ClientCapabilities, ClientInfo, InitializeParams, InitializeResult, LoggingCapabilities,
    Prompt, PromptArgument, PromptContent, PromptMessage, PromptRole, PromptsCapabilities,
    PromptsGetParams, PromptsGetResult, PromptsListParams, PromptsListResult, Resource,
    ResourceContent, ResourceReference, ResourcesCapabilities, ResourcesListParams,
    ResourcesListResult, ResourcesReadParams, ResourcesReadResult, SamplingCapabilities,
    ServerCapabilities, ServerInfo, Tool, ToolCallParams, ToolCallResult, ToolContent,
    ToolsCapabilities, ToolsListParams, ToolsListResult,
};

verus! {

// ---------------------------------------------------------------------------
// Reading
// ---------------------------------------------------------------------------

/// The value handed to field number `index`, named `name`, of a struct with
/// `count` fields: `None` when `m` cannot be read as such a struct,
/// `Some(None)` when an object lacks the field.
pub open spec fn field_of(m: JsonModel, name: Seq<char>, index: int, count: int) -> Option<
    Option<JsonModel>,
> {
    match m {
        JsonModel::Object(es) => Some(obj_get(es, name)),
        JsonModel::Array(items) => if items.len() == count {
            Some(Some(items[index]))
        } else {
            None
        },
        _ => None,
    }
}

/// The field as a required string.
pub open spec fn req_string(f: Option<Option<JsonModel>>) -> Option<Seq<char>> {
    match f {
        Some(Some(JsonModel::Str(s))) => Some(s),
        _ => None,
    }
}

/// The field as an optional string (`None` when it cannot be read).
pub open spec fn opt_string(f: Option<Option<JsonModel>>) -> Option<Option<Seq<char>>> {
    match f {
        Some(None) => Some(None),
        Some(Some(JsonModel::Null)) => Some(None),
        Some(Some(JsonModel::Str(s))) => Some(Some(s)),
        _ => None,
    }
}

/// The field as an optional JSON value.
pub open spec fn opt_value(f: Option<Option<JsonModel>>) -> Option<Option<JsonModel>> {
    match f {
        Some(None) => Some(None),
        Some(Some(JsonModel::Null)) => Some(None),
        Some(Some(v)) => Some(Some(v)),
        None => None,
    }
}

/// The field as an optional map from names to JSON values.
pub open spec fn opt_value_map(f: Option<Option<JsonModel>>) -> Option<
    Option<Seq<(Seq<char>, JsonModel)>>,
> {
    match f {
        Some(None) => Some(None),
        Some(Some(JsonModel::Null)) => Some(None),
        Some(Some(JsonModel::Object(es))) => Some(Some(es)),
        _ => None,
    }
}

/// All values of an object's entries are strings.
pub open spec fn all_strings(es: Seq<(Seq<char>, JsonModel)>) -> bool {
    forall|i: int| 0 <= i < es.len() ==> (#[trigger] es[i]).1 is Str
}

/// The strings of an object's entries.
pub open spec fn string_entries(es: Seq<(Seq<char>, JsonModel)>) -> Seq<(Seq<char>, Seq<char>)> {
    es.map_values(|e: (Seq<char>, JsonModel)| (e.0, e.1->Str_0))
}

/// The field as an optional map from names to strings.
pub open spec fn opt_string_map(f: Option<Option<JsonModel>>) -> Option<
    Option<Seq<(Seq<char>, Seq<char>)>>,
> {
    match f {
        Some(None) => Some(None),
        Some(Some(JsonModel::Null)) => Some(None),
        Some(Some(JsonModel::Object(es))) => if all_strings(es) {
            Some(Some(string_entries(es)))
        } else {
            None
        },
        _ => None,
    }
}

/// The field as an optional struct without fields: present when it is an
/// object or an empty array.
pub open spec fn opt_unit_struct(f: Option<Option<JsonModel>>) -> Option<bool> {
    match f {
        Some(None) => Some(false),
        Some(Some(JsonModel::Null)) => Some(false),
        Some(Some(JsonModel::Object(_))) => Some(true),
        Some(Some(JsonModel::Array(items))) => if items.len() == 0 {
            Some(true)
        } else {
            None
        },
        _ => None,
    }
}

/// The pairs of a string map.
pub open spec fn string_pairs(s: Seq<(String, String)>) -> Seq<(Seq<char>, Seq<char>)> {
    s.map_values(|e: (String, String)| (e.0@, e.1@))
}

/// Reads field `index` named `name` of a struct with `count` fields.
pub fn struct_field<'a>(v: &'a JsonValue, name: &str, index: usize, count: usize) -> (r: Option<
    Option<&'a JsonValue>,
>)
    requires
        index < count,
    ensures
        match field_of(v@, name@, index as int, count as int) {
            None => r is None,
            Some(None) => r matches Some(x) && x is None,
            Some(Some(m)) => r matches Some(Some(x)) && x@ == m,
        },
{
    match v {
        JsonValue::Object(es) => {
            proof {
                lemma_object_model(*es);
            }
            Some(get_field(es, name))
        },
        JsonValue::Array(items) => {
            proof {
                lemma_array_model(*items);
            }
            if items.len() == count {
                Some(Some(&items[index]))
            } else {
                None
            }
        },
        _ => None,
    }
}

/// Reads a required string field.
pub fn read_req_string(f: Option<Option<&JsonValue>>) -> (r: Option<String>)
    ensures
        match req_string(view_field(f)) {
            Some(s) => r matches Some(x) && x@ == s,
            None => r is None,
        },
{
    match f {
        Some(Some(JsonValue::String(s))) => Some(s.clone()),
        _ => None,
    }
}

/// The model of a field lookup.
pub open spec fn view_field(f: Option<Option<&JsonValue>>) -> Option<Option<JsonModel>> {
    match f {
        None => None,
        Some(None) => Some(None),
        Some(Some(v)) => Some(Some(v@)),
    }
}

/// Reads an optional string field.
pub fn read_opt_string(f: Option<Option<&JsonValue>>) -> (r: Option<Option<String>>)
    ensures
        match opt_string(view_field(f)) {
            Some(Some(s)) => r matches Some(Some(x)) && x@ == s,
            Some(None) => r matches Some(x) && x is None,
            None => r is None,
        },
{
    match f {
        Some(None) => Some(None),
        Some(Some(JsonValue::Null)) => Some(None),
        Some(Some(JsonValue::String(s))) => Some(Some(s.clone())),
        _ => None,
    }
}

/// Reads an optional JSON value field.
pub fn read_opt_value(f: Option<Option<&JsonValue>>) -> (r: Option<Option<JsonValue>>)
    ensures
        match opt_value(view_field(f)) {
            Some(Some(m)) => r matches Some(Some(x)) && x@ == m,
            Some(None) => r matches Some(x) && x is None,
            None => r is None,
        },
{
    match f {
        Some(None) => Some(None),
        Some(Some(JsonValue::Null)) => Some(None),
        Some(Some(v)) => Some(Some(v.deep_copy())),
        None => None,
    }
}

/// Reads an optional map from names to JSON values.
pub fn read_opt_value_map(f: Option<Option<&JsonValue>>) -> (r: Option<
    Option<Vec<(String, JsonValue)>>,
>)
    ensures
        match opt_value_map(view_field(f)) {
            Some(Some(es)) => r matches Some(Some(x)) && entries_model(x@) == es,
            Some(None) => r matches Some(x) && x is None,
            None => r is None,
        },
{
    match f {
        Some(None) => Some(None),
        Some(Some(JsonValue::Null)) => Some(None),
        Some(Some(JsonValue::Object(es))) => {
            proof {
                lemma_object_model(*es);
            }
            Some(Some(copy_entries(es)))
        },
        _ => None,
    }
}

/// Reads an optional map from names to strings.
pub fn read_opt_string_map(f: Option<Option<&JsonValue>>) -> (r: Option<
    Option<Vec<(String, String)>>,
>)
    ensures
        match opt_string_map(view_field(f)) {
            Some(Some(ps)) => r matches Some(Some(x)) && string_pairs(x@) == ps,
            Some(None) => r matches Some(x) && x is None,
            None => r is None,
        },
{
    match f {
        Some(None) => Some(None),
        Some(Some(JsonValue::Null)) => Some(None),
        Some(Some(JsonValue::Object(es))) => {
            proof {
                lemma_object_model(*es);
            }
            let ghost m = entries_model(es@);
            let mut out: Vec<(String, String)> = Vec::new();
            let mut i: usize = 0;
            while i < es.len()
                invariant
                    m == entries_model(es@),
                    view_field(f) == Some(Some(JsonModel::Object(m))),
                    i <= es@.len(),
                    out@.len() == i,
                    forall|j: int| 0 <= j < i ==> (#[trigger] m[j]).1 is Str,
                    forall|j: int|
                        0 <= j < i ==> (#[trigger] out@[j]).0@ == m[j].0 && out@[j].1@
                            == m[j].1->Str_0,
                decreases es@.len() - i,
            {
                match &es[i].1 {
                    JsonValue::String(s) => {
                        out.push((es[i].0.clone(), s.clone()));
                    },
                    _ => {
                        assert(!(m[i as int].1 is Str));
                        assert(!all_strings(m));
                        return None;
                    },
                }
                i = i + 1;
            }
            assert(string_pairs(out@) =~= string_entries(m));
            Some(Some(out))
        },
        _ => None,
    }
}

/// Reads an optional struct without fields.
pub fn read_opt_unit_struct(f: Option<Option<&JsonValue>>) -> (r: Option<bool>)
    ensures
        r == opt_unit_struct(view_field(f)),
{
    match f {
        Some(None) => Some(false),
        Some(Some(JsonValue::Null)) => Some(false),
        Some(Some(JsonValue::Object(_))) => Some(true),
        Some(Some(JsonValue::Array(items))) => {
            proof {
                lemma_array_model(*items);
            }
            if items.len() == 0 {
                Some(true)
            } else {
                None
            }
        },
        _ => None,
    }
}

/// `ClientInfo` read from JSON: its name and version.
pub open spec fn client_info_from(m: JsonModel) -> Option<(Seq<char>, Seq<char>)> {
    match (req_string(field_of(m, "name"@, 0, 2)), req_string(field_of(m, "version"@, 1, 2))) {
        (Some(n), Some(v)) => Some((n, v)),
        _ => None,
    }
}

/// `ClientCapabilities` read from JSON: the experimental map and whether
/// sampling is declared.
pub open spec fn client_capabilities_from(m: JsonModel) -> Option<
    (Option<Seq<(Seq<char>, JsonModel)>>, bool),
> {
    match (
        opt_value_map(field_of(m, "experimental"@, 0, 2)),
        opt_unit_struct(field_of(m, "sampling"@, 1, 2)),
    ) {
        (Some(e), Some(s)) => Some((e, s)),
        _ => None,
    }
}

/// A required struct field, read by `read`.
pub open spec fn req_struct<X>(f: Option<Option<JsonModel>>, read: spec_fn(JsonModel) -> Option<X>) -> Option<X> {
    match f {
        Some(Some(m)) => read(m),
        _ => None,
    }
}

/// `InitializeParams` read from JSON.
pub open spec fn initialize_params_from(m: JsonModel) -> Option<
    (Seq<char>, (Option<Seq<(Seq<char>, JsonModel)>>, bool), (Seq<char>, Seq<char>)),
> {
    match (
        req_string(field_of(m, "protocolVersion"@, 0, 3)),
        req_struct(field_of(m, "capabilities"@, 1, 3), |x: JsonModel| client_capabilities_from(x)),
        req_struct(field_of(m, "clientInfo"@, 2, 3), |x: JsonModel| client_info_from(x)),
    ) {
        (Some(v), Some(c), Some(i)) => Some((v, c, i)),
        _ => None,
    }
}

/// A struct whose only field is an optional string named `cursor`, read from JSON.
pub open spec fn cursor_params_from(m: JsonModel) -> Option<Option<Seq<char>>> {
    opt_string(field_of(m, "cursor"@, 0, 1))
}

/// `ToolCallParams` read from JSON: the tool name and its arguments.
pub open spec fn tool_call_params_from(m: JsonModel) -> Option<(Seq<char>, Option<JsonModel>)> {
    match (req_string(field_of(m, "name"@, 0, 2)), opt_value(field_of(m, "arguments"@, 1, 2))) {
        (Some(n), Some(a)) => Some((n, a)),
        _ => None,
    }
}

/// `ResourcesReadParams` read from JSON: the resource URI.
pub open spec fn resources_read_params_from(m: JsonModel) -> Option<Seq<char>> {
    req_string(field_of(m, "uri"@, 0, 1))
}

/// `PromptsGetParams` read from JSON: the prompt name and its arguments.
pub open spec fn prompts_get_params_from(m: JsonModel) -> Option<
    (Seq<char>, Option<Seq<(Seq<char>, Seq<char>)>>),
> {
    match (
        req_string(field_of(m, "name"@, 0, 2)),
        opt_string_map(field_of(m, "arguments"@, 1, 2)),
    ) {
        (Some(n), Some(a)) => Some((n, a)),
        _ => None,
    }
}

impl ClientInfo {
    pub open spec fn model(&self) -> (Seq<char>, Seq<char>) {
        (self.name@, self.version@)
    }

    pub fn from_json(v: &JsonValue) -> (r: Option<Self>)
        ensures
            match client_info_from(v@) {
                Some(x) => r matches Some(p) && p.model() == x,
                None => r is None,
            },
    {
        let name = read_req_string(struct_field(v, "name", 0, 2));
        let version = read_req_string(struct_field(v, "version", 1, 2));
        match (name, version) {
            (Some(name), Some(version)) => Some(ClientInfo { name, version }),
            _ => None,
        }
    }
}

/// The model of an optional map from names to JSON values.
pub open spec fn opt_entries_model(e: Option<Vec<(String, JsonValue)>>) -> Option<
    Seq<(Seq<char>, JsonModel)>,
> {
    match e {
        Some(v) => Some(entries_model(v@)),
        None => None,
    }
}

impl ClientCapabilities {
    pub open spec fn model(&self) -> (Option<Seq<(Seq<char>, JsonModel)>>, bool) {
        (opt_entries_model(self.experimental), self.sampling is Some)
    }

    pub fn from_json(v: &JsonValue) -> (r: Option<Self>)
        ensures
            match client_capabilities_from(v@) {
                Some(x) => r matches Some(p) && p.model() == x,
                None => r is None,
            },
    {
        let experimental = read_opt_value_map(struct_field(v, "experimental", 0, 2));
        let sampling = read_opt_unit_struct(struct_field(v, "sampling", 1, 2));
        match (experimental, sampling) {
            (Some(experimental), Some(sampling)) => Some(
                ClientCapabilities {
                    experimental,
                    sampling: if sampling {
                        Some(SamplingCapabilities {  })
                    } else {
                        None
                    },
                },
            ),
            _ => None,
        }
    }
}

impl InitializeParams {
    pub open spec fn model(&self) -> (
        Seq<char>,
        (Option<Seq<(Seq<char>, JsonModel)>>, bool),
        (Seq<char>, Seq<char>),
    ) {
        (self.protocol_version@, self.capabilities.model(), self.client_info.model())
    }

    pub fn from_json(v: &JsonValue) -> (r: Option<Self>)
        ensures
            match initialize_params_from(v@) {
                Some(x) => r matches Some(p) && p.model() == x,
                None => r is None,
            },
    {
        let version = read_req_string(struct_field(v, "protocolVersion", 0, 3));
        let capabilities = match struct_field(v, "capabilities", 1, 3) {
            Some(Some(c)) => ClientCapabilities::from_json(c),
            _ => None,
        };
        let client_info = match struct_field(v, "clientInfo", 2, 3) {
            Some(Some(c)) => ClientInfo::from_json(c),
            _ => None,
        };
        match (version, capabilities, client_info) {
            (Some(protocol_version), Some(capabilities), Some(client_info)) => Some(
                InitializeParams { protocol_version, capabilities, client_info },
            ),
            _ => None,
        }
    }
}

/// The model of an optional string.
pub open spec fn opt_string_model(s: Option<String>) -> Option<Seq<char>> {
    match s {
        Some(x) => Some(x@),
        None => None,
    }
}

/// Reads a struct whose only field is an optional string named `cursor`.
fn read_cursor(v: &JsonValue) -> (r: Option<Option<String>>)
    ensures
        match cursor_params_from(v@) {
            Some(c) => r matches Some(x) && opt_string_model(x) == c,
            None => r is None,
        },
{
    read_opt_string(struct_field(v, "cursor", 0, 1))
}

impl ToolsListParams {
    pub fn from_json(v: &JsonValue) -> (r: Option<Self>)
        ensures
            match cursor_params_from(v@) {
                Some(c) => r matches Some(p) && opt_string_model(p.cursor) == c,
                None => r is None,
            },
    {
        match read_cursor(v) {
            Some(cursor) => Some(ToolsListParams { cursor }),
            None => None,
        }
    }
}

impl ResourcesListParams {
    pub fn from_json(v: &JsonValue) -> (r: Option<Self>)
        ensures
            match cursor_params_from(v@) {
                Some(c) => r matches Some(p) && opt_string_model(p.cursor) == c,
                None => r is None,
            },
    {
        match read_cursor(v) {
            Some(cursor) => Some(ResourcesListParams { cursor }),
            None => None,
        }
    }
}

impl PromptsListParams {
    pub fn from_json(v: &JsonValue) -> (r: Option<Self>)
        ensures
            match cursor_params_from(v@) {
                Some(c) => r matches Some(p) && opt_string_model(p.cursor) == c,
                None => r is None,
            },
    {
        match read_cursor(v) {
            Some(cursor) => Some(PromptsListParams { cursor }),
            None => None,
        }
    }
}

/// The model of an optional JSON value.
pub open spec fn opt_json_model(v: Option<JsonValue>) -> Option<JsonModel> {
    match v {
        Some(x) => Some(x@),
        None => None,
    }
}

impl ToolCallParams {
    pub open spec fn model(&self) -> (Seq<char>, Option<JsonModel>) {
        (self.name@, opt_json_model(self.arguments))
    }

    pub fn from_json(v: &JsonValue) -> (r: Option<Self>)
        ensures
            match tool_call_params_from(v@) {
                Some(x) => r matches Some(p) && p.model() == x,
                None => r is None,
            },
    {
        let name = read_req_string(struct_field(v, "name", 0, 2));
        let arguments = read_opt_value(struct_field(v, "arguments", 1, 2));
        match (name, arguments) {
            (Some(name), Some(arguments)) => Some(ToolCallParams { name, arguments }),
            _ => None,
        }
    }
}

impl ResourcesReadParams {
    pub fn from_json(v: &JsonValue) -> (r: Option<Self>)
        ensures
            match resources_read_params_from(v@) {
                Some(u) => r matches Some(p) && p.uri@ == u,
                None => r is None,
            },
    {
        match read_req_string(struct_field(v, "uri", 0, 1)) {
            Some(uri) => Some(ResourcesReadParams { uri }),
            None => None,
        }
    }
}

/// The model of an optional map from names to strings.
pub open spec fn opt_pairs_model(a: Option<Vec<(String, String)>>) -> Option<
    Seq<(Seq<char>, Seq<char>)>,
> {
    match a {
        Some(x) => Some(string_pairs(x@)),
        None => None,
    }
}

impl PromptsGetParams {
    pub open spec fn model(&self) -> (Seq<char>, Option<Seq<(Seq<char>, Seq<char>)>>) {
        (self.name@, opt_pairs_model(self.arguments))
    }

    pub fn from_json(v: &JsonValue) -> (r: Option<Self>)
        ensures
            match prompts_get_params_from(v@) {
                Some(x) => r matches Some(p) && p.model() == x,
                None => r is None,
            },
    {
        let name = read_req_string(struct_field(v, "name", 0, 2));
        let arguments = read_opt_string_map(struct_field(v, "arguments", 1, 2));
        match (name, arguments) {
            (Some(name), Some(arguments)) => Some(PromptsGetParams { name, arguments }),
            _ => None,
        }
    }
}

// ---------------------------------------------------------------------------
// Writing
// ---------------------------------------------------------------------------

/// An entry `(key, string)` when `s` is present, nothing otherwise.
pub open spec fn skip_none_str(key: Seq<char>, s: Option<String>) -> Seq<(Seq<char>, JsonModel)> {
    match s {
        Some(x) => seq![(key, JsonModel::Str(x@))],
        None => Seq::empty(),
    }
}

/// An entry `(key, bool)` when `b` is present, nothing otherwise.
pub open spec fn skip_none_bool(key: Seq<char>, b: Option<bool>) -> Seq<(Seq<char>, JsonModel)> {
    match b {
        Some(x) => seq![(key, JsonModel::Bool(x))],
        None => Seq::empty(),
    }
}

/// Pushes `(key, value)` when `s` is present.
fn push_opt_str(es: &mut Vec<(String, JsonValue)>, key: &str, s: &Option<String>)
    ensures
        entries_model(final(es)@) == entries_model(old(es)@) + skip_none_str(key@, *s),
{
    let ghost before = entries_model(es@);
    match s {
        Some(x) => {
            es.push((String::from_str(key), json_string(x)));
            assert(entries_model(es@) =~= before + skip_none_str(key@, *s));
        },
        None => {
            assert(before + skip_none_str(key@, *s) =~= before);
        },
    }
}

/// Pushes `(key, value)` when `b` is present.
fn push_opt_bool(es: &mut Vec<(String, JsonValue)>, key: &str, b: Option<bool>)
    ensures
        entries_model(final(es)@) == entries_model(old(es)@) + skip_none_bool(key@, b),
{
    let ghost before = entries_model(es@);
    match b {
        Some(x) => {
            es.push((String::from_str(key), JsonValue::Bool(x)));
            assert(entries_model(es@) =~= before + skip_none_bool(key@, b));
        },
        None => {
            assert(before + skip_none_bool(key@, b) =~= before);
        },
    }
}

/// Pushes `(key, value)`.
fn push_entry(es: &mut Vec<(String, JsonValue)>, key: &str, value: JsonValue)
    ensures
        entries_model(final(es)@) == entries_model(old(es)@).push((key@, value@)),
{
    let ghost before = entries_model(es@);
    es.push((String::from_str(key), value));
    assert(entries_model(es@) =~= before.push((key@, value@)));
}

/// Finishes an object.
fn finish(es: Vec<(String, JsonValue)>) -> (r: JsonValue)
    ensures
        r@ == JsonModel::Object(entries_model(es@)),
{
    proof {
        lemma_object_model(es);
    }
    JsonValue::Object(es)
}

pub open spec fn resource_reference_json(r: ResourceReference) -> JsonModel {
    JsonModel::Object(seq![("type"@, JsonModel::Str(r.resource_type@)), ("uri"@, JsonModel::Str(r.uri@))])
}

impl ResourceReference {
    pub fn to_json(&self) -> (r: JsonValue)
        ensures
            r@ == resource_reference_json(*self),
    {
        let mut es: Vec<(String, JsonValue)> = Vec::new();
        push_entry(&mut es, "type", json_string(&self.resource_type));
        push_entry(&mut es, "uri", json_string(&self.uri));
        let r = finish(es);
        assert(entries_model(es@) =~= seq![
            ("type"@, JsonModel::Str(self.resource_type@)),
            ("uri"@, JsonModel::Str(self.uri@)),
        ]);
        r
    }
}

/// Tool and prompt content: tagged by `type`.
pub open spec fn content_json(c: ToolContent) -> JsonModel {
    match c {
        ToolContent::Text { text } => JsonModel::Object(
            seq![("text"@, JsonModel::Str(text@)), ("type"@, JsonModel::Str("text"@))],
        ),
        ToolContent::Image { data, mime_type } => JsonModel::Object(
            seq![
                ("data"@, JsonModel::Str(data@)),
                ("mime_type"@, JsonModel::Str(mime_type@)),
                ("type"@, JsonModel::Str("image"@)),
            ],
        ),
        ToolContent::Resource { resource } => JsonModel::Object(
            seq![
                ("resource"@, resource_reference_json(resource)),
                ("type"@, JsonModel::Str("resource"@)),
            ],
        ),
    }
}

/// The same content, as tool content.
pub open spec fn prompt_content_as_tool(c: PromptContent) -> ToolContent {
    match c {
        PromptContent::Text { text } => ToolContent::Text { text },
        PromptContent::Image { data, mime_type } => ToolContent::Image { data, mime_type },
        PromptContent::Resource { resource } => ToolContent::Resource { resource },
    }
}

fn text_content_json(text: &String) -> (r: JsonValue)
    ensures
        r@ == content_json(ToolContent::Text { text: *text }),
{
    let mut es: Vec<(String, JsonValue)> = Vec::new();
    push_entry(&mut es, "text", json_string(text));
    push_entry(&mut es, "type", json_str("text"));
    let r = finish(es);
    assert(entries_model(es@) =~= seq![
        ("text"@, JsonModel::Str(text@)),
        ("type"@, JsonModel::Str("text"@)),
    ]);
    r
}

fn image_content_json(data: &String, mime_type: &String) -> (r: JsonValue)
    ensures
        r@ == content_json(ToolContent::Image { data: *data, mime_type: *mime_type }),
{
    let mut es: Vec<(String, JsonValue)> = Vec::new();
    push_entry(&mut es, "data", json_string(data));
    push_entry(&mut es, "mime_type", json_string(mime_type));
    push_entry(&mut es, "type", json_str("image"));
    let r = finish(es);
    assert(entries_model(es@) =~= seq![
        ("data"@, JsonModel::Str(data@)),
        ("mime_type"@, JsonModel::Str(mime_type@)),
        ("type"@, JsonModel::Str("image"@)),
    ]);
    r
}

fn resource_content_json(resource: &ResourceReference) -> (r: JsonValue)
    ensures
        r@ == content_json(ToolContent::Resource { resource: *resource }),
{
    let mut es: Vec<(String, JsonValue)> = Vec::new();
    push_entry(&mut es, "resource", resource.to_json());
    push_entry(&mut es, "type", json_str("resource"));
    let r = finish(es);
    assert(entries_model(es@) =~= seq![
        ("resource"@, resource_reference_json(*resource)),
        ("type"@, JsonModel::Str("resource"@)),
    ]);
    r
}

impl ToolContent {
    pub fn to_json(&self) -> (r: JsonValue)
        ensures
            r@ == content_json(*self),
    {
        match self {
            ToolContent::Text { text } => text_content_json(text),
            ToolContent::Image { data, mime_type } => image_content_json(data, mime_type),
            ToolContent::Resource { resource } => resource_content_json(resource),
        }
    }
}

impl PromptContent {
    pub fn to_json(&self) -> (r: JsonValue)
        ensures
            r@ == content_json(prompt_content_as_tool(*self)),
    {
        match self {
            PromptContent::Text { text } => text_content_json(text),
            PromptContent::Image { data, mime_type } => image_content_json(data, mime_type),
            PromptContent::Resource { resource } => resource_content_json(resource),
        }
    }
}

pub open spec fn tool_json(t: Tool) -> JsonModel {
    JsonModel::Object(
        skip_none_str("description"@, t.description) + seq![
            ("inputSchema"@, t.input_schema@),
            ("name"@, JsonModel::Str(t.name@)),
        ],
    )
}

impl Tool {
    pub fn to_json(&self) -> (r: JsonValue)
        ensures
            r@ == tool_json(*self),
    {
        let mut es: Vec<(String, JsonValue)> = Vec::new();
        push_opt_str(&mut es, "description", &self.description);
        push_entry(&mut es, "inputSchema", self.input_schema.deep_copy());
        push_entry(&mut es, "name", json_string(&self.name));
        let r = finish(es);
        assert(entries_model(es@) =~= skip_none_str("description"@, self.description) + seq![
            ("inputSchema"@, self.input_schema@),
            ("name"@, JsonModel::Str(self.name@)),
        ]);
        r
    }
}

pub open spec fn resource_json(r: Resource) -> JsonModel {
    JsonModel::Object(
        skip_none_str("description"@, r.description) + skip_none_str("mimeType"@, r.mime_type)
            + seq![("name"@, JsonModel::Str(r.name@)), ("uri"@, JsonModel::Str(r.uri@))],
    )
}

impl Resource {
    pub fn to_json(&self) -> (r: JsonValue)
        ensures
            r@ == resource_json(*self),
    {
        let mut es: Vec<(String, JsonValue)> = Vec::new();
        push_opt_str(&mut es, "description", &self.description);
        push_opt_str(&mut es, "mimeType", &self.mime_type);
        push_entry(&mut es, "name", json_string(&self.name));
        push_entry(&mut es, "uri", json_string(&self.uri));
        let r = finish(es);
        assert(entries_model(es@) =~= skip_none_str("description"@, self.description)
            + skip_none_str("mimeType"@, self.mime_type) + seq![
            ("name"@, JsonModel::Str(self.name@)),
            ("uri"@, JsonModel::Str(self.uri@)),
        ]);
        r
    }
}

pub open spec fn resource_content_model(c: ResourceContent) -> JsonModel {
    match c {
        ResourceContent::Text { uri, text, mime_type } => JsonModel::Object(
            seq![
                ("mime_type"@, opt_str_model(mime_type)),
                ("text"@, JsonModel::Str(text@)),
                ("type"@, JsonModel::Str("text"@)),
                ("uri"@, JsonModel::Str(uri@)),
            ],
        ),
        ResourceContent::Blob { uri, blob, mime_type } => JsonModel::Object(
            seq![
                ("blob"@, JsonModel::Str(blob@)),
                ("mime_type"@, opt_str_model(mime_type)),
                ("type"@, JsonModel::Str("blob"@)),
                ("uri"@, JsonModel::Str(uri@)),
            ],
        ),
    }
}

impl ResourceContent {
    pub fn to_json(&self) -> (r: JsonValue)
        ensures
            r@ == resource_content_model(*self),
    {
        let mut es: Vec<(String, JsonValue)> = Vec::new();
        match self {
            ResourceContent::Text { uri, text, mime_type } => {
                push_entry(&mut es, "mime_type", json_opt_string(mime_type));
                push_entry(&mut es, "text", json_string(text));
                push_entry(&mut es, "type", json_str("text"));
                push_entry(&mut es, "uri", json_string(uri));
                let r = finish(es);
                assert(entries_model(es@) =~= seq![
                    ("mime_type"@, opt_str_model(*mime_type)),
                    ("text"@, JsonModel::Str(text@)),
                    ("type"@, JsonModel::Str("text"@)),
                    ("uri"@, JsonModel::Str(uri@)),
                ]);
                r
            },
            ResourceContent::Blob { uri, blob, mime_type } => {
                push_entry(&mut es, "blob", json_string(blob));
                push_entry(&mut es, "mime_type", json_opt_string(mime_type));
                push_entry(&mut es, "type", json_str("blob"));
                push_entry(&mut es, "uri", json_string(uri));
                let r = finish(es);
                assert(entries_model(es@) =~= seq![
                    ("blob"@, JsonModel::Str(blob@)),
                    ("mime_type"@, opt_str_model(*mime_type)),
                    ("type"@, JsonModel::Str("blob"@)),
                    ("uri"@, JsonModel::Str(uri@)),
                ]);
                r
            },
        }
    }
}

pub open spec fn prompt_argument_json(a: PromptArgument) -> JsonModel {
    JsonModel::Object(
        skip_none_str("description"@, a.description) + seq![("name"@, JsonModel::Str(a.name@))]
            + skip_none_bool("required"@, a.required),
    )
}

impl PromptArgument {
    pub fn to_json(&self) -> (r: JsonValue)
        ensures
            r@ == prompt_argument_json(*self),
    {
        let mut es: Vec<(String, JsonValue)> = Vec::new();
        push_opt_str(&mut es, "description", &self.description);
        push_entry(&mut es, "name", json_string(&self.name));
        push_opt_bool(&mut es, "required", self.required);
        let r = finish(es);
        assert(entries_model(es@) =~= skip_none_str("description"@, self.description) + seq![
            ("name"@, JsonModel::Str(self.name@)),
        ] + skip_none_bool("required"@, self.required));
        r
    }
}

pub open spec fn prompt_arguments_json(args: Option<Vec<PromptArgument>>) -> Seq<
    (Seq<char>, JsonModel),
> {
    match args {
        Some(v) => seq![
            (
                "arguments"@,
                JsonModel::Array(v@.map_values(|a: PromptArgument| prompt_argument_json(a))),
            ),
        ],
        None => Seq::empty(),
    }
}

pub open spec fn prompt_json(p: Prompt) -> JsonModel {
    JsonModel::Object(
        prompt_arguments_json(p.arguments) + skip_none_str("description"@, p.description) + seq![
            ("name"@, JsonModel::Str(p.name@)),
        ],
    )
}

fn prompt_arguments_array(args: &Vec<PromptArgument>) -> (r: JsonValue)
    ensures
        r@ == JsonModel::Array(args@.map_values(|a: PromptArgument| prompt_argument_json(a))),
{
    let mut items: Vec<JsonValue> = Vec::new();
    let mut i: usize = 0;
    while i < args.len()
        invariant
            i <= args@.len(),
            items@.len() == i,
            forall|j: int| 0 <= j < i ==> (#[trigger] items@[j])@ == prompt_argument_json(args@[j]),
        decreases args@.len() - i,
    {
        items.push(args[i].to_json());
        i = i + 1;
    }
    proof {
        lemma_array_model(items);
        assert(items_model(items@) =~= args@.map_values(|a: PromptArgument| prompt_argument_json(a)));
    }
    JsonValue::Array(items)
}

impl Prompt {
    pub fn to_json(&self) -> (r: JsonValue)
        ensures
            r@ == prompt_json(*self),
    {
        let mut es: Vec<(String, JsonValue)> = Vec::new();
        match &self.arguments {
            Some(args) => {
                push_entry(&mut es, "arguments", prompt_arguments_array(args));
            },
            None => {},
        }
        push_opt_str(&mut es, "description", &self.description);
        push_entry(&mut es, "name", json_string(&self.name));
        let r = finish(es);
        assert(entries_model(es@) =~= prompt_arguments_json(self.arguments) + skip_none_str(
            "description"@,
            self.description,
        ) + seq![("name"@, JsonModel::Str(self.name@))]);
        r
    }
}

pub open spec fn role_name(r: PromptRole) -> Seq<char> {
    match r {
        PromptRole::User => "user"@,
        PromptRole::Assistant => "assistant"@,
        PromptRole::System => "system"@,
    }
}

pub open spec fn prompt_message_json(m: PromptMessage) -> JsonModel {
    JsonModel::Object(
        seq![
            ("content"@, content_json(prompt_content_as_tool(m.content))),
            ("role"@, JsonModel::Str(role_name(m.role))),
        ],
    )
}

impl PromptMessage {
    pub fn to_json(&self) -> (r: JsonValue)
        ensures
            r@ == prompt_message_json(*self),
    {
        let role = match self.role {
            PromptRole::User => json_str("user"),
            PromptRole::Assistant => json_str("assistant"),
            PromptRole::System => json_str("system"),
        };
        let mut es: Vec<(String, JsonValue)> = Vec::new();
        push_entry(&mut es, "content", self.content.to_json());
        push_entry(&mut es, "role", role);
        let r = finish(es);
        assert(entries_model(es@) =~= seq![
            ("content"@, content_json(prompt_content_as_tool(self.content))),
            ("role"@, JsonModel::Str(role_name(self.role))),
        ]);
        r
    }
}

pub open spec fn tools_list_result_json(r: ToolsListResult) -> JsonModel {
    JsonModel::Object(
        skip_none_str("nextCursor"@, r.next_cursor) + seq![
            ("tools"@, JsonModel::Array(r.tools@.map_values(|t: Tool| tool_json(t)))),
        ],
    )
}

impl ToolsListResult {
    pub fn to_json(&self) -> (r: JsonValue)
        ensures
            r@ == tools_list_result_json(*self),
    {
        let mut items: Vec<JsonValue> = Vec::new();
        let mut i: usize = 0;
        while i < self.tools.len()
            invariant
                i <= self.tools@.len(),
                items@.len() == i,
                forall|j: int| 0 <= j < i ==> (#[trigger] items@[j])@ == tool_json(self.tools@[j]),
            decreases self.tools@.len() - i,
        {
            items.push(self.tools[i].to_json());
            i = i + 1;
        }
        proof {
            lemma_array_model(items);
            assert(items_model(items@) =~= self.tools@.map_values(|t: Tool| tool_json(t)));
        }
        let arr = JsonValue::Array(items);
        let mut es: Vec<(String, JsonValue)> = Vec::new();
        push_opt_str(&mut es, "nextCursor", &self.next_cursor);
        push_entry(&mut es, "tools", arr);
        let r = finish(es);
        assert(entries_model(es@) =~= skip_none_str("nextCursor"@, self.next_cursor) + seq![
            ("tools"@, JsonModel::Array(self.tools@.map_values(|t: Tool| tool_json(t)))),
        ]);
        r
    }
}

pub open spec fn tool_call_result_json(r: ToolCallResult) -> JsonModel {
    JsonModel::Object(
        seq![
            (
                "content"@,
                JsonModel::Array(r.content@.map_values(|c: ToolContent| content_json(c))),
            ),
        ] + skip_none_bool("isError"@, r.is_error),
    )
}

impl ToolCallResult {
    pub fn to_json(&self) -> (r: JsonValue)
        ensures
            r@ == tool_call_result_json(*self),
    {
        let mut items: Vec<JsonValue> = Vec::new();
        let mut i: usize = 0;
        while i < self.content.len()
            invariant
                i <= self.content@.len(),
                items@.len() == i,
                forall|j: int|
                    0 <= j < i ==> (#[trigger] items@[j])@ == content_json(self.content@[j]),
            decreases self.content@.len() - i,
        {
            items.push(self.content[i].to_json());
            i = i + 1;
        }
        proof {
            lemma_array_model(items);
            assert(items_model(items@) =~= self.content@.map_values(
                |c: ToolContent| content_json(c),
            ));
        }
        let arr = JsonValue::Array(items);
        let mut es: Vec<(String, JsonValue)> = Vec::new();
        push_entry(&mut es, "content", arr);
        push_opt_bool(&mut es, "isError", self.is_error);
        let r = finish(es);
        assert(entries_model(es@) =~= seq![
            (
                "content"@,
                JsonModel::Array(self.content@.map_values(|c: ToolContent| content_json(c))),
            ),
        ] + skip_none_bool("isError"@, self.is_error));
        r
    }
}

pub open spec fn resources_list_result_json(r: ResourcesListResult) -> JsonModel {
    JsonModel::Object(
        skip_none_str("nextCursor"@, r.next_cursor) + seq![
            ("resources"@, JsonModel::Array(r.resources@.map_values(|x: Resource| resource_json(x)))),
        ],
    )
}

impl ResourcesListResult {
    pub fn to_json(&self) -> (r: JsonValue)
        ensures
            r@ == resources_list_result_json(*self),
    {
        let mut items: Vec<JsonValue> = Vec::new();
        let mut i: usize = 0;
        while i < self.resources.len()
            invariant
                i <= self.resources@.len(),
                items@.len() == i,
                forall|j: int|
                    0 <= j < i ==> (#[trigger] items@[j])@ == resource_json(self.resources@[j]),
            decreases self.resources@.len() - i,
        {
            items.push(self.resources[i].to_json());
            i = i + 1;
        }
        proof {
            lemma_array_model(items);
            assert(items_model(items@) =~= self.resources@.map_values(
                |x: Resource| resource_json(x),
            ));
        }
        let arr = JsonValue::Array(items);
        let mut es: Vec<(String, JsonValue)> = Vec::new();
        push_opt_str(&mut es, "nextCursor", &self.next_cursor);
        push_entry(&mut es, "resources", arr);
        let r = finish(es);
        assert(entries_model(es@) =~= skip_none_str("nextCursor"@, self.next_cursor) + seq![
            ("resources"@, JsonModel::Array(self.resources@.map_values(|x: Resource| resource_json(x)))),
        ]);
        r
    }
}

pub open spec fn resources_read_result_json(r: ResourcesReadResult) -> JsonModel {
    JsonModel::Object(
        seq![
            (
                "contents"@,
                JsonModel::Array(
                    r.contents@.map_values(|c: ResourceContent| resource_content_model(c)),
                ),
            ),
        ],
    )
}

impl ResourcesReadResult {
    pub fn to_json(&self) -> (r: JsonValue)
        ensures
            r@ == resources_read_result_json(*self),
    {
        let mut items: Vec<JsonValue> = Vec::new();
        let mut i: usize = 0;
        while i < self.contents.len()
            invariant
                i <= self.contents@.len(),
                items@.len() == i,
                forall|j: int|
                    0 <= j < i ==> (#[trigger] items@[j])@ == resource_content_model(
                        self.contents@[j],
                    ),
            decreases self.contents@.len() - i,
        {
            items.push(self.contents[i].to_json());
            i = i + 1;
        }
        proof {
            lemma_array_model(items);
            assert(items_model(items@) =~= self.contents@.map_values(
                |c: ResourceContent| resource_content_model(c),
            ));
        }
        let arr = JsonValue::Array(items);
        let mut es: Vec<(String, JsonValue)> = Vec::new();
        push_entry(&mut es, "contents", arr);
        let r = finish(es);
        assert(entries_model(es@) =~= seq![
            (
                "contents"@,
                JsonModel::Array(
                    self.contents@.map_values(|c: ResourceContent| resource_content_model(c)),
                ),
            ),
        ]);
        r
    }
}

pub open spec fn prompts_list_result_json(r: PromptsListResult) -> JsonModel {
    JsonModel::Object(
        skip_none_str("nextCursor"@, r.next_cursor) + seq![
            ("prompts"@, JsonModel::Array(r.prompts@.map_values(|p: Prompt| prompt_json(p)))),
        ],
    )
}

impl PromptsListResult {
    pub fn to_json(&self) -> (r: JsonValue)
        ensures
            r@ == prompts_list_result_json(*self),
    {
        let mut items: Vec<JsonValue> = Vec::new();
        let mut i: usize = 0;
        while i < self.prompts.len()
            invariant
                i <= self.prompts@.len(),
                items@.len() == i,
                forall|j: int| 0 <= j < i ==> (#[trigger] items@[j])@ == prompt_json(self.prompts@[j]),
            decreases self.prompts@.len() - i,
        {
            items.push(self.prompts[i].to_json());
            i = i + 1;
        }
        proof {
            lemma_array_model(items);
            assert(items_model(items@) =~= self.prompts@.map_values(|p: Prompt| prompt_json(p)));
        }
        let arr = JsonValue::Array(items);
        let mut es: Vec<(String, JsonValue)> = Vec::new();
        push_opt_str(&mut es, "nextCursor", &self.next_cursor);
        push_entry(&mut es, "prompts", arr);
        let r = finish(es);
        assert(entries_model(es@) =~= skip_none_str("nextCursor"@, self.next_cursor) + seq![
            ("prompts"@, JsonModel::Array(self.prompts@.map_values(|p: Prompt| prompt_json(p)))),
        ]);
        r
    }
}

pub open spec fn prompts_get_result_json(r: PromptsGetResult) -> JsonModel {
    JsonModel::Object(
        seq![
            ("description"@, opt_str_model(r.description)),
            (
                "messages"@,
                JsonModel::Array(r.messages@.map_values(|m: PromptMessage| prompt_message_json(m))),
            ),
        ],
    )
}

impl PromptsGetResult {
    pub fn to_json(&self) -> (r: JsonValue)
        ensures
            r@ == prompts_get_result_json(*self),
    {
        let mut items: Vec<JsonValue> = Vec::new();
        let mut i: usize = 0;
        while i < self.messages.len()
            invariant
                i <= self.messages@.len(),
                items@.len() == i,
                forall|j: int|
                    0 <= j < i ==> (#[trigger] items@[j])@ == prompt_message_json(self.messages@[j]),
            decreases self.messages@.len() - i,
        {
            items.push(self.messages[i].to_json());
            i = i + 1;
        }
        proof {
            lemma_array_model(items);
            assert(items_model(items@) =~= self.messages@.map_values(
                |m: PromptMessage| prompt_message_json(m),
            ));
        }
        let arr = JsonValue::Array(items);
        let mut es: Vec<(String, JsonValue)> = Vec::new();
        push_entry(&mut es, "description", json_opt_string(&self.description));
        push_entry(&mut es, "messages", arr);
        let r = finish(es);
        assert(entries_model(es@) =~= seq![
            ("description"@, opt_str_model(self.description)),
            (
                "messages"@,
                JsonModel::Array(self.messages@.map_values(|m: PromptMessage| prompt_message_json(m))),
            ),
        ]);
        r
    }
}

pub open spec fn experimental_json(e: Option<Vec<(String, JsonValue)>>) -> Seq<(Seq<char>, JsonModel)> {
    match e {
        Some(v) => seq![("experimental"@, JsonModel::Object(entries_model(v@)))],
        None => Seq::empty(),
    }
}

/// A capability section: an object holding the optional flags that are set.
pub open spec fn flags_json(flags: Seq<(Seq<char>, JsonModel)>) -> JsonModel {
    JsonModel::Object(flags)
}

pub open spec fn server_capabilities_json(c: ServerCapabilities) -> JsonModel {
    JsonModel::Object(
        experimental_json(c.experimental) + match c.logging {
            Some(_) => seq![("logging"@, JsonModel::Object(Seq::empty()))],
            None => Seq::empty(),
        } + match c.prompts {
            Some(p) => seq![("prompts"@, flags_json(skip_none_bool("listChanged"@, p.list_changed)))],
            None => Seq::empty(),
        } + match c.resources {
            Some(r) => seq![
                (
                    "resources"@,
                    flags_json(
                        skip_none_bool("listChanged"@, r.list_changed) + skip_none_bool(
                            "subscribe"@,
                            r.subscribe,
                        ),
                    ),
                ),
            ],
            None => Seq::empty(),
        } + match c.tools {
            Some(t) => seq![("tools"@, flags_json(skip_none_bool("listChanged"@, t.list_changed)))],
            None => Seq::empty(),
        },
    )
}

impl ServerCapabilities {
    pub fn to_json(&self) -> (r: JsonValue)
        ensures
            r@ == server_capabilities_json(*self),
    {
        let mut es: Vec<(String, JsonValue)> = Vec::new();
        let ghost s0 = entries_model(es@);
        match &self.experimental {
            Some(v) => {
                let copy = copy_entries(v);
                push_entry(&mut es, "experimental", finish(copy));
            },
            None => {},
        }
        assert(entries_model(es@) =~= experimental_json(self.experimental));
        let ghost s1 = entries_model(es@);
        match &self.logging {
            Some(_) => {
                push_entry(&mut es, "logging", crate::json::empty_object());
            },
            None => {},
        }
        let ghost s2 = entries_model(es@);
        match &self.prompts {
            Some(p) => {
                let mut f: Vec<(String, JsonValue)> = Vec::new();
                push_opt_bool(&mut f, "listChanged", p.list_changed);
                assert(entries_model(f@) =~= skip_none_bool("listChanged"@, p.list_changed));
                push_entry(&mut es, "prompts", finish(f));
            },
            None => {},
        }
        let ghost s3 = entries_model(es@);
        match &self.resources {
            Some(r) => {
                let mut f: Vec<(String, JsonValue)> = Vec::new();
                push_opt_bool(&mut f, "listChanged", r.list_changed);
                push_opt_bool(&mut f, "subscribe", r.subscribe);
                assert(entries_model(f@) =~= skip_none_bool("listChanged"@, r.list_changed)
                    + skip_none_bool("subscribe"@, r.subscribe));
                push_entry(&mut es, "resources", finish(f));
            },
            None => {},
        }
        let ghost s4 = entries_model(es@);
        match &self.tools {
            Some(t) => {
                let mut f: Vec<(String, JsonValue)> = Vec::new();
                push_opt_bool(&mut f, "listChanged", t.list_changed);
                assert(entries_model(f@) =~= skip_none_bool("listChanged"@, t.list_changed));
                push_entry(&mut es, "tools", finish(f));
            },
            None => {},
        }
        let r = finish(es);
        assert(entries_model(es@) =~= experimental_json(self.experimental) + match self.logging {
            Some(_) => seq![("logging"@, JsonModel::Object(Seq::empty()))],
            None => Seq::empty(),
        } + match self.prompts {
            Some(p) => seq![("prompts"@, flags_json(skip_none_bool("listChanged"@, p.list_changed)))],
            None => Seq::empty(),
        } + match self.resources {
            Some(r) => seq![
                (
                    "resources"@,
                    flags_json(
                        skip_none_bool("listChanged"@, r.list_changed) + skip_none_bool(
                            "subscribe"@,
                            r.subscribe,
                        ),
                    ),
                ),
            ],
            None => Seq::empty(),
        } + match self.tools {
            Some(t) => seq![("tools"@, flags_json(skip_none_bool("listChanged"@, t.list_changed)))],
            None => Seq::empty(),
        });
        r
    }
}

pub open spec fn server_info_json(i: ServerInfo) -> JsonModel {
    JsonModel::Object(seq![("name"@, JsonModel::Str(i.name@)), ("version"@, JsonModel::Str(i.version@))])
}

impl ServerInfo {
    pub fn to_json(&self) -> (r: JsonValue)
        ensures
            r@ == server_info_json(*self),
    {
        let mut es: Vec<(String, JsonValue)> = Vec::new();
        push_entry(&mut es, "name", json_string(&self.name));
        push_entry(&mut es, "version", json_string(&self.version));
        let r = finish(es);
        assert(entries_model(es@) =~= seq![
            ("name"@, JsonModel::Str(self.name@)),
            ("version"@, JsonModel::Str(self.version@)),
        ]);
        r
    }
}

pub open spec fn initialize_result_json(r: InitializeResult) -> JsonModel {
    JsonModel::Object(
        seq![
            ("capabilities"@, server_capabilities_json(r.capabilities)),
            ("protocolVersion"@, JsonModel::Str(r.protocol_version@)),
            ("serverInfo"@, server_info_json(r.server_info)),
        ],
    )
}

impl InitializeResult {
    pub fn to_json(&self) -> (r: JsonValue)
        ensures
            r@ == initialize_result_json(*self),
    {
        let mut es: Vec<(String, JsonValue)> = Vec::new();
        push_entry(&mut es, "capabilities", self.capabilities.to_json());
        push_entry(&mut es, "protocolVersion", json_string(&self.protocol_version));
        push_entry(&mut es, "serverInfo", self.server_info.to_json());
        let r = finish(es);
        assert(entries_model(es@) =~= seq![
            ("capabilities"@, server_capabilities_json(self.capabilities)),
            ("protocolVersion"@, JsonModel::Str(self.protocol_version@)),
            ("serverInfo"@, server_info_json(self.server_info)),
        ]);
        r
    }
}

// ---------------------------------------------------------------------------
// Request parameters, as a client writes them
// ---------------------------------------------------------------------------

/// The parameters of a listing request: `cursor` when there is one.
pub open spec fn cursor_params_json(cursor: Option<String>) -> JsonModel {
    JsonModel::Object(skip_none_str("cursor"@, cursor))
}

/// Writes the parameters of a listing request.
fn write_cursor_params(cursor: &Option<String>) -> (r: JsonValue)
    ensures
        r@ == cursor_params_json(*cursor),
{
    let mut es: Vec<(String, JsonValue)> = Vec::new();
    push_opt_str(&mut es, "cursor", cursor);
    assert(entries_model(es@) =~= skip_none_str("cursor"@, *cursor));
    finish(es)
}

impl ToolsListParams {
    pub fn to_json(&self) -> (r: JsonValue)
        ensures
            r@ == cursor_params_json(self.cursor),
    {
        write_cursor_params(&self.cursor)
    }
}

impl ResourcesListParams {
    pub fn to_json(&self) -> (r: JsonValue)
        ensures
            r@ == cursor_params_json(self.cursor),
    {
        write_cursor_params(&self.cursor)
    }
}

impl PromptsListParams {
    pub fn to_json(&self) -> (r: JsonValue)
        ensures
            r@ == cursor_params_json(self.cursor),
    {
        write_cursor_params(&self.cursor)
    }
}

/// An entry `(key, value)` when `v` is present, nothing otherwise.
pub open spec fn skip_none_value(key: Seq<char>, v: Option<JsonModel>) -> Seq<(Seq<char>, JsonModel)> {
    match v {
        Some(x) => seq![(key, x)],
        None => Seq::empty(),
    }
}

pub open spec fn tool_call_params_json(p: ToolCallParams) -> JsonModel {
    JsonModel::Object(
        skip_none_value("arguments"@, opt_json_model(p.arguments)) + seq![("name"@, JsonModel::Str(p.name@))],
    )
}

impl ToolCallParams {
    pub fn to_json(&self) -> (r: JsonValue)
        ensures
            r@ == tool_call_params_json(*self),
    {
        let mut es: Vec<(String, JsonValue)> = Vec::new();
        match &self.arguments {
            Some(a) => {
                push_entry(&mut es, "arguments", a.deep_copy());
            },
            None => {},
        }
        push_entry(&mut es, "name", json_string(&self.name));
        assert(entries_model(es@) =~= skip_none_value("arguments"@, opt_json_model(self.arguments)) + seq![
            ("name"@, JsonModel::Str(self.name@)),
        ]);
        finish(es)
    }
}

pub open spec fn resources_read_params_json(p: ResourcesReadParams) -> JsonModel {
    JsonModel::Object(seq![("uri"@, JsonModel::Str(p.uri@))])
}

impl ResourcesReadParams {
    pub fn to_json(&self) -> (r: JsonValue)
        ensures
            r@ == resources_read_params_json(*self),
    {
        let mut es: Vec<(String, JsonValue)> = Vec::new();
        push_entry(&mut es, "uri", json_string(&self.uri));
        assert(entries_model(es@) =~= seq![("uri"@, JsonModel::Str(self.uri@))]);
        finish(es)
    }
}

/// A map from names to strings, written as an object in the order held.
pub open spec fn string_map_json(pairs: Seq<(Seq<char>, Seq<char>)>) -> JsonModel {
    JsonModel::Object(pairs.map_values(|e: (Seq<char>, Seq<char>)| (e.0, JsonModel::Str(e.1))))
}

fn write_string_map(pairs: &Vec<(String, String)>) -> (r: JsonValue)
    ensures
        r@ == string_map_json(string_pairs(pairs@)),
{
    let mut es: Vec<(String, JsonValue)> = Vec::new();
    let mut i: usize = 0;
    while i < pairs.len()
        invariant
            i <= pairs@.len(),
            entries_model(es@) =~= string_pairs(pairs@).subrange(0, i as int).map_values(
                |e: (Seq<char>, Seq<char>)| (e.0, JsonModel::Str(e.1)),
            ),
        decreases pairs@.len() - i,
    {
        let ghost before = entries_model(es@);
        es.push((pairs[i].0.clone(), json_string(&pairs[i].1)));
        assert(entries_model(es@) =~= before.push((pairs@[i as int].0@, JsonModel::Str(pairs@[i as int].1@))));
        assert(string_pairs(pairs@).subrange(0, i + 1) =~= string_pairs(pairs@).subrange(0, i as int).push(
            (pairs@[i as int].0@, pairs@[i as int].1@),
        ));
        i = i + 1;
    }
    assert(string_pairs(pairs@).subrange(0, pairs@.len() as int) =~= string_pairs(pairs@));
    finish(es)
}

/// The optional arguments of a prompt, as an entry.
pub open spec fn prompt_arguments_entry(a: Option<Vec<(String, String)>>) -> Seq<(Seq<char>, JsonModel)> {
    match a {
        Some(x) => seq![("arguments"@, string_map_json(string_pairs(x@)))],
        None => Seq::empty(),
    }
}

pub open spec fn prompts_get_params_json(p: PromptsGetParams) -> JsonModel {
    JsonModel::Object(prompt_arguments_entry(p.arguments) + seq![("name"@, JsonModel::Str(p.name@))])
}

impl PromptsGetParams {
    pub fn to_json(&self) -> (r: JsonValue)
        ensures
            r@ == prompts_get_params_json(*self),
    {
        let mut es: Vec<(String, JsonValue)> = Vec::new();
        match &self.arguments {
            Some(a) => {
                push_entry(&mut es, "arguments", write_string_map(a));
            },
            None => {},
        }
        push_entry(&mut es, "name", json_string(&self.name));
        assert(entries_model(es@) =~= prompt_arguments_entry(self.arguments) + seq![
            ("name"@, JsonModel::Str(self.name@)),
        ]);
        finish(es)
    }
}

/// What a client writes as the parameters of a listing request, a server
/// reads back as the same cursor.
pub proof fn law_cursor_params_round_trip(cursor: Option<String>)
    ensures
        cursor_params_from(cursor_params_json(cursor)) == Some(opt_string_model(cursor)),
{
    reveal_with_fuel(obj_get, 2);
}

/// What a client writes as the parameters of a tool call, a server reads
/// back as the same name and arguments; arguments that are JSON `null` are
/// read back as absent.
pub proof fn law_tool_call_params_round_trip(p: ToolCallParams)
    ensures
        tool_call_params_from(tool_call_params_json(p)) == Some(
            (
                p.name@,
                match p.arguments {
                    Some(a) => if a@ is Null {
                        None
                    } else {
                        Some(a@)
                    },
                    None => None,
                },
            ),
        ),
{
    reveal_with_fuel(obj_get, 3);
    reveal_strlit("name");
    reveal_strlit("arguments");
    assert("name"@ != "arguments"@) by {
        assert("name"@[0] != "arguments"@[0]);
    }
}

/// What a client writes as the parameters of a resource read, a server
/// reads back as the same URI.
pub proof fn law_resources_read_params_round_trip(p: ResourcesReadParams)
    ensures
        resources_read_params_from(resources_read_params_json(p)) == Some(p.uri@),
{
    reveal_with_fuel(obj_get, 2);
}

/// What a client writes as the parameters of a prompt request, a server
/// reads back as the same name and arguments, in the same order.
pub proof fn law_prompts_get_params_round_trip(p: PromptsGetParams)
    ensures
        prompts_get_params_from(prompts_get_params_json(p)) == Some(p.model()),
{
    reveal_with_fuel(obj_get, 3);
    reveal_strlit("name");
    reveal_strlit("arguments");
    assert("name"@ != "arguments"@) by {
        assert("name"@[0] != "arguments"@[0]);
    }
    if let Some(x) = p.arguments {
        let es = string_pairs(x@).map_values(|e: (Seq<char>, Seq<char>)| (e.0, JsonModel::Str(e.1)));
        assert(all_strings(es));
        assert(string_entries(es) =~= string_pairs(x@));
    }
}

pub open spec fn client_info_json(i: ClientInfo) -> JsonModel {
    JsonModel::Object(seq![("name"@, JsonModel::Str(i.name@)), ("version"@, JsonModel::Str(i.version@))])
}

impl ClientInfo {
    pub fn to_json(&self) -> (r: JsonValue)
        ensures
            r@ == client_info_json(*self),
    {
        let mut es: Vec<(String, JsonValue)> = Vec::new();
        push_entry(&mut es, "name", json_string(&self.name));
        push_entry(&mut es, "version", json_string(&self.version));
        assert(entries_model(es@) =~= seq![
            ("name"@, JsonModel::Str(self.name@)),
            ("version"@, JsonModel::Str(self.version@)),
        ]);
        finish(es)
    }
}

pub open spec fn client_capabilities_json(c: ClientCapabilities) -> JsonModel {
    JsonModel::Object(
        experimental_json(c.experimental) + match c.sampling {
            Some(_) => seq![("sampling"@, JsonModel::Object(Seq::empty()))],
            None => Seq::empty(),
        },
    )
}

impl ClientCapabilities {
    pub fn to_json(&self) -> (r: JsonValue)
        ensures
            r@ == client_capabilities_json(*self),
    {
        let mut es: Vec<(String, JsonValue)> = Vec::new();
        match &self.experimental {
            Some(e) => {
                let m = finish(copy_entries(e));
                push_entry(&mut es, "experimental", m);
            },
            None => {},
        }
        assert(entries_model(es@) =~= experimental_json(self.experimental));
        let ghost s1 = entries_model(es@);
        match &self.sampling {
            Some(_) => {
                push_entry(&mut es, "sampling", crate::json::empty_object());
            },
            None => {},
        }
        assert(entries_model(es@) =~= s1 + match self.sampling {
            Some(_) => seq![("sampling"@, JsonModel::Object(Seq::empty()))],
            None => Seq::<(Seq<char>, JsonModel)>::empty(),
        });
        finish(es)
    }
}

pub open spec fn initialize_params_json(p: InitializeParams) -> JsonModel {
    JsonModel::Object(
        seq![
            ("capabilities"@, client_capabilities_json(p.capabilities)),
            ("clientInfo"@, client_info_json(p.client_info)),
            ("protocolVersion"@, JsonModel::Str(p.protocol_version@)),
        ],
    )
}

impl InitializeParams {
    pub fn to_json(&self) -> (r: JsonValue)
        ensures
            r@ == initialize_params_json(*self),
    {
        let mut es: Vec<(String, JsonValue)> = Vec::new();
        push_entry(&mut es, "capabilities", self.capabilities.to_json());
        push_entry(&mut es, "clientInfo", self.client_info.to_json());
        push_entry(&mut es, "protocolVersion", json_string(&self.protocol_version));
        assert(entries_model(es@) =~= seq![
            ("capabilities"@, client_capabilities_json(self.capabilities)),
            ("clientInfo"@, client_info_json(self.client_info)),
            ("protocolVersion"@, JsonModel::Str(self.protocol_version@)),
        ]);
        finish(es)
    }
}

/// What a client writes as the parameters of the initialize request, a
/// server reads back as the same version, capabilities and client.
pub proof fn law_initialize_params_round_trip(p: InitializeParams)
    ensures
        initialize_params_from(initialize_params_json(p)) == Some(p.model()),
{
    reveal_with_fuel(obj_get, 4);
    reveal_strlit("capabilities");
    reveal_strlit("clientInfo");
    reveal_strlit("protocolVersion");
    reveal_strlit("experimental");
    reveal_strlit("sampling");
    reveal_strlit("name");
    reveal_strlit("version");
    assert("capabilities"@ != "clientInfo"@) by {
        assert("capabilities"@[1] != "clientInfo"@[1]);
    }
    assert("capabilities"@ != "protocolVersion"@) by {
        assert("capabilities"@[0] != "protocolVersion"@[0]);
    }
    assert("clientInfo"@ != "protocolVersion"@) by {
        assert("clientInfo"@[0] != "protocolVersion"@[0]);
    }
    assert("experimental"@ != "sampling"@) by {
        assert("experimental"@[0] != "sampling"@[0]);
    }
    assert("name"@ != "version"@) by {
        assert("name"@[0] != "version"@[0]);
    }
    let c = client_capabilities_json(p.capabilities);
    assert(client_capabilities_from(c) == Some(p.capabilities.model()));
    assert(client_info_from(client_info_json(p.client_info)) == Some(p.client_info.model()));
}

} // verus!
