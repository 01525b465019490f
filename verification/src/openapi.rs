//! Reads a subset of an OpenAPI 3.x document into a flat, sorted list of endpoints for the
//! expert API browser. Inline `parameters` only: a parameter given by `$ref` is skipped.

use vstd::prelude::*;
use crate::json::{
    compact, json_bool, json_get, json_items, json_str, json_strings, string_items, JsonValue,
};
use crate::rom_group::keep;
use serde_json::Value as SerdeValue;
use crate::text::{
    ascii_lower, lower_ascii, chars_of, concat, contains_chars, occurs_at, occurs_at_exec, lex_le, lex_le_str, lex_lt, seq_contains, seq_starts_with,
    spec_to_lowercase, str_contains, str_eq, str_starts_with, string_from_chars, string_of,
    to_lowercase,
};

verus! {

// ---------------------------------------------------------------------------
// Types and their views
// ---------------------------------------------------------------------------

/// One query or path parameter of an operation.
#[derive(Debug, Clone)]
pub struct ApiParameter {
    pub name: String,
    pub param_type: String,
    pub required: bool,
    pub default: Option<String>,
    pub description: Option<String>,
}

/// An operation: method and path template with its parameters.
#[derive(Debug, Clone)]
pub struct ApiEndpoint {
    pub method: String,
    pub path: String,
    pub summary: Option<String>,
    pub description: Option<String>,
    pub query_params: Vec<ApiParameter>,
    pub path_params: Vec<ApiParameter>,
    pub has_body: bool,
    pub tags: Vec<String>,
}

/// Every operation of a document, ordered by path, then method.
#[derive(Debug, Clone)]
pub struct EndpointRegistry {
    pub endpoints: Vec<ApiEndpoint>,
}

/// Why a document or a path template was refused.
#[derive(Debug, Clone)]
pub enum OpenApiError {
    /// The text is not JSON (the parser's message).
    Parse(String),
    /// No `paths` object at the top level.
    MissingPaths,
    /// A path item that is not an object.
    InvalidPath(String),
    /// An operation that is not an object.
    InvalidOperation { method: String, path: String },
    /// `{...}` placeholders left in the template after substitution.
    UnresolvedPlaceholders(String),
}

pub open spec fn opt_chars(o: Option<String>) -> Option<Seq<char>> {
    match o {
        Some(s) => Some(s@),
        None => None,
    }
}

pub struct ApiParameterView {
    pub name: Seq<char>,
    pub param_type: Seq<char>,
    pub required: bool,
    pub default: Option<Seq<char>>,
    pub description: Option<Seq<char>>,
}

impl View for ApiParameter {
    type V = ApiParameterView;

    open spec fn view(&self) -> ApiParameterView {
        ApiParameterView {
            name: self.name@,
            param_type: self.param_type@,
            required: self.required,
            default: opt_chars(self.default),
            description: opt_chars(self.description),
        }
    }
}

pub open spec fn params_view(ps: Seq<ApiParameter>) -> Seq<ApiParameterView> {
    ps.map_values(|p: ApiParameter| p@)
}

pub struct ApiEndpointView {
    pub method: Seq<char>,
    pub path: Seq<char>,
    pub summary: Option<Seq<char>>,
    pub description: Option<Seq<char>>,
    pub query_params: Seq<ApiParameterView>,
    pub path_params: Seq<ApiParameterView>,
    pub has_body: bool,
    pub tags: Seq<Seq<char>>,
}

impl View for ApiEndpoint {
    type V = ApiEndpointView;

    open spec fn view(&self) -> ApiEndpointView {
        ApiEndpointView {
            method: self.method@,
            path: self.path@,
            summary: opt_chars(self.summary),
            description: opt_chars(self.description),
            query_params: params_view(self.query_params@),
            path_params: params_view(self.path_params@),
            has_body: self.has_body,
            tags: self.tags@.map_values(|t: String| t@),
        }
    }
}

pub open spec fn endpoints_view(es: Seq<ApiEndpoint>) -> Seq<ApiEndpointView> {
    es.map_values(|e: ApiEndpoint| e@)
}

pub enum OpenApiErrorView {
    Parse(Seq<char>),
    MissingPaths,
    InvalidPath(Seq<char>),
    InvalidOperation { method: Seq<char>, path: Seq<char> },
    UnresolvedPlaceholders(Seq<char>),
}

impl View for OpenApiError {
    type V = OpenApiErrorView;

    open spec fn view(&self) -> OpenApiErrorView {
        match self {
            OpenApiError::Parse(m) => OpenApiErrorView::Parse(m@),
            OpenApiError::MissingPaths => OpenApiErrorView::MissingPaths,
            OpenApiError::InvalidPath(p) => OpenApiErrorView::InvalidPath(p@),
            OpenApiError::InvalidOperation { method, path } => OpenApiErrorView::InvalidOperation {
                method: method@,
                path: path@,
            },
            OpenApiError::UnresolvedPlaceholders(t) => OpenApiErrorView::UnresolvedPlaceholders(
                t@,
            ),
        }
    }
}

// ---------------------------------------------------------------------------
// Operation methods
// ---------------------------------------------------------------------------

/// The path-item keys that name HTTP operations.
pub open spec fn operation_methods() -> Seq<Seq<char>> {
    seq!["get"@, "post"@, "put"@, "delete"@, "patch"@, "options"@, "head"@, "trace"@]
}

/// `a.eq_ignore_ascii_case(b)` on characters.
pub open spec fn eq_ignore_ascii_case(a: Seq<char>, b: Seq<char>) -> bool {
    a.len() == b.len() && forall|i: int| 0 <= i < a.len() ==> ascii_lower(a[i]) == ascii_lower(b[i])
}

/// `key` names an operation, in any ASCII case (`parameters`, `summary` and the like do not).
pub open spec fn is_operation_method(key: Seq<char>) -> bool {
    exists|i: int| 0 <= i < 8 && eq_ignore_ascii_case(operation_methods()[i], key)
}

fn eq_ignore_ascii_case_exec(a: &[char], b: &[char]) -> (r: bool)
    ensures
        r == eq_ignore_ascii_case(a@, b@),
{
    if a.len() != b.len() {
        return false;
    }
    let mut i: usize = 0;
    while i < a.len()
        invariant
            a@.len() == b@.len(),
            i <= a@.len(),
            forall|j: int| 0 <= j < i ==> ascii_lower(a@[j]) == ascii_lower(b@[j]),
        decreases a@.len() - i,
    {
        if lower_ascii(a[i]) != lower_ascii(b[i]) {
            return false;
        }
        i += 1;
    }
    true
}

/// ASCII uppercase of one character.
pub open spec fn ascii_upper(c: char) -> char {
    if 'a' <= c && c <= 'z' {
        ((c as u32) - 32) as char
    } else {
        c
    }
}

fn upper_ascii(c: char) -> (r: char)
    ensures
        r == ascii_upper(c),
{
    if 'a' <= c && c <= 'z' {
        ((c as u8) - 32) as char
    } else {
        c
    }
}

fn ci_eq(a: &str, b: &str) -> (r: bool)
    ensures
        r == eq_ignore_ascii_case(a@, b@),
{
    let x = chars_of(a);
    let y = chars_of(b);
    eq_ignore_ascii_case_exec(x.as_slice(), y.as_slice())
}

/// Whether `key` is an OpenAPI operation method (`get`, `POST`, ...), not `parameters` or
/// `summary`.
pub fn is_openapi_operation_method(key: &str) -> (r: bool)
    ensures
        r == is_operation_method(key@),
{
    let r = ci_eq("get", key) || ci_eq("post", key) || ci_eq("put", key) || ci_eq("delete", key)
        || ci_eq("patch", key) || ci_eq("options", key) || ci_eq("head", key) || ci_eq(
        "trace",
        key,
    );
    proof {
        let ms = operation_methods();
        assert(ms[0] == "get"@ && ms[1] == "post"@ && ms[2] == "put"@ && ms[3] == "delete"@);
        assert(ms[4] == "patch"@ && ms[5] == "options"@ && ms[6] == "head"@ && ms[7] == "trace"@);
        if !r {
            assert forall|i: int| 0 <= i < 8 implies !eq_ignore_ascii_case(ms[i], key@) by {
                if i == 0 {
                } else if i == 1 {
                } else if i == 2 {
                } else if i == 3 {
                } else if i == 4 {
                } else if i == 5 {
                } else if i == 6 {
                } else {
                }
            }
        }
    }
    r
}

/// The method name as the registry shows it: the key in ASCII uppercase.
pub open spec fn method_name(key: Seq<char>) -> Seq<char> {
    key.map_values(|c: char| ascii_upper(c))
}

fn uppercase_method(key: &str) -> (out: String)
    ensures
        out@ == method_name(key@),
{
    let k = chars_of(key);
    let mut out: Vec<char> = Vec::new();
    let mut i: usize = 0;
    while i < k.len()
        invariant
            i <= k@.len(),
            out@ == k@.take(i as int).map_values(|c: char| ascii_upper(c)),
        decreases k@.len() - i,
    {
        out.push(upper_ascii(k[i]));
        assert(k@.take(i + 1).map_values(|c: char| ascii_upper(c)) =~= k@.take(i as int).map_values(
            |c: char| ascii_upper(c),
        ).push(ascii_upper(k@[i as int])));
        i += 1;
    }
    assert(k@.take(k@.len() as int) =~= k@);
    string_from_chars(out.as_slice())
}

// ---------------------------------------------------------------------------
// Parameters
// ---------------------------------------------------------------------------

/// A parameter entry that is read: an object without `$ref`.
pub open spec fn param_used(p: JsonValue) -> bool {
    p is Object && json_get(p, "$ref"@) is None
}

/// Where a parameter goes (`in`; `query` when absent).
pub open spec fn param_location(p: JsonValue) -> Seq<char> {
    match json_str(json_get(p, "in"@)) {
        Some(l) => l,
        None => "query"@,
    }
}

/// `schema.type`, or `string`.
pub open spec fn schema_type(schema: Option<JsonValue>) -> Seq<char> {
    match schema {
        Some(s) => match json_str(json_get(s, "type"@)) {
            Some(t) => t,
            None => "string"@,
        },
        None => "string"@,
    }
}

/// `schema.default`: a string as it is, any other value as compact JSON text.
pub open spec fn schema_default(schema: Option<JsonValue>) -> Option<Seq<char>> {
    match schema {
        Some(s) => match json_get(s, "default"@) {
            Some(JsonValue::Str(t)) => Some(t@),
            Some(d) => Some(compact(d)),
            None => None,
        },
        None => None,
    }
}

/// The parameter a used entry describes.
pub open spec fn param_view(p: JsonValue) -> ApiParameterView {
    let schema = json_get(p, "schema"@);
    ApiParameterView {
        name: match json_str(json_get(p, "name"@)) {
            Some(n) => n,
            None => Seq::empty(),
        },
        param_type: schema_type(schema),
        required: match json_bool(json_get(p, "required"@)) {
            Some(b) => b,
            None => false,
        },
        default: schema_default(schema),
        description: json_str(json_get(p, "description"@)),
    }
}

/// The used entries of `ps` located `loc`, in order.
pub open spec fn params_at(ps: Seq<JsonValue>, loc: Seq<char>) -> Seq<ApiParameterView>
    decreases ps.len(),
{
    if ps.len() == 0 {
        Seq::empty()
    } else {
        let r = params_at(ps.drop_last(), loc);
        if param_used(ps.last()) && param_location(ps.last()) == loc {
            r.push(param_view(ps.last()))
        } else {
            r
        }
    }
}

fn read_parameter(p: &JsonValue) -> (r: ApiParameter)
    ensures
        r@ == param_view(*p),
{
    let name = match p.get("name") {
        Some(v) => match v.as_str() {
            Some(s) => string_of(s.as_str()),
            None => String::new(),
        },
        None => String::new(),
    };
    let schema = p.get("schema");
    let param_type = match schema {
        Some(s) => match s.get("type") {
            Some(t) => match t.as_str() {
                Some(x) => string_of(x.as_str()),
                None => string_of("string"),
            },
            None => string_of("string"),
        },
        None => string_of("string"),
    };
    let required = match p.get("required") {
        Some(v) => match v.as_bool() {
            Some(b) => b,
            None => false,
        },
        None => false,
    };
    let default = match schema {
        Some(s) => match s.get("default") {
            Some(d) => match d {
                JsonValue::Str(t) => Some(string_of(t.as_str())),
                _ => Some(d.to_compact_string()),
            },
            None => None,
        },
        None => None,
    };
    let description = match p.get("description") {
        Some(v) => match v.as_str() {
            Some(s) => Some(string_of(s.as_str())),
            None => None,
        },
        None => None,
    };
    ApiParameter { name, param_type, required, default, description }
}

/// Split a `parameters` array into query and path parameters; `header`, `cookie` and other
/// locations are skipped, as are `$ref` entries.
pub fn parse_parameters_array(params: &[JsonValue]) -> (r: (Vec<ApiParameter>, Vec<ApiParameter>))
    ensures
        params_view(r.0@) == params_at(params@, "query"@),
        params_view(r.1@) == params_at(params@, "path"@),
{
    let mut query: Vec<ApiParameter> = Vec::new();
    let mut path: Vec<ApiParameter> = Vec::new();
    let mut i: usize = 0;
    while i < params.len()
        invariant
            i <= params@.len(),
            params_view(query@) == params_at(params@.take(i as int), "query"@),
            params_view(path@) == params_at(params@.take(i as int), "path"@),
        decreases params@.len() - i,
    {
        let p = &params[i];
        assert(params@.take(i + 1).drop_last() =~= params@.take(i as int));
        assert(params@.take(i + 1).last() == params@[i as int]);
        if p.is_object() && p.get("$ref").is_none() {
            let loc_query;
            let loc_path;
            match p.get("in") {
                Some(v) => match v.as_str() {
                    Some(s) => {
                        loc_query = str_eq(s.as_str(), "query");
                        loc_path = str_eq(s.as_str(), "path");
                        proof {
                            reveal_strlit("query");
                            reveal_strlit("path");
                        }
                    },
                    None => {
                        loc_query = true;
                        loc_path = false;
                        proof {
                            reveal_strlit("query");
                            reveal_strlit("path");
                        }
                    },
                },
                None => {
                    loc_query = true;
                    loc_path = false;
                    proof {
                        reveal_strlit("query");
                        reveal_strlit("path");
                    }
                },
            }
            proof {
                reveal_strlit("query");
                reveal_strlit("path");
                assert("query"@.len() == 5);
                assert("path"@.len() == 4);
                assert("query"@ != "path"@);
                assert(loc_query == (param_location(*p) == "query"@));
                assert(loc_path == (param_location(*p) == "path"@));
                assert(param_used(*p));
            }
            if loc_query {
                let ghost before = query@;
                query.push(read_parameter(p));
                assert(params_view(query@) =~= params_view(before).push(param_view(*p)));
            } else if loc_path {
                let ghost before = path@;
                path.push(read_parameter(p));
                assert(params_view(path@) =~= params_view(before).push(param_view(*p)));
            }
        }
        i += 1;
    }
    assert(params@.take(params@.len() as int) =~= params@);
    (query, path)
}

/// Operation parameters replace same-named ones of the path item (one list at a time): each
/// operation parameter, in order, removes the earlier entries of its name and is appended.
pub open spec fn merge_params(base: Seq<ApiParameterView>, ops: Seq<ApiParameterView>) -> Seq<
    ApiParameterView,
>
    decreases ops.len(),
{
    if ops.len() == 0 {
        base
    } else {
        let m = merge_params(base, ops.drop_last());
        keep(m, |x: ApiParameterView| x.name != ops.last().name).push(ops.last())
    }
}

fn copy_parameter(p: &ApiParameter) -> (r: ApiParameter)
    ensures
        r@ == p@,
{
    ApiParameter {
        name: string_of(p.name.as_str()),
        param_type: string_of(p.param_type.as_str()),
        required: p.required,
        default: match &p.default {
            Some(d) => Some(string_of(d.as_str())),
            None => None,
        },
        description: match &p.description {
            Some(d) => Some(string_of(d.as_str())),
            None => None,
        },
    }
}

/// `base` without the parameters named `name`.
fn without_name(base: Vec<ApiParameter>, name: &str) -> (out: Vec<ApiParameter>)
    ensures
        params_view(out@) == keep(params_view(base@), |x: ApiParameterView| x.name != name@),
{
    let mut out: Vec<ApiParameter> = Vec::new();
    let mut i: usize = 0;
    while i < base.len()
        invariant
            i <= base@.len(),
            params_view(out@) == keep(
                params_view(base@.take(i as int)),
                |x: ApiParameterView| x.name != name@,
            ),
        decreases base@.len() - i,
    {
        assert(params_view(base@.take(i + 1)).drop_last() =~= params_view(base@.take(i as int)));
        assert(params_view(base@.take(i + 1)).last() == base@[i as int]@);
        if !str_eq(base[i].name.as_str(), name) {
            let ghost before = out@;
            out.push(copy_parameter(&base[i]));
            assert(params_view(out@) =~= params_view(before).push(base@[i as int]@));
        }
        i += 1;
    }
    assert(base@.take(base@.len() as int) =~= base@);
    out
}

/// Merge one list of path-item parameters with the operation's (see `merge_params`).
fn merge_list(base: Vec<ApiParameter>, ops: Vec<ApiParameter>) -> (out: Vec<ApiParameter>)
    ensures
        params_view(out@) == merge_params(params_view(base@), params_view(ops@)),
{
    let mut acc = base;
    let ghost b = params_view(acc@);
    let mut i: usize = 0;
    while i < ops.len()
        invariant
            i <= ops@.len(),
            params_view(acc@) == merge_params(b, params_view(ops@.take(i as int))),
        decreases ops@.len() - i,
    {
        let ghost t = params_view(ops@.take(i + 1));
        assert(t.drop_last() =~= params_view(ops@.take(i as int)));
        assert(t.last() == ops@[i as int]@);
        let p = copy_parameter(&ops[i]);
        let kept = without_name(acc, ops[i].name.as_str());
        acc = kept;
        let ghost before = acc@;
        acc.push(p);
        assert(params_view(acc@) =~= params_view(before).push(ops@[i as int]@));
        i += 1;
    }
    assert(ops@.take(ops@.len() as int) =~= ops@);
    acc
}

/// Path-item parameters first; operation parameters with the same name replace query and path
/// entries respectively.
pub fn merge_parameter_lists(
    path_query: Vec<ApiParameter>,
    path_path: Vec<ApiParameter>,
    op_query: Vec<ApiParameter>,
    op_path: Vec<ApiParameter>,
) -> (r: (Vec<ApiParameter>, Vec<ApiParameter>))
    ensures
        params_view(r.0@) == merge_params(params_view(path_query@), params_view(op_query@)),
        params_view(r.1@) == merge_params(params_view(path_path@), params_view(op_path@)),
{
    (merge_list(path_query, op_query), merge_list(path_path, op_path))
}

// ---------------------------------------------------------------------------
// Endpoints
// ---------------------------------------------------------------------------

/// The endpoint that operation `op` (under `key`) of path `path` describes, given the path
/// item's query and path parameters.
pub open spec fn endpoint_view_of(
    path: Seq<char>,
    key: Seq<char>,
    op: JsonValue,
    pq: Seq<ApiParameterView>,
    pp: Seq<ApiParameterView>,
) -> ApiEndpointView {
    let ops = json_items(json_get(op, "parameters"@));
    ApiEndpointView {
        method: method_name(key),
        path: path,
        summary: json_str(json_get(op, "summary"@)),
        description: json_str(json_get(op, "description"@)),
        query_params: merge_params(pq, params_at(ops, "query"@)),
        path_params: merge_params(pp, params_at(ops, "path"@)),
        has_body: json_get(op, "requestBody"@) is Some,
        tags: json_strings(json_items(json_get(op, "tags"@))),
    }
}

/// The endpoints of one path item's members, in member order; the first operation member that
/// is not an object is an error.
pub open spec fn operations_of(
    path: Seq<char>,
    es: Seq<(String, JsonValue)>,
    pq: Seq<ApiParameterView>,
    pp: Seq<ApiParameterView>,
) -> Result<Seq<ApiEndpointView>, OpenApiErrorView>
    decreases es.len(),
{
    if es.len() == 0 {
        Ok(Seq::empty())
    } else {
        match operations_of(path, es.drop_last(), pq, pp) {
            Err(e) => Err(e),
            Ok(r) => {
                let k = es.last().0@;
                let op = es.last().1;
                if !is_operation_method(k) {
                    Ok(r)
                } else if !(op is Object) {
                    Err(OpenApiErrorView::InvalidOperation { method: k, path: path })
                } else {
                    Ok(r.push(endpoint_view_of(path, k, op, pq, pp)))
                }
            },
        }
    }
}

/// The endpoints of every path item, in document order; the first path item that is not an
/// object, or the first bad operation, is an error.
pub open spec fn paths_endpoints(ps: Seq<(String, JsonValue)>) -> Result<
    Seq<ApiEndpointView>,
    OpenApiErrorView,
>
    decreases ps.len(),
{
    if ps.len() == 0 {
        Ok(Seq::empty())
    } else {
        match paths_endpoints(ps.drop_last()) {
            Err(e) => Err(e),
            Ok(r) => {
                let path = ps.last().0@;
                let item = ps.last().1;
                match item {
                    JsonValue::Object(es) => {
                        let lvl = json_items(json_get(item, "parameters"@));
                        match operations_of(
                            path,
                            es@,
                            params_at(lvl, "query"@),
                            params_at(lvl, "path"@),
                        ) {
                            Ok(x) => Ok(r + x),
                            Err(e) => Err(e),
                        }
                    },
                    _ => Err(OpenApiErrorView::InvalidPath(path)),
                }
            },
        }
    }
}

/// Registry order: by path, then by method (string order).
pub open spec fn ep_le(a: ApiEndpointView, b: ApiEndpointView) -> bool {
    lex_lt(a.path, b.path) || (a.path == b.path && lex_le(a.method, b.method))
}

/// `x` inserted after the last element of `s` that is not greater than it... from the end:
/// `x` moves before each trailing element greater than it (a stable insertion).
pub open spec fn insert_sorted(s: Seq<ApiEndpointView>, x: ApiEndpointView) -> Seq<ApiEndpointView>
    decreases s.len(),
{
    if s.len() == 0 || ep_le(s.last(), x) {
        s.push(x)
    } else {
        insert_sorted(s.drop_last(), x).push(s.last())
    }
}

/// Stable sort by `ep_le` (what `sort_by` on path then method yields).
pub open spec fn sort_endpoints(s: Seq<ApiEndpointView>) -> Seq<ApiEndpointView>
    decreases s.len(),
{
    if s.len() == 0 {
        s
    } else {
        insert_sorted(sort_endpoints(s.drop_last()), s.last())
    }
}

/// What the registry reads from a document: its sorted endpoints, or the first error.
pub open spec fn registry_endpoints(root: JsonValue) -> Result<
    Seq<ApiEndpointView>,
    OpenApiErrorView,
> {
    match json_get(root, "paths"@) {
        Some(JsonValue::Object(ps)) => match paths_endpoints(ps@) {
            Ok(eps) => Ok(sort_endpoints(eps)),
            Err(e) => Err(e),
        },
        _ => Err(OpenApiErrorView::MissingPaths),
    }
}

fn copy_params(ps: &[ApiParameter]) -> (out: Vec<ApiParameter>)
    ensures
        params_view(out@) == params_view(ps@),
{
    let mut out: Vec<ApiParameter> = Vec::new();
    let mut i: usize = 0;
    while i < ps.len()
        invariant
            i <= ps@.len(),
            params_view(out@) == params_view(ps@.take(i as int)),
        decreases ps@.len() - i,
    {
        out.push(copy_parameter(&ps[i]));
        assert(params_view(ps@.take(i + 1)) =~= params_view(ps@.take(i as int)).push(
            ps@[i as int]@,
        ));
        i += 1;
    }
    assert(ps@.take(ps@.len() as int) =~= ps@);
    out
}

fn copy_strings(ts: &[String]) -> (out: Vec<String>)
    ensures
        out@.map_values(|t: String| t@) == ts@.map_values(|t: String| t@),
{
    let mut out: Vec<String> = Vec::new();
    let mut i: usize = 0;
    while i < ts.len()
        invariant
            i <= ts@.len(),
            out@.map_values(|t: String| t@) == ts@.take(i as int).map_values(|t: String| t@),
        decreases ts@.len() - i,
    {
        out.push(string_of(ts[i].as_str()));
        assert(ts@.take(i + 1).map_values(|t: String| t@) =~= ts@.take(i as int).map_values(
            |t: String| t@,
        ).push(ts@[i as int]@));
        assert(out@.map_values(|t: String| t@) =~= ts@.take(i + 1).map_values(|t: String| t@));
        i += 1;
    }
    assert(ts@.take(ts@.len() as int) =~= ts@);
    out
}

fn copy_opt(o: &Option<String>) -> (r: Option<String>)
    ensures
        opt_chars(r) == opt_chars(*o),
{
    match o {
        Some(s) => Some(string_of(s.as_str())),
        None => None,
    }
}

/// An independent copy of an endpoint.
pub fn copy_endpoint(e: &ApiEndpoint) -> (r: ApiEndpoint)
    ensures
        r@ == e@,
{
    ApiEndpoint {
        method: string_of(e.method.as_str()),
        path: string_of(e.path.as_str()),
        summary: copy_opt(&e.summary),
        description: copy_opt(&e.description),
        query_params: copy_params(e.query_params.as_slice()),
        path_params: copy_params(e.path_params.as_slice()),
        has_body: e.has_body,
        tags: copy_strings(e.tags.as_slice()),
    }
}

fn opt_str_member(v: &JsonValue, key: &str) -> (r: Option<String>)
    ensures
        opt_chars(r) == json_str(json_get(*v, key@)),
{
    match v.get(key) {
        Some(x) => match x.as_str() {
            Some(s) => Some(string_of(s.as_str())),
            None => None,
        },
        None => None,
    }
}

fn items_member<'a>(v: &'a JsonValue, key: &str) -> (r: &'a [JsonValue])
    ensures
        r@ == json_items(json_get(*v, key@)),
{
    match v.get(key) {
        Some(x) => match x {
            JsonValue::Array(items) => items.as_slice(),
            _ => &[],
        },
        None => &[],
    }
}

fn read_endpoint(
    path: &str,
    key: &str,
    op: &JsonValue,
    pq: &[ApiParameter],
    pp: &[ApiParameter],
) -> (r: ApiEndpoint)
    ensures
        r@ == endpoint_view_of(path@, key@, *op, params_view(pq@), params_view(pp@)),
{
    let ops = items_member(op, "parameters");
    let (oq, opp) = parse_parameters_array(ops);
    let (query_params, path_params) = merge_parameter_lists(
        copy_params(pq),
        copy_params(pp),
        oq,
        opp,
    );
    let tags = string_items(items_member(op, "tags"));
    ApiEndpoint {
        method: uppercase_method(key),
        path: string_of(path),
        summary: opt_str_member(op, "summary"),
        description: opt_str_member(op, "description"),
        query_params,
        path_params,
        has_body: op.get("requestBody").is_some(),
        tags,
    }
}

fn read_operations(
    path: &String,
    es: &[(String, JsonValue)],
    pq: &[ApiParameter],
    pp: &[ApiParameter],
    out: &mut Vec<ApiEndpoint>,
) -> (r: Result<(), OpenApiError>)
    ensures
        match operations_of(path@, es@, params_view(pq@), params_view(pp@)) {
            Ok(x) => r is Ok && endpoints_view(final(out)@) == endpoints_view(old(out)@) + x,
            Err(e) => r matches Err(err) && err@ == e,
        },
{
    let ghost start = endpoints_view(out@);
    let ghost pqv = params_view(pq@);
    let ghost ppv = params_view(pp@);
    let mut j: usize = 0;
    assert(start + Seq::<ApiEndpointView>::empty() =~= start);
    while j < es.len()
        invariant
            j <= es@.len(),
            start == endpoints_view(old(out)@),
            pqv == params_view(pq@),
            ppv == params_view(pp@),
            operations_of(path@, es@.take(j as int), pqv, ppv) matches Ok(x) && endpoints_view(
                out@,
            ) == start + x,
        decreases es@.len() - j,
    {
        let ghost prev = operations_of(path@, es@.take(j as int), pqv, ppv)->Ok_0;
        assert(es@.take(j + 1).drop_last() =~= es@.take(j as int));
        assert(es@.take(j + 1).last() == es@[j as int]);
        let key = &es[j].0;
        let op = &es[j].1;
        if is_openapi_operation_method(key.as_str()) {
            if !op.is_object() {
                proof {
                    lemma_operations_err_prefix(path@, es@, j as int + 1, pqv, ppv);
                }
                return Err(
                    OpenApiError::InvalidOperation {
                        method: string_of(key.as_str()),
                        path: string_of(path.as_str()),
                    },
                );
            }
            let ep = read_endpoint(path.as_str(), key.as_str(), op, pq, pp);
            let ghost before = endpoints_view(out@);
            out.push(ep);
            assert(endpoints_view(out@) =~= before.push(ep@));
            assert(start + prev.push(ep@) =~= (start + prev).push(ep@));
        }
        j += 1;
    }
    assert(es@.take(es@.len() as int) =~= es@);
    Ok(())
}

/// Once the members up to `k` give an error, every longer prefix gives the same error.
proof fn lemma_operations_err_prefix(
    path: Seq<char>,
    es: Seq<(String, JsonValue)>,
    k: int,
    pq: Seq<ApiParameterView>,
    pp: Seq<ApiParameterView>,
)
    requires
        0 <= k <= es.len(),
        operations_of(path, es.take(k), pq, pp) is Err,
    ensures
        operations_of(path, es, pq, pp) == operations_of(path, es.take(k), pq, pp),
    decreases es.len() - k,
{
    if k < es.len() {
        assert(es.take(k + 1).drop_last() =~= es.take(k));
        lemma_operations_err_prefix(path, es, k + 1, pq, pp);
    } else {
        assert(es.take(k) =~= es);
    }
}

proof fn lemma_paths_err_prefix(ps: Seq<(String, JsonValue)>, k: int)
    requires
        0 <= k <= ps.len(),
        paths_endpoints(ps.take(k)) is Err,
    ensures
        paths_endpoints(ps) == paths_endpoints(ps.take(k)),
    decreases ps.len() - k,
{
    if k < ps.len() {
        assert(ps.take(k + 1).drop_last() =~= ps.take(k));
        lemma_paths_err_prefix(ps, k + 1);
    } else {
        assert(ps.take(k) =~= ps);
    }
}

fn ep_le_exec(a: &ApiEndpoint, b: &ApiEndpoint) -> (r: bool)
    ensures
        r == ep_le(a@, b@),
{
    let same_path = str_eq(a.path.as_str(), b.path.as_str());
    if same_path {
        lex_le_str(a.method.as_str(), b.method.as_str())
    } else {
        lex_le_str(a.path.as_str(), b.path.as_str())
    }
}

proof fn lemma_insert_sorted_at(s: Seq<ApiEndpointView>, x: ApiEndpointView, j: int)
    requires
        0 <= j <= s.len(),
        j == 0 || ep_le(s[j - 1], x),
        forall|k: int| j <= k < s.len() ==> !ep_le(#[trigger] s[k], x),
    ensures
        insert_sorted(s, x) == s.insert(j, x),
    decreases s.len(),
{
    if j == s.len() {
        assert(s.insert(j, x) =~= s.push(x));
    } else {
        lemma_insert_sorted_at(s.drop_last(), x, j);
        assert(s.insert(j, x) =~= s.drop_last().insert(j, x).push(s.last()));
    }
}

fn sort_by_path_and_method(v: Vec<ApiEndpoint>) -> (out: Vec<ApiEndpoint>)
    ensures
        endpoints_view(out@) == sort_endpoints(endpoints_view(v@)),
{
    let mut out: Vec<ApiEndpoint> = Vec::new();
    let mut i: usize = 0;
    while i < v.len()
        invariant
            i <= v@.len(),
            endpoints_view(out@) == sort_endpoints(endpoints_view(v@.take(i as int))),
        decreases v@.len() - i,
    {
        let x = copy_endpoint(&v[i]);
        let mut j: usize = out.len();
        while j > 0 && !ep_le_exec(&out[j - 1], &x)
            invariant
                j <= out@.len(),
                forall|k: int| j <= k < out@.len() ==> !ep_le(#[trigger] out@[k]@, x@),
            decreases j,
        {
            j -= 1;
        }
        proof {
            let s = endpoints_view(out@);
            assert forall|k: int| j <= k < s.len() implies !ep_le(#[trigger] s[k], x@) by {
                assert(s[k] == out@[k]@);
            }
            if j > 0 {
                assert(s[j - 1] == out@[j - 1]@);
            }
            lemma_insert_sorted_at(s, x@, j as int);
            assert(endpoints_view(v@.take(i + 1)).drop_last() =~= endpoints_view(v@.take(i as int)));
            assert(endpoints_view(v@.take(i + 1)).last() == x@);
        }
        let ghost before = out@;
        out.insert(j, x);
        assert(endpoints_view(out@) =~= endpoints_view(before).insert(j as int, x@));
        i += 1;
    }
    assert(v@.take(v@.len() as int) =~= v@);
    out
}

/// What `serde_json` reads from a JSON text: the value (object members in the order of its
/// map, numbers as it prints them), or the text of its error.
pub uninterp spec fn spec_parse_json(text: Seq<char>) -> Result<JsonValue, Seq<char>>;

/// `serde_json::from_str::<serde_json::Value>`, converted one for one to `JsonValue` (a nested
/// value goes through the same conversion of its own text); the error is `serde_json`'s
/// message. Claimed: the outcome depends on the text alone.
#[verifier::external_body]
fn parse_json(text: &str) -> (r: Result<JsonValue, String>)
    ensures
        match spec_parse_json(text@) {
            Ok(v) => r == Ok::<JsonValue, String>(v),
            Err(m) => r matches Err(e) && e@ == m,
        },
{
    let conv = |x: &SerdeValue| parse_json(&x.to_string());
    Ok(match serde_json::from_str::<SerdeValue>(text).map_err(|e| e.to_string())? {
        SerdeValue::Null => JsonValue::Null,
        SerdeValue::Bool(b) => JsonValue::Bool(b),
        SerdeValue::Number(n) => JsonValue::Number(n.to_string()),
        SerdeValue::String(s) => JsonValue::Str(s),
        SerdeValue::Array(a) => JsonValue::Array(a.iter().map(conv).collect::<Result<_, _>>()?),
        SerdeValue::Object(m) => JsonValue::Object(
            m.iter().map(|(k, x)| Ok((k.clone(), conv(x)?))).collect::<Result<_, String>>()?,
        ),
    })
}

impl EndpointRegistry {
    /// Read the endpoints of an OpenAPI document given as JSON text: a text that is not JSON
    /// is a `Parse` error with the parser's message; otherwise as `from_openapi_value`.
    pub fn from_openapi_json(json_str: &str) -> (r: Result<EndpointRegistry, OpenApiError>)
        ensures
            match spec_parse_json(json_str@) {
                Err(m) => r matches Err(err) && err@ == OpenApiErrorView::Parse(m),
                Ok(v) => match registry_endpoints(v) {
                    Ok(eps) => r matches Ok(reg) && endpoints_view(reg.endpoints@) == eps,
                    Err(e) => r matches Err(err) && err@ == e,
                },
            },
    {
        match parse_json(json_str) {
            Ok(v) => EndpointRegistry::from_openapi_value(&v),
            Err(m) => Err(OpenApiError::Parse(m)),
        }
    }

    /// Read the endpoints of an OpenAPI document: every operation of every path item, with
    /// path-level parameters merged under operation-level ones, sorted by path then method.
    pub fn from_openapi_value(root: &JsonValue) -> (r: Result<EndpointRegistry, OpenApiError>)
        ensures
            match registry_endpoints(*root) {
                Ok(eps) => r matches Ok(reg) && endpoints_view(reg.endpoints@) == eps,
                Err(e) => r matches Err(err) && err@ == e,
            },
    {
        let pes = match root.get("paths") {
            Some(p) => match p {
                JsonValue::Object(pes) => pes,
                _ => {
                    return Err(OpenApiError::MissingPaths);
                },
            },
            None => {
                return Err(OpenApiError::MissingPaths);
            },
        };
        let mut eps: Vec<ApiEndpoint> = Vec::new();
        let mut i: usize = 0;
        assert(pes@.take(0) =~= Seq::<(String, JsonValue)>::empty());
        assert(endpoints_view(eps@) =~= Seq::<ApiEndpointView>::empty());
        while i < pes.len()
            invariant
                i <= pes@.len(),
                json_get(*root, "paths"@) == Some(JsonValue::Object(*pes)),
                paths_endpoints(pes@.take(i as int)) == Ok::<
                    Seq<ApiEndpointView>,
                    OpenApiErrorView,
                >(endpoints_view(eps@)),
            decreases pes@.len() - i,
        {
            assert(pes@.take(i + 1).drop_last() =~= pes@.take(i as int));
            assert(pes@.take(i + 1).last() == pes@[i as int]);
            let path = &pes[i].0;
            let item = &pes[i].1;
            let ies = match item {
                JsonValue::Object(ies) => ies,
                _ => {
                    proof {
                        lemma_paths_err_prefix(pes@, i + 1);
                    }
                    return Err(OpenApiError::InvalidPath(string_of(path.as_str())));
                },
            };
            let lvl = items_member(item, "parameters");
            let (pq, pp) = parse_parameters_array(lvl);
            let ghost before = endpoints_view(eps@);
            match read_operations(path, ies.as_slice(), pq.as_slice(), pp.as_slice(), &mut eps) {
                Ok(()) => {},
                Err(e) => {
                    proof {
                        lemma_paths_err_prefix(pes@, i + 1);
                    }
                    return Err(e);
                },
            }
            i += 1;
        }
        assert(pes@.take(pes@.len() as int) =~= pes@);
        let sorted = sort_by_path_and_method(eps);
        Ok(EndpointRegistry { endpoints: sorted })
    }
}

// ---------------------------------------------------------------------------
// Order of the registry
// ---------------------------------------------------------------------------

/// Every earlier endpoint is `ep_le` every later one.
pub open spec fn sorted_eps(s: Seq<ApiEndpointView>) -> bool {
    forall|i: int, j: int| 0 <= i < j < s.len() ==> ep_le(#[trigger] s[i], #[trigger] s[j])
}

proof fn lemma_ep_total(a: ApiEndpointView, b: ApiEndpointView)
    ensures
        ep_le(a, b) || ep_le(b, a),
{
    crate::text::lemma_lex_total(a.path, b.path);
    crate::text::lemma_lex_total(a.method, b.method);
}

proof fn lemma_ep_trans(a: ApiEndpointView, b: ApiEndpointView, c: ApiEndpointView)
    requires
        ep_le(a, b),
        ep_le(b, c),
    ensures
        ep_le(a, c),
{
    if a.path == b.path && b.path == c.path {
        crate::text::lemma_lex_trans(a.method, b.method, c.method);
    } else {
        crate::text::lemma_lex_refl(a.path);
        crate::text::lemma_lex_refl(b.path);
        assert(lex_le(a.path, b.path));
        assert(lex_le(b.path, c.path));
        crate::text::lemma_lex_trans(a.path, b.path, c.path);
        if a.path == c.path {
            crate::text::lemma_lex_antisym(a.path, b.path);
        }
    }
}

proof fn lemma_insert_bounded(t: Seq<ApiEndpointView>, x: ApiEndpointView, y: ApiEndpointView)
    requires
        forall|k: int| 0 <= k < t.len() ==> ep_le(#[trigger] t[k], y),
        ep_le(x, y),
    ensures
        forall|k: int|
            0 <= k < insert_sorted(t, x).len() ==> ep_le(#[trigger] insert_sorted(t, x)[k], y),
        insert_sorted(t, x).len() == t.len() + 1,
    decreases t.len(),
{
    if t.len() == 0 || ep_le(t.last(), x) {
    } else {
        lemma_insert_bounded(t.drop_last(), x, y);
        let r = insert_sorted(t.drop_last(), x);
        assert forall|k: int| 0 <= k < insert_sorted(t, x).len() implies ep_le(
            #[trigger] insert_sorted(t, x)[k],
            y,
        ) by {
            if k < r.len() {
                assert(insert_sorted(t, x)[k] == r[k]);
            } else {
                assert(insert_sorted(t, x)[k] == t[t.len() - 1]);
            }
        }
    }
}

proof fn lemma_insert_sorted_sorted(s: Seq<ApiEndpointView>, x: ApiEndpointView)
    requires
        sorted_eps(s),
    ensures
        sorted_eps(insert_sorted(s, x)),
        insert_sorted(s, x).len() == s.len() + 1,
        insert_sorted(s, x).to_multiset() == s.to_multiset().insert(x),
    decreases s.len(),
{
    broadcast use vstd::seq_lib::to_multiset_build;

    let r = insert_sorted(s, x);
    if s.len() == 0 || ep_le(s.last(), x) {
        assert forall|i: int, j: int| 0 <= i < j < r.len() implies ep_le(
            #[trigger] r[i],
            #[trigger] r[j],
        ) by {
            if j == s.len() {
                if i < s.len() - 1 {
                    lemma_ep_trans(s[i], s[s.len() - 1], x);
                }
            }
        }
    } else {
        let t = s.drop_last();
        let l = s.last();
        lemma_insert_sorted_sorted(t, x);
        lemma_ep_total(l, x);
        assert forall|k: int| 0 <= k < t.len() implies ep_le(#[trigger] t[k], l) by {
            assert(t[k] == s[k]);
        }
        lemma_insert_bounded(t, x, l);
        let q = insert_sorted(t, x);
        assert forall|i: int, j: int| 0 <= i < j < r.len() implies ep_le(
            #[trigger] r[i],
            #[trigger] r[j],
        ) by {
            if j < q.len() {
                assert(r[i] == q[i] && r[j] == q[j]);
            } else {
                assert(r[i] == q[i]);
                assert(r[j] == l);
            }
        }
        assert(s == t.push(l));
        assert(r.to_multiset() =~= s.to_multiset().insert(x));
    }
}

/// The registry's order: the endpoints come out sorted by path, then method, and are exactly
/// the endpoints read (as a multiset).
pub proof fn lemma_sort_endpoints(s: Seq<ApiEndpointView>)
    ensures
        sorted_eps(sort_endpoints(s)),
        sort_endpoints(s).to_multiset() == s.to_multiset(),
    decreases s.len(),
{
    broadcast use vstd::seq_lib::to_multiset_build;

    if s.len() > 0 {
        lemma_sort_endpoints(s.drop_last());
        lemma_insert_sorted_sorted(sort_endpoints(s.drop_last()), s.last());
        assert(s == s.drop_last().push(s.last()));
    } else {
        assert(sorted_eps(s));
    }
}

/// Endpoints that a document yields are ordered by path, then method.
pub proof fn lemma_registry_sorted(root: JsonValue)
    ensures
        registry_endpoints(root) matches Ok(eps) ==> sorted_eps(eps),
{
    match json_get(root, "paths"@) {
        Some(JsonValue::Object(ps)) => match paths_endpoints(ps@) {
            Ok(eps) => lemma_sort_endpoints(eps),
            Err(_) => {},
        },
        _ => {},
    }
}

// ---------------------------------------------------------------------------
// Queries on the registry
// ---------------------------------------------------------------------------

/// Case-insensitive substring match of `q` in the endpoint's path, method, summary or
/// description (lowercased with `str::to_lowercase`).
pub open spec fn search_matches(e: ApiEndpointView, q: Seq<char>) -> bool {
    let ql = spec_to_lowercase(q);
    ||| seq_contains(spec_to_lowercase(e.path), ql)
    ||| seq_contains(spec_to_lowercase(e.method), ql)
    ||| (e.summary matches Some(s) && seq_contains(spec_to_lowercase(s), ql))
    ||| (e.description matches Some(d) && seq_contains(spec_to_lowercase(d), ql))
}

/// The endpoint carries tag `tag`.
pub open spec fn has_tag(e: ApiEndpointView, tag: Seq<char>) -> bool {
    e.tags.contains(tag)
}

pub open spec fn refs_view(r: Seq<&ApiEndpoint>) -> Seq<ApiEndpointView> {
    r.map_values(|e: &ApiEndpoint| e@)
}

fn lowered_contains(hay: &str, needle_lower: &str) -> (b: bool)
    ensures
        b == seq_contains(spec_to_lowercase(hay@), needle_lower@),
{
    let h = to_lowercase(hay);
    str_contains(h.as_str(), needle_lower)
}

impl EndpointRegistry {
    /// Endpoints tagged `tag`, in registry order.
    pub fn get_by_tag(&self, tag: &str) -> (r: Vec<&ApiEndpoint>)
        ensures
            refs_view(r@) == keep(endpoints_view(self.endpoints@), |e: ApiEndpointView| has_tag(e, tag@)),
    {
        let mut out: Vec<&ApiEndpoint> = Vec::new();
        let mut i: usize = 0;
        while i < self.endpoints.len()
            invariant
                i <= self.endpoints@.len(),
                refs_view(out@) == keep(
                    endpoints_view(self.endpoints@.take(i as int)),
                    |e: ApiEndpointView| has_tag(e, tag@),
                ),
            decreases self.endpoints@.len() - i,
        {
            let e = &self.endpoints[i];
            assert(endpoints_view(self.endpoints@.take(i + 1)).drop_last() =~= endpoints_view(
                self.endpoints@.take(i as int),
            ));
            assert(endpoints_view(self.endpoints@.take(i + 1)).last() == e@);
            let mut found = false;
            let mut k: usize = 0;
            while k < e.tags.len()
                invariant
                    k <= e.tags@.len(),
                    found == exists|j: int| 0 <= j < k && e.tags@[j]@ == tag@,
                decreases e.tags@.len() - k,
            {
                if str_eq(e.tags[k].as_str(), tag) {
                    found = true;
                }
                k += 1;
            }
            proof {
                let tv = e.tags@.map_values(|t: String| t@);
                if found {
                    let j = choose|j: int| 0 <= j < e.tags@.len() && e.tags@[j]@ == tag@;
                    assert(tv[j] == tag@);
                }
                if tv.contains(tag@) {
                    let j = choose|j: int| 0 <= j < tv.len() && tv[j] == tag@;
                    assert(e.tags@[j]@ == tag@);
                }
            }
            if found {
                let ghost before = out@;
                out.push(e);
                assert(refs_view(out@) =~= refs_view(before).push(e@));
            }
            i += 1;
        }
        assert(self.endpoints@.take(self.endpoints@.len() as int) =~= self.endpoints@);
        out
    }

    /// Endpoints whose path starts with `prefix`, in registry order.
    pub fn get_by_path_prefix(&self, prefix: &str) -> (r: Vec<&ApiEndpoint>)
        ensures
            refs_view(r@) == keep(
                endpoints_view(self.endpoints@),
                |e: ApiEndpointView| seq_starts_with(e.path, prefix@),
            ),
    {
        let mut out: Vec<&ApiEndpoint> = Vec::new();
        let mut i: usize = 0;
        while i < self.endpoints.len()
            invariant
                i <= self.endpoints@.len(),
                refs_view(out@) == keep(
                    endpoints_view(self.endpoints@.take(i as int)),
                    |e: ApiEndpointView| seq_starts_with(e.path, prefix@),
                ),
            decreases self.endpoints@.len() - i,
        {
            let e = &self.endpoints[i];
            assert(endpoints_view(self.endpoints@.take(i + 1)).drop_last() =~= endpoints_view(
                self.endpoints@.take(i as int),
            ));
            assert(endpoints_view(self.endpoints@.take(i + 1)).last() == e@);
            if str_starts_with(e.path.as_str(), prefix) {
                let ghost before = out@;
                out.push(e);
                assert(refs_view(out@) =~= refs_view(before).push(e@));
            }
            i += 1;
        }
        assert(self.endpoints@.take(self.endpoints@.len() as int) =~= self.endpoints@);
        out
    }

    /// Endpoints matching `query` case-insensitively (see `search_matches`), in registry order.
    pub fn search(&self, query: &str) -> (r: Vec<&ApiEndpoint>)
        ensures
            refs_view(r@) == keep(
                endpoints_view(self.endpoints@),
                |e: ApiEndpointView| search_matches(e, query@),
            ),
    {
        let ql = to_lowercase(query);
        let mut out: Vec<&ApiEndpoint> = Vec::new();
        let mut i: usize = 0;
        while i < self.endpoints.len()
            invariant
                i <= self.endpoints@.len(),
                ql@ == spec_to_lowercase(query@),
                refs_view(out@) == keep(
                    endpoints_view(self.endpoints@.take(i as int)),
                    |e: ApiEndpointView| search_matches(e, query@),
                ),
            decreases self.endpoints@.len() - i,
        {
            let e = &self.endpoints[i];
            assert(endpoints_view(self.endpoints@.take(i + 1)).drop_last() =~= endpoints_view(
                self.endpoints@.take(i as int),
            ));
            assert(endpoints_view(self.endpoints@.take(i + 1)).last() == e@);
            let hit = lowered_contains(e.path.as_str(), ql.as_str()) || lowered_contains(
                e.method.as_str(),
                ql.as_str(),
            ) || match &e.summary {
                Some(s) => lowered_contains(s.as_str(), ql.as_str()),
                None => false,
            } || match &e.description {
                Some(d) => lowered_contains(d.as_str(), ql.as_str()),
                None => false,
            };
            if hit {
                let ghost before = out@;
                out.push(e);
                assert(refs_view(out@) =~= refs_view(before).push(e@));
            }
            i += 1;
        }
        assert(self.endpoints@.take(self.endpoints@.len() as int) =~= self.endpoints@);
        out
    }
}

// ---------------------------------------------------------------------------
// Path templates
// ---------------------------------------------------------------------------

/// Bytes that a path parameter value never carries literally: controls, DEL, and
/// space `"` `#` `<` `>` `` ` `` `?` `{` `}` `/` `%`.
pub open spec fn path_param_reserved(b: u8) -> bool {
    b < 0x20 || b == 0x7f || b == 0x20 || b == 0x22 || b == 0x23 || b == 0x3c || b == 0x3e || b
        == 0x60 || b == 0x3f || b == 0x7b || b == 0x7d || b == 0x2f || b == 0x25
}

/// Uppercase hexadecimal digit for `v < 16`.
pub open spec fn hex_upper(v: nat) -> char {
    if v < 10 {
        ((v + 48) as u32) as char
    } else {
        ((v + 55) as u32) as char
    }
}

/// Percent-encoding of bytes: a non-ASCII or reserved byte becomes `%XX` (uppercase hex), any
/// other byte stands for itself.
pub open spec fn percent_encoded(bs: Seq<u8>) -> Seq<char>
    decreases bs.len(),
{
    if bs.len() == 0 {
        Seq::empty()
    } else {
        let r = percent_encoded(bs.drop_last());
        let b = bs.last();
        if b >= 0x80 || path_param_reserved(b) {
            r + seq!['%', hex_upper((b / 16) as nat), hex_upper((b % 16) as nat)]
        } else {
            r.push((b as u32) as char)
        }
    }
}

/// A path parameter value as it goes into a URL: its UTF-8 bytes percent-encoded.
pub open spec fn path_encoded(raw: Seq<char>) -> Seq<char> {
    percent_encoded(vstd::utf8::encode_utf8(raw))
}

/// `percent_encoding::percent_encode_byte`: `%` and the byte in two uppercase hex digits.
#[verifier::external_body]
fn percent_encode_byte(b: u8) -> (s: &'static str)
    ensures
        s@ == seq!['%', hex_upper((b / 16) as nat), hex_upper((b % 16) as nat)],
{
    percent_encoding::percent_encode_byte(b)
}

fn is_path_param_reserved(b: u8) -> (r: bool)
    ensures
        r == path_param_reserved(b),
{
    b < 0x20 || b == 0x7f || b == 0x20 || b == 0x22 || b == 0x23 || b == 0x3c || b == 0x3e || b
        == 0x60 || b == 0x3f || b == 0x7b || b == 0x7d || b == 0x2f || b == 0x25
}

/// Percent-encode a path parameter value (see `path_encoded`).
pub fn encode_path_value(raw: &str) -> (out: Vec<char>)
    ensures
        out@ == path_encoded(raw@),
{
    let bytes = raw.as_bytes();
    let mut out: Vec<char> = Vec::new();
    let mut i: usize = 0;
    while i < bytes.len()
        invariant
            i <= bytes@.len(),
            bytes@ == vstd::utf8::encode_utf8(raw@),
            out@ == percent_encoded(bytes@.take(i as int)),
        decreases bytes@.len() - i,
    {
        let b = bytes[i];
        assert(bytes@.take(i + 1).drop_last() =~= bytes@.take(i as int));
        if b >= 0x80 || is_path_param_reserved(b) {
            let enc = chars_of(percent_encode_byte(b));
            let ghost before = out@;
            out.push(enc[0]);
            out.push(enc[1]);
            out.push(enc[2]);
            assert(out@ =~= before + enc@);
        } else {
            out.push(b as char);
        }
        i += 1;
    }
    assert(bytes@.take(bytes@.len() as int) =~= bytes@);
    out
}

/// `str::replace(pat, rep)` for a non-empty pattern: occurrences replaced left to right,
/// without overlap.
pub open spec fn replace_all(s: Seq<char>, pat: Seq<char>, rep: Seq<char>) -> Seq<char>
    decreases s.len(),
{
    if pat.len() == 0 || s.len() < pat.len() {
        s
    } else if s.take(pat.len() as int) == pat {
        rep + replace_all(s.skip(pat.len() as int), pat, rep)
    } else {
        seq![s[0]] + replace_all(s.skip(1), pat, rep)
    }
}

pub fn replace_all_chars(s: &[char], pat: &[char], rep: &[char]) -> (out: Vec<char>)
    requires
        pat@.len() > 0,
    ensures
        out@ == replace_all(s@, pat@, rep@),
{
    let mut out: Vec<char> = Vec::new();
    let mut i: usize = 0;
    assert(s@.skip(0) =~= s@);
    while i < s.len()
        invariant
            i <= s@.len(),
            pat@.len() > 0,
            replace_all(s@, pat@, rep@) == out@ + replace_all(s@.skip(i as int), pat@, rep@),
        decreases s@.len() - i,
    {
        let ghost rest = s@.skip(i as int);
        if occurs_at_exec(s, pat, i) {
            assert(rest.take(pat@.len() as int) =~= s@.subrange(i as int, i + pat@.len()));
            assert(rest.skip(pat@.len() as int) =~= s@.skip(i + pat@.len()));
            let ghost before = out@;
            let mut k: usize = 0;
            while k < rep.len()
                invariant
                    k <= rep@.len(),
                    out@ == before + rep@.take(k as int),
                decreases rep@.len() - k,
            {
                out.push(rep[k]);
                assert(before + rep@.take(k + 1) =~= (before + rep@.take(k as int)).push(
                    rep@[k as int],
                ));
                k += 1;
            }
            assert(rep@.take(rep@.len() as int) =~= rep@);
            assert(before + (rep@ + replace_all(s@.skip(i + pat@.len()), pat@, rep@)) =~= (before
                + rep@) + replace_all(s@.skip(i + pat@.len()), pat@, rep@));
            i += pat.len();
        } else {
            proof {
                if rest.len() >= pat@.len() {
                    assert(rest.take(pat@.len() as int) =~= s@.subrange(i as int, i + pat@.len()));
                }
                assert(rest.skip(1) =~= s@.skip(i + 1));
                if rest.len() < pat@.len() {
                    assert(rest.skip(1).len() < pat@.len());
                    assert(rest =~= seq![s@[i as int]] + rest.skip(1));
                }
            }
            let ghost before = out@;
            out.push(s[i]);
            assert(before + (seq![s@[i as int]] + replace_all(s@.skip(i + 1), pat@, rep@)) =~= out@
                + replace_all(s@.skip(i + 1), pat@, rep@));
            i += 1;
        }
    }
    assert(s@.skip(s@.len() as int) =~= Seq::<char>::empty());
    assert(out@ + Seq::<char>::empty() =~= out@);
    out
}

/// `{name}`.
pub open spec fn brace_token(name: Seq<char>) -> Seq<char> {
    seq!['{'] + name + seq!['}']
}

/// The template after substituting each `(name, value)` in turn: every `{name}` becomes the
/// encoded value.
pub open spec fn substitute_params(t: Seq<char>, vals: Seq<(String, String)>) -> Seq<char>
    decreases vals.len(),
{
    if vals.len() == 0 {
        t
    } else {
        let s = substitute_params(t, vals.drop_last());
        let tok = brace_token(vals.last().0@);
        if seq_contains(s, tok) {
            replace_all(s, tok, path_encoded(vals.last().1@))
        } else {
            s
        }
    }
}

/// Replace `{name}` segments of an OpenAPI path template by the percent-encoded values; an
/// error when a `{` is left after substitution.
pub fn resolve_path_template(template: &str, values: &[(String, String)]) -> (r: Result<
    String,
    OpenApiError,
>)
    ensures
        ({
            let out = substitute_params(template@, values@);
            match r {
                Ok(s) => s@ == out && !out.contains('{'),
                Err(e) => out.contains('{') && e@ == OpenApiErrorView::UnresolvedPlaceholders(
                    template@,
                ),
            }
        }),
{
    let mut out = chars_of(template);
    let mut k: usize = 0;
    while k < values.len()
        invariant
            k <= values@.len(),
            out@ == substitute_params(template@, values@.take(k as int)),
        decreases values@.len() - k,
    {
        assert(values@.take(k + 1).drop_last() =~= values@.take(k as int));
        assert(values@.take(k + 1).last() == values@[k as int]);
        let mut tok: Vec<char> = Vec::new();
        tok.push('{');
        let name = chars_of(values[k].0.as_str());
        let mut j: usize = 0;
        while j < name.len()
            invariant
                j <= name@.len(),
                tok@ == seq!['{'] + name@.take(j as int),
            decreases name@.len() - j,
        {
            tok.push(name[j]);
            assert(seq!['{'] + name@.take(j + 1) =~= (seq!['{'] + name@.take(j as int)).push(
                name@[j as int],
            ));
            j += 1;
        }
        tok.push('}');
        assert(name@.take(name@.len() as int) =~= name@);
        assert(tok@ =~= brace_token(values@[k as int].0@));
        if contains_chars(out.as_slice(), tok.as_slice()) {
            let enc = encode_path_value(values[k].1.as_str());
            out = replace_all_chars(out.as_slice(), tok.as_slice(), enc.as_slice());
        }
        k += 1;
    }
    assert(values@.take(values@.len() as int) =~= values@);
    let mut i: usize = 0;
    while i < out.len()
        invariant
            i <= out@.len(),
            out@ == substitute_params(template@, values@),
            forall|j: int| 0 <= j < i ==> out@[j] != '{',
        decreases out@.len() - i,
    {
        if out[i] == '{' {
            assert(out@.contains('{')) by {
                assert(out@[i as int] == '{');
            }
            return Err(OpenApiError::UnresolvedPlaceholders(string_of(template)));
        }
        i += 1;
    }
    Ok(string_from_chars(out.as_slice()))
}

// ---------------------------------------------------------------------------
// Messages and small readers
// ---------------------------------------------------------------------------

/// How `{:?}` prints a string slice (quoted, with Rust escapes).
pub uninterp spec fn spec_debug_str(s: Seq<char>) -> Seq<char>;

/// `format!("{:?}", s)` for a string slice.
/// Claimed: the text depends on `s` alone.
#[verifier::external_body]
fn debug_str(s: &str) -> (out: String)
    ensures
        out@ == spec_debug_str(s@),
{
    format!("{:?}", s)
}

impl OpenApiError {
    /// The message a user sees for this error.
    pub fn message(&self) -> (out: String)
        ensures
            out@ == match self@ {
                OpenApiErrorView::Parse(m) => "Failed to parse OpenAPI JSON: "@ + m,
                OpenApiErrorView::MissingPaths => "OpenAPI JSON missing 'paths' object"@,
                OpenApiErrorView::InvalidPath(p) => "Invalid path definition for "@ + p,
                OpenApiErrorView::InvalidOperation { method, path } => "Invalid operation for "@
                    + method + " "@ + path,
                OpenApiErrorView::UnresolvedPlaceholders(t) => "unresolved path placeholders in "@
                    + spec_debug_str(t) + " (fill all path parameters)"@,
            },
    {
        match self {
            OpenApiError::Parse(m) => concat("Failed to parse OpenAPI JSON: ", m.as_str()),
            OpenApiError::MissingPaths => string_of("OpenAPI JSON missing 'paths' object"),
            OpenApiError::InvalidPath(p) => concat("Invalid path definition for ", p.as_str()),
            OpenApiError::InvalidOperation { method, path } => {
                let a = concat("Invalid operation for ", method.as_str());
                let b = concat(a.as_str(), " ");
                concat(b.as_str(), path.as_str())
            },
            OpenApiError::UnresolvedPlaceholders(t) => {
                let d = debug_str(t.as_str());
                let a = concat("unresolved path placeholders in ", d.as_str());
                concat(a.as_str(), " (fill all path parameters)")
            },
        }
    }
}

/// `info.version` of an OpenAPI document, if it has one; none when the document did not parse.
pub fn parse_openapi_info_version(doc: Option<&JsonValue>) -> (r: Option<String>)
    ensures
        opt_chars(r) == match doc {
            Some(d) => match json_get(*d, "info"@) {
                Some(i) => json_str(json_get(i, "version"@)),
                None => None,
            },
            None => None,
        },
{
    match doc {
        Some(d) => match d.get("info") {
            Some(i) => match i.get("version") {
                Some(v) => match v.as_str() {
                    Some(s) => Some(string_of(s.as_str())),
                    None => None,
                },
                None => None,
            },
            None => None,
        },
        None => None,
    }
}

/// `SYSTEM.VERSION` of a heartbeat reply: the server's RomM version.
pub fn heartbeat_rom_version(v: &JsonValue) -> (r: Option<String>)
    ensures
        opt_chars(r) == match json_get(*v, "SYSTEM"@) {
            Some(s) => json_str(json_get(s, "VERSION"@)),
            None => None,
        },
{
    match v.get("SYSTEM") {
        Some(s) => match s.get("VERSION") {
            Some(x) => match x.as_str() {
                Some(t) => Some(string_of(t.as_str())),
                None => None,
            },
            None => None,
        },
        None => None,
    }
}

/// Whether a freshly downloaded document must replace the cached one: when there is no cache
/// file, or the two `info.version`s differ.
pub fn openapi_cache_needs_write(
    cache_is_file: bool,
    local_version: &Option<String>,
    remote_version: &Option<String>,
) -> (b: bool)
    ensures
        b == (!cache_is_file || opt_chars(*local_version) != opt_chars(*remote_version)),
{
    if !cache_is_file {
        return true;
    }
    match (local_version, remote_version) {
        (Some(a), Some(b)) => !str_eq(a.as_str(), b.as_str()),
        (None, None) => false,
        _ => true,
    }
}

/// A document with a single path and a single operation gives one endpoint, whose summary is
/// the operation's `summary` string and whose description is its `description` string.
pub proof fn lemma_single_operation_summary_and_description(
    root: JsonValue,
    paths: Vec<(String, JsonValue)>,
    members: Vec<(String, JsonValue)>,
    op: JsonValue,
    s: Seq<char>,
    d: Seq<char>,
)
    requires
        json_get(root, "paths"@) == Some(JsonValue::Object(paths)),
        paths@.len() == 1,
        paths@[0].1 == JsonValue::Object(members),
        members@.len() == 1,
        members@[0].1 == op,
        is_operation_method(members@[0].0@),
        op is Object,
        json_get(op, "summary"@) matches Some(JsonValue::Str(t)) && t@ == s,
        json_get(op, "description"@) matches Some(JsonValue::Str(t)) && t@ == d,
    ensures
        registry_endpoints(root) matches Ok(eps) && eps.len() == 1 && eps[0].path == paths@[0].0@
            && eps[0].method == method_name(members@[0].0@) && eps[0].summary == Some(s)
            && eps[0].description == Some(d),
{
    let ps = paths@;
    let path = ps[0].0@;
    let key = members@[0].0@;
    let item = ps[0].1;
    let ms = members@;
    assert(ps.drop_last() =~= Seq::<(String, JsonValue)>::empty());
    assert(ms.drop_last() =~= Seq::<(String, JsonValue)>::empty());
    let lvl = json_items(json_get(item, "parameters"@));
    let pq = params_at(lvl, "query"@);
    let pp = params_at(lvl, "path"@);
    let e = endpoint_view_of(path, key, op, pq, pp);
    assert(operations_of(path, ms.drop_last(), pq, pp) == Ok::<Seq<ApiEndpointView>, OpenApiErrorView>(Seq::empty()));
    assert(operations_of(path, ms, pq, pp) == Ok::<Seq<ApiEndpointView>, OpenApiErrorView>(Seq::empty().push(e)));
    assert(paths_endpoints(ps.drop_last()) == Ok::<Seq<ApiEndpointView>, OpenApiErrorView>(Seq::empty()));
    assert(Seq::<ApiEndpointView>::empty() + Seq::empty().push(e) =~= seq![e]);
    assert(paths_endpoints(ps) == Ok::<Seq<ApiEndpointView>, OpenApiErrorView>(seq![e]));
    assert(seq![e].drop_last() =~= Seq::<ApiEndpointView>::empty());
    assert(sort_endpoints(seq![e].drop_last()) == Seq::<ApiEndpointView>::empty());
    assert(insert_sorted(Seq::<ApiEndpointView>::empty(), e) == Seq::<ApiEndpointView>::empty().push(e));
    assert(sort_endpoints(seq![e]) =~= seq![e]);
}

/// Member `b` of path item `a` of `ps`, when item `a` is an object with that many members.
pub open spec fn path_member(ps: Seq<(String, JsonValue)>, a: int, b: int) -> Option<(String, JsonValue)> {
    if 0 <= a < ps.len() {
        match ps[a].1 {
            JsonValue::Object(ms) => if 0 <= b < ms@.len() {
                Some(ms@[b])
            } else {
                None
            },
            _ => None,
        }
    } else {
        None
    }
}

/// `x` is read from operation member `m` of the path `path`: same path, the member's method,
/// and the operation's `summary` and `description` strings.
pub open spec fn read_from_operation(x: ApiEndpointView, path: Seq<char>, m: (String, JsonValue)) -> bool {
    &&& is_operation_method(m.0@)
    &&& x.path == path
    &&& x.method == method_name(m.0@)
    &&& x.summary == json_str(json_get(m.1, "summary"@))
    &&& x.description == json_str(json_get(m.1, "description"@))
}

proof fn lemma_operations_read(
    path: Seq<char>,
    es: Seq<(String, JsonValue)>,
    pq: Seq<ApiParameterView>,
    pp: Seq<ApiParameterView>,
    r: Seq<ApiEndpointView>,
    j: int,
)
    requires
        operations_of(path, es, pq, pp) == Ok::<Seq<ApiEndpointView>, OpenApiErrorView>(r),
        0 <= j < r.len(),
    ensures
        exists|b: int| 0 <= b < es.len() && read_from_operation(r[j], path, #[trigger] es[b]),
    decreases es.len(),
{
    let init = es.drop_last();
    match operations_of(path, init, pq, pp) {
        Ok(r0) => {
            if j < r0.len() {
                if r0.len() == r.len() {
                    lemma_operations_read(path, init, pq, pp, r0, j);
                } else {
                    assert(r == r0.push(endpoint_view_of(path, es.last().0@, es.last().1, pq, pp)));
                    assert(r[j] == r0[j]);
                    lemma_operations_read(path, init, pq, pp, r0, j);
                }
                let b = choose|b: int| 0 <= b < init.len() && read_from_operation(r0[j], path, #[trigger] init[b]);
                assert(es[b] == init[b]);
            } else {
                assert(read_from_operation(r[j], path, es[es.len() - 1]));
            }
        },
        Err(_) => {},
    }
}

proof fn lemma_paths_read(ps: Seq<(String, JsonValue)>, r: Seq<ApiEndpointView>, j: int)
    requires
        paths_endpoints(ps) == Ok::<Seq<ApiEndpointView>, OpenApiErrorView>(r),
        0 <= j < r.len(),
    ensures
        exists|a: int, b: int|
            #[trigger] path_member(ps, a, b) matches Some(m) && read_from_operation(r[j], ps[a].0@, m),
    decreases ps.len(),
{
    let init = ps.drop_last();
    match paths_endpoints(init) {
        Ok(r0) => {
            let path = ps.last().0@;
            let item = ps.last().1;
            match item {
                JsonValue::Object(es) => {
                    let lvl = json_items(json_get(item, "parameters"@));
                    let pq = params_at(lvl, "query"@);
                    let pp = params_at(lvl, "path"@);
                    match operations_of(path, es@, pq, pp) {
                        Ok(x) => {
                            assert(r == r0 + x);
                            if j < r0.len() {
                                assert(r[j] == r0[j]);
                                lemma_paths_read(init, r0, j);
                                let (a, b) = choose|a: int, b: int|
                                    #[trigger] path_member(init, a, b) matches Some(m)
                                        && read_from_operation(r0[j], init[a].0@, m);
                                assert(path_member(ps, a, b) == path_member(init, a, b));
                            } else {
                                assert(r[j] == x[j - r0.len()]);
                                lemma_operations_read(path, es@, pq, pp, x, j - r0.len());
                                let b = choose|b: int|
                                    0 <= b < es@.len() && read_from_operation(x[j - r0.len()], path, #[trigger] es@[b]);
                                let a = ps.len() - 1;
                                assert(path_member(ps, a, b) == Some(es@[b]));
                            }
                        },
                        Err(_) => {},
                    }
                },
                _ => {},
            }
        },
        Err(_) => {},
    }
}

proof fn lemma_insert_sorted_contains(s: Seq<ApiEndpointView>, x: ApiEndpointView, y: ApiEndpointView)
    ensures
        insert_sorted(s, x).contains(y) <==> (s.contains(y) || y == x),
    decreases s.len(),
{
    crate::path_picker::lemma_push_contains(s, x, y);
    if s.len() > 0 && !ep_le(s.last(), x) {
        let init = s.drop_last();
        lemma_insert_sorted_contains(init, x, y);
        crate::path_picker::lemma_push_contains(insert_sorted(init, x), s.last(), y);
        crate::path_picker::lemma_push_contains(init, s.last(), y);
        assert(init.push(s.last()) =~= s);
    }
}

proof fn lemma_sort_endpoints_contains(s: Seq<ApiEndpointView>, y: ApiEndpointView)
    ensures
        sort_endpoints(s).contains(y) <==> s.contains(y),
    decreases s.len(),
{
    if s.len() > 0 {
        let init = s.drop_last();
        lemma_sort_endpoints_contains(init, y);
        lemma_insert_sorted_contains(sort_endpoints(init), s.last(), y);
        crate::path_picker::lemma_push_contains(init, s.last(), y);
        assert(init.push(s.last()) =~= s);
    }
}

/// Every endpoint of a registry read from a document comes from one operation of one of its
/// path items: it has that item's path, the operation's method, and the operation's own
/// `summary` and `description` strings.
pub proof fn lemma_registry_endpoints_read_their_operation(
    root: JsonValue,
    paths: Vec<(String, JsonValue)>,
    eps: Seq<ApiEndpointView>,
    i: int,
)
    requires
        json_get(root, "paths"@) == Some(JsonValue::Object(paths)),
        registry_endpoints(root) == Ok::<Seq<ApiEndpointView>, OpenApiErrorView>(eps),
        0 <= i < eps.len(),
    ensures
        exists|a: int, b: int|
            #[trigger] path_member(paths@, a, b) matches Some(m) && read_from_operation(
                eps[i],
                paths@[a].0@,
                m,
            ),
{
    match paths_endpoints(paths@) {
        Ok(r) => {
            assert(eps == sort_endpoints(r));
            assert(eps.contains(eps[i]));
            lemma_sort_endpoints_contains(r, eps[i]);
            let j = choose|j: int| 0 <= j < r.len() && r[j] == eps[i];
            lemma_paths_read(paths@, r, j);
        },
        Err(_) => {},
    }
}

} // verus!
