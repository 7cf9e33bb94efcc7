//! The method dispatcher: method names to operations, and the argument checks of
//! `tools/call` and `resources/read`.

use vstd::prelude::*;
use crate::catalog::{read_table_resource, scan_query, table_of_uri};
use crate::error::{ErrorKind, GatewayError};
use crate::guard::{enforce, is_mutating, write_refusal};
use crate::text::{owned, same_text};

verus! {

/// The operations a caller can name.
#[derive(Clone, Copy, Debug, PartialEq, Eq, Structural)]
pub enum Method {
    Initialize,
    ToolsList,
    ToolsCall,
    ResourcesList,
    ResourcesRead,
}

/// The operation that a method name selects.
pub open spec fn method_of(name: Seq<char>) -> Option<Method> {
    if name == "initialize"@ {
        Some(Method::Initialize)
    } else if name == "tools/list"@ {
        Some(Method::ToolsList)
    } else if name == "tools/call"@ {
        Some(Method::ToolsCall)
    } else if name == "resources/list"@ {
        Some(Method::ResourcesList)
    } else if name == "resources/read"@ {
        Some(Method::ResourcesRead)
    } else {
        None
    }
}

/// The operation needs the store; `initialize` and `tools/list` answer from
/// static data.
pub open spec fn uses_store(m: Method) -> bool {
    !(m is Initialize || m is ToolsList)
}

/// What a result reports: the text on success, the error's kind and message
/// otherwise.
pub open spec fn reported(r: Result<String, GatewayError>) -> Result<
    Seq<char>,
    (ErrorKind, Seq<char>),
> {
    match r {
        Ok(s) => Ok(s@),
        Err(e) => Err((e.kind, e.message@)),
    }
}

/// The characters of an optional text.
pub open spec fn text_of(o: Option<&str>) -> Option<Seq<char>> {
    match o {
        Some(s) => Some(s@),
        None => None,
    }
}

/// How a `tools/call` with tool name `name` and argument `sql` ends before the
/// store is reached: the statement to run, or the kind and message of the error.
pub open spec fn tool_call_outcome(
    name: Option<Seq<char>>,
    sql: Option<Seq<char>>,
    allow_write: bool,
) -> Result<Seq<char>, (ErrorKind, Seq<char>)> {
    match name {
        None => Err((ErrorKind::InvalidParams, "Missing tool name"@)),
        Some(n) => if n != "query"@ {
            Err((ErrorKind::InvalidParams, "Unknown tool: "@ + n))
        } else {
            match sql {
                None => Err((ErrorKind::InvalidParams, "Missing 'sql' parameter"@)),
                Some(q) => if is_mutating(q) && !allow_write {
                    Err((ErrorKind::PolicyViolation, write_refusal()))
                } else {
                    Ok(q)
                },
            }
        },
    }
}

/// What `serde_json::Value::get` finds under a text key.
pub uninterp spec fn member_of(v: serde_json::Value, key: Seq<char>) -> Option<serde_json::Value>;

/// What `serde_json::Value::as_str` gives for a value.
pub uninterp spec fn string_of(v: serde_json::Value) -> Option<Seq<char>>;

/// The text under `key` of a JSON value, when there is a string there.
pub open spec fn text_at(v: serde_json::Value, key: Seq<char>) -> Option<Seq<char>> {
    match member_of(v, key) {
        Some(m) => string_of(m),
        None => None,
    }
}

/// The `sql` text inside the `arguments` member of tool-call parameters.
pub open spec fn sql_at(params: serde_json::Value) -> Option<Seq<char>> {
    match member_of(params, "arguments"@) {
        Some(a) => text_at(a, "sql"@),
        None => None,
    }
}

/// How a `resources/read` with parameters `params` ends before the store is
/// reached: the identity and its scan query, or the kind and message of the error.
pub open spec fn resource_read_outcome(params: Option<serde_json::Value>) -> Result<
    (Seq<char>, Seq<char>),
    (ErrorKind, Seq<char>),
> {
    match params {
        None => Err((ErrorKind::InvalidParams, "Missing parameters"@)),
        Some(p) => match text_at(p, "uri"@) {
            None => Err((ErrorKind::InvalidParams, "Missing URI"@)),
            Some(u) => match table_of_uri(u) {
                Some(t) => Ok((u, scan_query(t))),
                None => Err((ErrorKind::InvalidParams, "Invalid table URI: "@ + u)),
            },
        },
    }
}

/// Selects the operation for a method name.
pub fn route(method: &str) -> (r: Result<Method, GatewayError>)
    ensures
        r is Ok <==> method_of(method@) is Some,
        r is Ok ==> r->Ok_0 == method_of(method@)->0,
        r is Err ==> r->Err_0.kind == ErrorKind::MethodNotFound && r->Err_0.message@
            == "Method not found: "@ + method@,
{
    if same_text(method, "initialize") {
        Ok(Method::Initialize)
    } else if same_text(method, "tools/list") {
        Ok(Method::ToolsList)
    } else if same_text(method, "tools/call") {
        Ok(Method::ToolsCall)
    } else if same_text(method, "resources/list") {
        Ok(Method::ResourcesList)
    } else if same_text(method, "resources/read") {
        Ok(Method::ResourcesRead)
    } else {
        let mut message = owned("Method not found: ");
        message.append(method);
        Err(GatewayError::new(ErrorKind::MethodNotFound, message))
    }
}

impl Method {
    /// Whether the operation needs a connection to the store.
    pub fn needs_connection(&self) -> (r: bool)
        ensures
            r == uses_store(*self),
    {
        match self {
            Method::Initialize | Method::ToolsList => false,
            _ => true,
        }
    }
}

fn invalid_params(message: &str) -> (r: GatewayError)
    ensures
        r.kind == ErrorKind::InvalidParams,
        r.message@ == message@,
{
    GatewayError::new(ErrorKind::InvalidParams, owned(message))
}

/// Checks a tool call's name and `sql` argument and applies the write guard.
pub fn check_tool_call(name: Option<&str>, sql: Option<&str>, allow_write: bool) -> (r: Result<
    String,
    GatewayError,
>)
    ensures
        reported(r) == tool_call_outcome(text_of(name), text_of(sql), allow_write),
{
    let n = match name {
        Some(n) => n,
        None => {
            return Err(invalid_params("Missing tool name"));
        },
    };
    if !same_text(n, "query") {
        let mut message = owned("Unknown tool: ");
        message.append(n);
        return Err(GatewayError::new(ErrorKind::InvalidParams, message));
    }
    let q = match sql {
        Some(q) => q,
        None => {
            return Err(invalid_params("Missing 'sql' parameter"));
        },
    };
    match enforce(q, allow_write) {
        Ok(()) => Ok(owned(q)),
        Err(e) => Err(e),
    }
}

/// Relies on `serde_json::Value::get` with a text key: the member under that key
/// when the value is an object that has one, `None` otherwise; a function of the
/// value and the key.
#[verifier::external_body]
fn member<'a>(v: &'a serde_json::Value, key: &str) -> (r: Option<&'a serde_json::Value>)
    ensures
        match r {
            Some(m) => member_of(*v, key@) == Some(*m),
            None => member_of(*v, key@) is None,
        },
{
    v.get(key)
}

/// Relies on `serde_json::Value::as_str`: the text of a JSON string, `None` for
/// any other value; a function of the value.
#[verifier::external_body]
fn string_value(v: &serde_json::Value) -> (r: Option<&str>)
    ensures
        text_of(r) == string_of(*v),
{
    v.as_str()
}

/// The text under `key` of an object, when it is there and is a string.
fn string_member<'a>(v: &'a serde_json::Value, key: &str) -> (r: Option<&'a str>)
    ensures
        text_of(r) == text_at(*v, key@),
{
    match member(v, key) {
        Some(m) => string_value(m),
        None => None,
    }
}

/// Reads `name` and `arguments.sql` from the parameters of a `tools/call` and
/// checks them; missing parameters are an invalid-parameters error.
pub fn tool_call_request(params: Option<&serde_json::Value>, allow_write: bool) -> (r: Result<
    String,
    GatewayError,
>)
    ensures
        params is None ==> reported(r) == Err::<Seq<char>, (ErrorKind, Seq<char>)>(
            (ErrorKind::InvalidParams, "Missing parameters"@),
        ),
        params is Some ==> reported(r) == tool_call_outcome(
            text_at(*params->0, "name"@),
            sql_at(*params->0),
            allow_write,
        ),
{
    match params {
        None => Err(invalid_params("Missing parameters")),
        Some(p) => {
            let name = string_member(p, "name");
            let sql = match member(p, "arguments") {
                Some(a) => string_member(a, "sql"),
                None => None,
            };
            check_tool_call(name, sql, allow_write)
        },
    }
}

/// What a resource read reports: the identity and query on success, the error's
/// kind and message otherwise.
pub open spec fn reported_read(r: Result<(String, String), GatewayError>) -> Result<
    (Seq<char>, Seq<char>),
    (ErrorKind, Seq<char>),
> {
    match r {
        Ok(x) => Ok((x.0@, x.1@)),
        Err(e) => Err((e.kind, e.message@)),
    }
}

/// The parameters as a value, when they are there.
pub open spec fn given(params: Option<&serde_json::Value>) -> Option<serde_json::Value> {
    match params {
        Some(p) => Some(*p),
        None => None,
    }
}

/// Reads `uri` from the parameters of a `resources/read` and resolves it to the
/// identity and the scan query of its table.
pub fn resource_read_request(params: Option<&serde_json::Value>) -> (r: Result<
    (String, String),
    GatewayError,
>)
    ensures
        reported_read(r) == resource_read_outcome(given(params)),
{
    let p = match params {
        Some(p) => p,
        None => {
            return Err(invalid_params("Missing parameters"));
        },
    };
    let uri = match string_member(p, "uri") {
        Some(u) => u,
        None => {
            return Err(invalid_params("Missing URI"));
        },
    };
    match read_table_resource(uri) {
        Ok(query) => Ok((owned(uri), query)),
        Err(e) => Err(e),
    }
}

/// Tool-level and method-level errors stay apart: `tools/call` is a known method,
/// and a call that names any tool other than `query` fails with invalid
/// parameters, whatever its arguments.
pub proof fn lemma_unknown_tool_is_invalid_params(
    name: Seq<char>,
    sql: Option<Seq<char>>,
    allow_write: bool,
)
    requires
        name != "query"@,
    ensures
        method_of("tools/call"@) == Some(Method::ToolsCall),
        tool_call_outcome(Some(name), sql, allow_write) == Err::<
            Seq<char>,
            (ErrorKind, Seq<char>),
        >((ErrorKind::InvalidParams, "Unknown tool: "@ + name)),
{
    reveal_strlit("initialize");
    reveal_strlit("tools/list");
    reveal_strlit("tools/call");
    assert("tools/call"@ != "initialize"@) by {
        assert("tools/call"@[0] != "initialize"@[0]);
    }
    assert("tools/call"@ != "tools/list"@) by {
        assert("tools/call"@[6] != "tools/list"@[6]);
    }
}

} // verus!
