//! JSON-RPC requests and responses.

use vstd::prelude::*;

use crate::json::{array_value, object_value, text_value, unsigned_value, Json};

verus! {

/// A JSON-RPC request.
#[derive(Debug)]
pub struct JsonRpcRequest<'a, T> {
    pub jsonrpc: &'a str,
    pub method: &'a str,
    pub params: T,
    pub id: u64,
}

/// A JSON-RPC response.
#[derive(Debug)]
pub struct JsonRpcResponse<T> {
    pub jsonrpc: String,
    pub id: u64,
    pub result: Option<T>,
    pub error: Option<JsonRpcError>,
}

/// The error of a JSON-RPC response.
#[derive(Debug)]
pub struct JsonRpcError {
    pub code: i64,
    pub message: String,
    pub data: Option<serde_json::Value>,
}

/// A JSON-RPC request as JSON.
pub open spec fn request_json(
    jsonrpc: Seq<char>,
    method: Seq<char>,
    params: Json,
    id: u64,
) -> Json {
    Json::Object(
        map![
            "jsonrpc"@ => Json::Text(jsonrpc),
            "method"@ => Json::Text(method),
            "params"@ => params,
            "id"@ => Json::Unsigned(id),
        ],
    )
}

impl<'a, T> JsonRpcRequest<'a, T> {
    /// A request under version 2.0.
    pub fn new(method: &'a str, params: T, id: u64) -> (request: Self)
        ensures
            request.jsonrpc@ == "2.0"@,
            request.method == method,
            request.params == params,
            request.id == id,
    {
        JsonRpcRequest { jsonrpc: "2.0", method, params, id }
    }
}

impl<'a> JsonRpcRequest<'a, serde_json::Value> {
    /// The request as JSON.
    pub fn to_value(self) -> (value: serde_json::Value)
        ensures
            crate::json::content(value) == request_json(
                self.jsonrpc@,
                self.method@,
                crate::json::content(self.params),
                self.id,
            ),
    {
        let mut fields: Vec<(String, serde_json::Value)> = Vec::new();
        fields.push(("jsonrpc".to_owned(), text_value(self.jsonrpc.to_owned())));
        fields.push(("method".to_owned(), text_value(self.method.to_owned())));
        fields.push(("params".to_owned(), self.params));
        fields.push(("id".to_owned(), unsigned_value(self.id)));
        proof {
            lemma_names_differ();
            let f = fields@;
            assert(f[0].0@ == "jsonrpc"@ && f[1].0@ == "method"@);
            assert(f[2].0@ == "params"@ && f[3].0@ == "id"@);
            reveal_with_fuel(crate::json::members_of, 5);
            assert(f.drop_last() =~= seq![f[0], f[1], f[2]]);
            assert(f.drop_last().drop_last() =~= seq![f[0], f[1]]);
            assert(f.drop_last().drop_last().drop_last() =~= seq![f[0]]);
            assert(f.drop_last().drop_last().drop_last().drop_last() =~= seq![]);
            assert(crate::json::members_of(f) =~= request_json(
                self.jsonrpc@,
                self.method@,
                crate::json::content(self.params),
                self.id,
            )->Object_0);
        }
        object_value(fields)
    }
}

impl<'a> JsonRpcRequest<'a, (serde_json::Value,)> {
    /// The request, with its one parameter in a list, as JSON.
    pub fn to_list_value(self) -> (value: serde_json::Value)
        ensures
            crate::json::content(value) == request_json(
                self.jsonrpc@,
                self.method@,
                Json::Array(seq![crate::json::content(self.params.0)]),
                self.id,
            ),
    {
        let ghost only = crate::json::content(self.params.0);
        let mut list: Vec<serde_json::Value> = Vec::new();
        list.push(self.params.0);
        assert(crate::json::contents(list@) =~= seq![only]);
        let request = JsonRpcRequest {
            jsonrpc: self.jsonrpc,
            method: self.method,
            params: array_value(list),
            id: self.id,
        };
        request.to_value()
    }
}

/// The names of the members of a request are four different ones.
proof fn lemma_names_differ()
    ensures
        "jsonrpc"@ != "method"@,
        "jsonrpc"@ != "params"@,
        "jsonrpc"@ != "id"@,
        "method"@ != "params"@,
        "method"@ != "id"@,
        "params"@ != "id"@,
{
    reveal_strlit("jsonrpc");
    reveal_strlit("method");
    reveal_strlit("params");
    reveal_strlit("id");
    assert("jsonrpc"@.len() == 7 && "method"@.len() == 6 && "params"@.len() == 6 && "id"@.len()
        == 2);
    assert("method"@[0] == 'm' && "params"@[0] == 'p');
}

/// A request as JSON has a version, a method, parameters and a number, as they were given,
/// and nothing else.
pub proof fn law_request_has_its_members(
    jsonrpc: Seq<char>,
    method: Seq<char>,
    params: Json,
    id: u64,
)
    ensures
        ({
            let request = request_json(jsonrpc, method, params, id);
            &&& request is Object
            &&& forall|name: Seq<char>| #[trigger]
                request.has_member(name) <==> name == "jsonrpc"@ || name == "method"@ || name
                    == "params"@ || name == "id"@
            &&& request.member("jsonrpc"@) == Json::Text(jsonrpc)
            &&& request.member("method"@) == Json::Text(method)
            &&& request.member("params"@) == params
            &&& request.member("id"@) == Json::Unsigned(id)
        }),
{
    lemma_names_differ();
}

/// A request that is made and written as JSON carries version 2.0 and what it was made
/// with.
pub proof fn law_request_is_written_as_made(
    method: &str,
    params: serde_json::Value,
    id: u64,
    request: JsonRpcRequest<serde_json::Value>,
    written: serde_json::Value,
)
    requires
        call_ensures(JsonRpcRequest::<serde_json::Value>::new, (method, params, id), request),
        call_ensures(JsonRpcRequest::<serde_json::Value>::to_value, (request,), written),
    ensures
        ({
            let held = crate::json::content(written);
            &&& held is Object
            &&& forall|name: Seq<char>| #[trigger]
                held.has_member(name) <==> name == "jsonrpc"@ || name == "method"@ || name
                    == "params"@ || name == "id"@
            &&& held.member("jsonrpc"@) == Json::Text("2.0"@)
            &&& held.member("method"@) == Json::Text(method@)
            &&& held.member("params"@) == crate::json::content(params)
            &&& held.member("id"@) == Json::Unsigned(id)
        }),
{
    law_request_has_its_members("2.0"@, method@, crate::json::content(params), id);
}

/// A request of one parameter is written with that parameter in a list of its own.
pub proof fn law_one_parameter_is_listed(
    method: &str,
    param: serde_json::Value,
    id: u64,
    request: JsonRpcRequest<(serde_json::Value,)>,
    written: serde_json::Value,
)
    requires
        call_ensures(
            JsonRpcRequest::<(serde_json::Value,)>::new,
            (method, (param,), id),
            request,
        ),
        call_ensures(JsonRpcRequest::<(serde_json::Value,)>::to_list_value, (request,), written),
    ensures
        ({
            let held = crate::json::content(written);
            &&& held is Object
            &&& forall|name: Seq<char>| #[trigger]
                held.has_member(name) <==> name == "jsonrpc"@ || name == "method"@ || name
                    == "params"@ || name == "id"@
            &&& held.member("jsonrpc"@) == Json::Text("2.0"@)
            &&& held.member("method"@) == Json::Text(method@)
            &&& held.member("params"@) matches Json::Array(list) && list.len() == 1 && list[0]
                == crate::json::content(param)
            &&& held.member("id"@) == Json::Unsigned(id)
        }),
{
    law_request_has_its_members(
        "2.0"@,
        method@,
        Json::Array(seq![crate::json::content(param)]),
        id,
    );
}

} // verus!
