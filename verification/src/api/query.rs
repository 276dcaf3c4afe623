//! The records of the query API and their JSON form.

use super::client::{
    is_success, ApiCall, ApiCallView, ApiReply, HttpMethod, PostHogAPIClient,
};
use super::json::{
    as_object, as_text, clone_value, is_null, json_of, members_of, new_object, null_value,
    object_get, object_insert, object_value, parse, parsed, text_value, Json,
};
use super::PostHogApiError;
use serde_json::Value;
use vstd::prelude::*;

verus! {

/// The text that an optional string holds, if it holds one.
pub open spec fn text_of(field: Option<String>) -> Option<Seq<char>> {
    match field {
        Some(text) => Some(text@),
        None => None,
    }
}

/// The document that an optional value holds, if it holds one.
pub open spec fn document_of(field: Option<Value>) -> Option<Json> {
    match field {
        Some(value) => Some(json_of(value)),
        None => None,
    }
}

/// How a record reads an optional string member of an object: a missing
/// member and `null` both stand for "not set", a string for itself, and any
/// other document is malformed (the outer `None`).
pub open spec fn optional_text(members: Map<Seq<char>, Json>, key: Seq<char>) -> Option<
    Option<Seq<char>>,
> {
    if !members.contains_key(key) {
        Some(None)
    } else {
        match members[key] {
            Json::Null => Some(None),
            Json::Text(text) => Some(Some(text)),
            _ => None,
        }
    }
}

/// How a record reads an optional member that may be any document: a missing
/// member and `null` both stand for "not set".
pub open spec fn optional_document(members: Map<Seq<char>, Json>, key: Seq<char>) -> Option<Json> {
    if members.contains_key(key) && !(members[key] is Null) {
        Some(members[key])
    } else {
        None
    }
}

/// Reads an optional string member as `optional_text` describes it.
fn read_optional_text(object: &serde_json::Map<String, Value>, key: &str) -> (field: Result<
    Option<String>,
    PostHogApiError,
>)
    ensures
        match optional_text(members_of(*object), key@) {
            Some(text) => field is Ok && text_of(field->Ok_0) == text,
            None => field is Err && field->Err_0 == PostHogApiError::Decode,
        },
{
    match object_get(object, key) {
        None => Ok(None),
        Some(member) => {
            if is_null(member) {
                Ok(None)
            } else {
                match as_text(member) {
                    Some(text) => Ok(Some(String::from_str(text))),
                    None => Err(PostHogApiError::Decode),
                }
            }
        },
    }
}

/// Reads an optional member as `optional_document` describes it.
fn read_optional_document(object: &serde_json::Map<String, Value>, key: &str) -> (field: Option<
    Value,
>)
    ensures
        document_of(field) == optional_document(members_of(*object), key@),
{
    match object_get(object, key) {
        None => None,
        Some(member) => {
            if is_null(member) {
                None
            } else {
                Some(clone_value(member))
            }
        },
    }
}

/// A query to run: the payload, whose shape only the service judges, and
/// three optional modifiers.
#[derive(Debug)]
pub struct QueryRequest {
    pub query: Value,
    pub async_: Option<String>,
    pub filters_override: Option<Value>,
    pub refresh: Option<String>,
}

/// What a `QueryRequest` holds, as mathematical values.
pub struct QueryRequestView {
    pub query: Json,
    pub async_: Option<Seq<char>>,
    pub filters_override: Option<Json>,
    pub refresh: Option<Seq<char>>,
}

impl View for QueryRequest {
    type V = QueryRequestView;

    open spec fn view(&self) -> QueryRequestView {
        QueryRequestView {
            query: json_of(self.query),
            async_: text_of(self.async_),
            filters_override: document_of(self.filters_override),
            refresh: text_of(self.refresh),
        }
    }
}

impl QueryRequestView {
    /// The members of the request's JSON form: `query` always, and each
    /// modifier under its field's name if and only if it is set.
    pub open spec fn members(self) -> Map<Seq<char>, Json> {
        Map::new(
            |key: Seq<char>|
                key == "query"@ || (key == "async_"@ && self.async_ is Some) || (key
                    == "filters_override"@ && self.filters_override is Some) || (key == "refresh"@
                    && self.refresh is Some),
            |key: Seq<char>|
                if key == "query"@ {
                    self.query
                } else if key == "async_"@ {
                    Json::Text(self.async_.unwrap())
                } else if key == "filters_override"@ {
                    self.filters_override.unwrap()
                } else {
                    Json::Text(self.refresh.unwrap())
                },
        )
    }

    /// The request's JSON form: an object of its members.
    pub open spec fn to_json(self) -> Json {
        Json::Object(self.members())
    }

    /// The request that a document stands for, if it stands for one: an
    /// object with a `query` member, whose modifiers, where present, have
    /// the right type. Members of other names are passed over.
    pub open spec fn from_json(document: Json) -> Option<QueryRequestView> {
        match document {
            Json::Object(members) => {
                if members.contains_key("query"@) && optional_text(members, "async_"@) is Some
                    && optional_text(members, "refresh"@) is Some {
                    Some(
                        QueryRequestView {
                            query: members["query"@],
                            async_: optional_text(members, "async_"@).unwrap(),
                            filters_override: optional_document(members, "filters_override"@),
                            refresh: optional_text(members, "refresh"@).unwrap(),
                        },
                    )
                } else {
                    None
                }
            },
            _ => None,
        }
    }
}

/// The names of a request's members differ from one another.
proof fn lemma_request_keys_differ()
    ensures
        "query"@ != "async_"@,
        "query"@ != "filters_override"@,
        "query"@ != "refresh"@,
        "async_"@ != "filters_override"@,
        "async_"@ != "refresh"@,
        "filters_override"@ != "refresh"@,
{
    reveal_strlit("query");
    reveal_strlit("async_");
    reveal_strlit("filters_override");
    reveal_strlit("refresh");
    assert("query"@.len() == 5);
    assert("async_"@.len() == 6);
    assert("filters_override"@.len() == 16);
    assert("refresh"@.len() == 7);
}

/// A modifier that is not set leaves no trace in the request's JSON form:
/// its name is a member if and only if it is set, so nothing stands in for
/// an absent value. A request with no modifier set is the object whose one
/// member is `query`.
pub proof fn lemma_unset_modifiers_are_omitted(request: QueryRequestView)
    ensures
        request.members().contains_key("query"@),
        request.members().contains_key("async_"@) <==> request.async_ is Some,
        request.members().contains_key("filters_override"@) <==> request.filters_override is Some,
        request.members().contains_key("refresh"@) <==> request.refresh is Some,
        request.async_ is None && request.filters_override is None && request.refresh is None
            ==> request.to_json() == Json::Object(map!["query"@ => request.query]),
{
    lemma_request_keys_differ();
    if request.async_ is None && request.filters_override is None && request.refresh is None {
        assert(request.members() =~= map!["query"@ => request.query]);
    }
}

/// Reading back the JSON form of a request gives the request: the payload
/// and the two string modifiers as they were, and the filters as they were
/// unless they were set to `null`, which reads back as not set.
pub proof fn lemma_request_round_trip(request: QueryRequestView)
    ensures
        QueryRequestView::from_json(request.to_json()) == Some(
            QueryRequestView {
                filters_override: if request.filters_override == Some(Json::Null) {
                    None
                } else {
                    request.filters_override
                },
                ..request
            },
        ),
{
    lemma_request_keys_differ();
}

impl Default for QueryRequest {
    /// The request with a `null` payload and no modifier set.
    fn default() -> (request: QueryRequest)
        ensures
            request@ == (QueryRequestView {
                query: Json::Null,
                async_: None,
                filters_override: None,
                refresh: None,
            }),
    {
        QueryRequest { query: null_value(), async_: None, filters_override: None, refresh: None }
    }
}

impl QueryRequest {
    /// Replaces the payload and keeps the modifiers.
    pub fn with_query(self, query: Value) -> (request: QueryRequest)
        ensures
            request.query == query,
            request.async_ == self.async_,
            request.filters_override == self.filters_override,
            request.refresh == self.refresh,
    {
        let mut request = self;
        request.query = query;
        request
    }

    /// The request as a JSON document: the body that the service is sent.
    pub fn to_json(&self) -> (value: Value)
        ensures
            json_of(value) == self@.to_json(),
    {
        let mut object = new_object();
        object_insert(&mut object, String::from_str("query"), clone_value(&self.query));
        match &self.async_ {
            Some(text) => {
                object_insert(&mut object, String::from_str("async_"), text_value(text.clone()));
            },
            None => {},
        }
        match &self.filters_override {
            Some(filters) => {
                object_insert(
                    &mut object,
                    String::from_str("filters_override"),
                    clone_value(filters),
                );
            },
            None => {},
        }
        match &self.refresh {
            Some(text) => {
                object_insert(&mut object, String::from_str("refresh"), text_value(text.clone()));
            },
            None => {},
        }
        proof {
            lemma_request_keys_differ();
            assert(members_of(object) =~= self@.members());
        }
        object_value(object)
    }

    /// Reads a request back from a JSON document.
    pub fn from_json(value: &Value) -> (request: Result<QueryRequest, PostHogApiError>)
        ensures
            match QueryRequestView::from_json(json_of(*value)) {
                Some(view) => request is Ok && request->Ok_0@ == view,
                None => request is Err && request->Err_0 == PostHogApiError::Decode,
            },
    {
        let object = match as_object(value) {
            Some(object) => object,
            None => { return Err(PostHogApiError::Decode); },
        };
        let query = match object_get(object, "query") {
            Some(query) => clone_value(query),
            None => { return Err(PostHogApiError::Decode); },
        };
        let async_ = match read_optional_text(object, "async_") {
            Ok(text) => text,
            Err(error) => { return Err(error); },
        };
        let filters_override = read_optional_document(object, "filters_override");
        let refresh = match read_optional_text(object, "refresh") {
            Ok(text) => text,
            Err(error) => { return Err(error); },
        };
        Ok(QueryRequest { query, async_, filters_override, refresh })
    }
}

/// The result of a query, or of asking how one is doing: the results, whose
/// shape depends on the kind of query, the query's status, and the task
/// identifier that an asynchronous query goes by.
#[derive(Debug)]
pub struct QueryResponse {
    pub results: Value,
    pub query_status: Option<String>,
    pub task_id: Option<String>,
}

/// What a `QueryResponse` holds, as mathematical values.
pub struct QueryResponseView {
    pub results: Json,
    pub query_status: Option<Seq<char>>,
    pub task_id: Option<Seq<char>>,
}

impl View for QueryResponse {
    type V = QueryResponseView;

    open spec fn view(&self) -> QueryResponseView {
        QueryResponseView {
            results: json_of(self.results),
            query_status: text_of(self.query_status),
            task_id: text_of(self.task_id),
        }
    }
}

impl QueryResponseView {
    /// The response that a document stands for, if it stands for one: an
    /// object with a `results` member, whose `query_status` and `task_id`,
    /// where present, are strings or `null`. Members of other names are
    /// passed over.
    pub open spec fn from_json(document: Json) -> Option<QueryResponseView> {
        match document {
            Json::Object(members) => {
                if members.contains_key("results"@) && optional_text(members, "query_status"@)
                    is Some && optional_text(members, "task_id"@) is Some {
                    Some(
                        QueryResponseView {
                            results: members["results"@],
                            query_status: optional_text(members, "query_status"@).unwrap(),
                            task_id: optional_text(members, "task_id"@).unwrap(),
                        },
                    )
                } else {
                    None
                }
            },
            _ => None,
        }
    }

    /// The response that a text stands for: the text has to be a JSON
    /// document, and the document a response.
    pub open spec fn from_text(text: Seq<char>) -> Option<QueryResponseView> {
        match parsed(text) {
            Some(document) => QueryResponseView::from_json(document),
            None => None,
        }
    }

    /// What a reply to `query` or `get_query_status` amounts to: the failure
    /// of the exchange if it failed, else the response in the body, and
    /// `Decode` where the body holds none.
    pub open spec fn from_reply(reply: ApiReply) -> Result<QueryResponseView, PostHogApiError> {
        match reply.checked() {
            Err(error) => Err(error),
            Ok(body) => match QueryResponseView::from_text(body) {
                Some(response) => Ok(response),
                None => Err(PostHogApiError::Decode),
            },
        }
    }
}

impl QueryResponse {
    /// Reads a response from a JSON document.
    pub fn from_json(value: &Value) -> (response: Result<QueryResponse, PostHogApiError>)
        ensures
            match QueryResponseView::from_json(json_of(*value)) {
                Some(view) => response is Ok && response->Ok_0@ == view,
                None => response is Err && response->Err_0 == PostHogApiError::Decode,
            },
    {
        let object = match as_object(value) {
            Some(object) => object,
            None => { return Err(PostHogApiError::Decode); },
        };
        let results = match object_get(object, "results") {
            Some(results) => clone_value(results),
            None => { return Err(PostHogApiError::Decode); },
        };
        let query_status = match read_optional_text(object, "query_status") {
            Ok(text) => text,
            Err(error) => { return Err(error); },
        };
        let task_id = match read_optional_text(object, "task_id") {
            Ok(text) => text,
            Err(error) => { return Err(error); },
        };
        Ok(QueryResponse { results, query_status, task_id })
    }

    /// Reads a response from the text of a body.
    pub fn from_json_text(text: &str) -> (response: Result<QueryResponse, PostHogApiError>)
        ensures
            match QueryResponseView::from_text(text@) {
                Some(view) => response is Ok && response->Ok_0@ == view,
                None => response is Err && response->Err_0 == PostHogApiError::Decode,
            },
    {
        match parse(text) {
            Ok(value) => QueryResponse::from_json(&value),
            Err(_) => Err(PostHogApiError::Decode),
        }
    }

    /// Reads the reply to `query` or `get_query_status`.
    pub fn from_reply(reply: &ApiReply) -> (response: Result<QueryResponse, PostHogApiError>)
        ensures
            match QueryResponseView::from_reply(*reply) {
                Ok(view) => response is Ok && response->Ok_0@ == view,
                Err(error) => response is Err && response->Err_0 == error,
            },
    {
        match reply.body_on_success() {
            Ok(body) => QueryResponse::from_json_text(body),
            Err(error) => Err(error),
        }
    }
}

/// The path that queries of a project are sent to.
pub open spec fn query_endpoint(project_id: Seq<char>) -> Seq<char> {
    "/api/projects/"@ + project_id + "/query"@
}

/// The path of one query of a project.
pub open spec fn query_status_endpoint(project_id: Seq<char>, query_id: Seq<char>) -> Seq<char> {
    "/api/projects/"@ + project_id + "/query/"@ + query_id
}

/// The path that asks whether a project may run asynchronous queries.
pub open spec fn async_query_auth_endpoint(project_id: Seq<char>) -> Seq<char> {
    "/api/projects/"@ + project_id + "/query/check_auth_for_async"@
}

/// The call that runs a query: a POST to the project's query path with the
/// request's JSON form as its body.
pub open spec fn query_call(project_id: Seq<char>, request: QueryRequestView) -> ApiCallView {
    ApiCallView {
        method: HttpMethod::Post,
        endpoint: query_endpoint(project_id),
        body: Some(request.to_json()),
    }
}

/// The call that asks for the status or the result of a query: a GET of the
/// query's path, without a body.
pub open spec fn query_status_call(project_id: Seq<char>, query_id: Seq<char>) -> ApiCallView {
    ApiCallView {
        method: HttpMethod::Get,
        endpoint: query_status_endpoint(project_id, query_id),
        body: None,
    }
}

/// The call that cancels a query: a DELETE of the query's path, without a
/// body.
pub open spec fn cancel_query_call(project_id: Seq<char>, query_id: Seq<char>) -> ApiCallView {
    ApiCallView {
        method: HttpMethod::Delete,
        endpoint: query_status_endpoint(project_id, query_id),
        body: None,
    }
}

/// The call that checks whether the caller may run asynchronous queries in a
/// project: a POST without a body.
pub open spec fn async_query_auth_call(project_id: Seq<char>) -> ApiCallView {
    ApiCallView {
        method: HttpMethod::Post,
        endpoint: async_query_auth_endpoint(project_id),
        body: None,
    }
}

/// Asking how a submitted query is doing only reads. Where the response to a
/// submission names a task, the call that asks for that task is a GET of the
/// task's path without a body, and it is made of the two identifiers alone:
/// asking again, however often, plans the same call, and what a reply to it
/// amounts to depends on that reply alone.
pub proof fn lemma_status_poll_only_reads(project_id: Seq<char>, submitted: QueryResponseView)
    requires
        submitted.task_id is Some,
    ensures
        query_status_call(project_id, submitted.task_id.unwrap()).method == HttpMethod::Get,
        query_status_call(project_id, submitted.task_id.unwrap()).body is None,
        query_status_call(project_id, submitted.task_id.unwrap()).endpoint
            == "/api/projects/"@ + project_id + "/query/"@ + submitted.task_id.unwrap(),
{
}

/// Cancelling fails wherever the service does not answer with a success
/// status, and the failure carries that status: a query that the service does
/// not know is not cancelled in silence. (`ApiReply::no_content` reads the
/// reply to `cancel_query`; `acknowledged` is what it returns.)
pub proof fn lemma_refused_cancel_fails(reply: ApiReply)
    requires
        reply is Received,
        !is_success(reply->status),
    ensures
        reply.acknowledged() is Err,
        reply.acknowledged()->Err_0 == PostHogApiError::Status(reply->status),
{
}

/// Builds the path of one query of a project.
fn query_status_path(project_id: &str, query_id: &str) -> (path: String)
    ensures
        path@ == query_status_endpoint(project_id@, query_id@),
{
    String::from_str("/api/projects/").concat(project_id).concat("/query/").concat(query_id)
}

impl PostHogAPIClient {
    /// Plans the call that runs a query. `QueryResponse::from_reply` reads
    /// the reply.
    pub fn query(&self, project_id: &str, request: QueryRequest) -> (call: ApiCall)
        ensures
            call@ == query_call(project_id@, request@),
    {
        let endpoint = String::from_str("/api/projects/").concat(project_id).concat("/query");
        ApiCall { method: HttpMethod::Post, endpoint, body: Some(request.to_json()) }
    }

    /// Plans the call that asks for the status or the result of a query that
    /// was sent before. `QueryResponse::from_reply` reads the reply.
    pub fn get_query_status(&self, project_id: &str, query_id: &str) -> (call: ApiCall)
        ensures
            call@ == query_status_call(project_id@, query_id@),
    {
        ApiCall {
            method: HttpMethod::Get,
            endpoint: query_status_path(project_id, query_id),
            body: None,
        }
    }

    /// Plans the call that cancels a running query. `ApiReply::no_content`
    /// reads the reply.
    pub fn cancel_query(&self, project_id: &str, query_id: &str) -> (call: ApiCall)
        ensures
            call@ == cancel_query_call(project_id@, query_id@),
    {
        ApiCall {
            method: HttpMethod::Delete,
            endpoint: query_status_path(project_id, query_id),
            body: None,
        }
    }

    /// Plans the call that checks whether the caller may run asynchronous
    /// queries in a project. `ApiReply::no_content` reads the reply.
    pub fn check_async_query_auth(&self, project_id: &str) -> (call: ApiCall)
        ensures
            call@ == async_query_auth_call(project_id@),
    {
        let endpoint = String::from_str("/api/projects/").concat(project_id).concat(
            "/query/check_auth_for_async",
        );
        ApiCall { method: HttpMethod::Post, endpoint, body: None }
    }
}

} // verus!
