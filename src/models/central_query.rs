//! The logical query that both inbound protocols produce.
use crate::json::{
    field, find_field, json_node, object_entries, read_str_member, str_member, JsonNodeView,
    JsonNode, unfold,
};
use crate::models::query::{default_request, default_request_for, QueryRequest, QueryRequestView};
use crate::models::query_wire::{encodes_request, lemma_request_round_trip, request_of};
use crate::models::rag_mcp::{LlmQueryRequest, LlmQueryRequestView};
use serde_json::Value;
use vstd::prelude::*;

verus! {

/// A query addressed to a backend by name.
#[derive(Debug, PartialEq, Eq)]
pub struct CentralQuery {
    pub rag_name: String,
    pub query: QueryRequest,
}

/// A logical query, as a value.
pub struct CentralQueryView {
    pub rag_name: Seq<char>,
    pub query: QueryRequestView,
}

impl View for CentralQuery {
    type V = CentralQueryView;

    open spec fn view(&self) -> CentralQueryView {
        CentralQueryView { rag_name: self.rag_name@, query: self.query@ }
    }
}

/// The query that the `query` member of a payload gives: a bare text stands for
/// the default query with that text; an object is read as a whole query.
pub open spec fn query_input_of(v: Value) -> Option<QueryRequestView> {
    match json_node(v) {
        JsonNodeView::Str(s) => Some(default_request_for(s)),
        JsonNodeView::Object(_) => request_of(v),
        _ => None,
    }
}

/// The logical query that a payload describes: an object with a text
/// `rag_name` and a `query` that is a text or a query object.
pub open spec fn central_query_of(v: Value) -> Option<CentralQueryView> {
    match json_node(v) {
        JsonNodeView::Object(m) => match (str_member(m, "rag_name"@), field(m, "query"@)) {
            (Some(rag_name), Some(q)) => match query_input_of(q) {
                Some(query) => Some(CentralQueryView { rag_name, query }),
                None => None,
            },
            _ => None,
        },
        _ => None,
    }
}

/// A bare text in the `query` member reads as the same query as the default
/// query object with that text.
pub proof fn lemma_shorthand_query(short: Value, full: Value, text: Seq<char>)
    requires
        json_node(short) == JsonNodeView::Str(text),
        encodes_request(full, default_request_for(text)),
    ensures
        query_input_of(short) == Some(default_request_for(text)),
        query_input_of(full) == query_input_of(short),
{
    lemma_request_round_trip(full, default_request_for(text));
}

/// The query that the `query` member of a payload gives.
fn read_query_input(v: &Value) -> (r: Option<QueryRequest>)
    ensures
        r matches Some(q) ==> query_input_of(*v) == Some(q@),
        r is None ==> query_input_of(*v) is None,
{
    match unfold(v) {
        JsonNode::Str(s) => Some(QueryRequest::new().with_query(s)),
        JsonNode::Object(_) => QueryRequest::from_json(v),
        _ => None,
    }
}

/// The logical query that the tool request `q` stands for: its text on the
/// default query, with its mode where it gives one, and its prompt and turns.
pub open spec fn central_query_for(q: LlmQueryRequestView) -> CentralQueryView {
    CentralQueryView {
        rag_name: q.rag_name,
        query: QueryRequestView {
            query: q.query,
            mode: match q.mode {
                Some(m) => m,
                None => default_request().mode,
            },
            user_prompt: q.user_prompt,
            conversation_history: q.history,
            ..default_request()
        },
    }
}

impl CentralQuery {
    /// The logical query that a payload describes, or `None` where it does not
    /// have the shape of one.
    pub fn from_json(v: &Value) -> (r: Option<CentralQuery>)
        ensures
            r matches Some(c) ==> central_query_of(*v) == Some(c@),
            r is None ==> central_query_of(*v) is None,
    {
        let es = match object_entries(v) {
            Some(es) => es,
            None => return None,
        };
        let ghost m = json_node(*v)->Object_0;
        let rag_name = match read_str_member(&es, "rag_name", Ghost(m)) {
            Some(n) => n,
            None => return None,
        };
        let q = match find_field(&es, "query", Ghost(m)) {
            Some(q) => q,
            None => return None,
        };
        match read_query_input(q) {
            Some(query) => Some(CentralQuery { rag_name, query }),
            None => None,
        }
    }

    /// The logical query for a tool request. A missing mode keeps the default;
    /// every field the request does not carry takes its default. This never
    /// fails.
    pub fn from_llm_query_request(query: &LlmQueryRequest) -> (r: Result<Self, String>)
        ensures
            r matches Ok(c) && c@ == central_query_for(query@),
    {
        let mut query_request = QueryRequest::new().with_query(query.query.clone());
        if let Some(mode) = query.mode {
            query_request = query_request.with_mode(mode);
        }
        let user_prompt = match &query.user_prompt {
            Some(p) => Some(p.clone()),
            None => None,
        };
        let history = match &query.history {
            Some(h) => Some(crate::models::query::clone_history(h)),
            None => None,
        };
        query_request = query_request.with_user_prompt(user_prompt).with_conversation_history(
            history,
        );
        Ok(CentralQuery { rag_name: query.rag_name.clone(), query: query_request })
    }
}

} // verus!
