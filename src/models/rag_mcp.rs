//! The request that the tool protocol hands in.
use crate::json::{
    json_node, object_entries, opt_str_member, read_opt_str_member, read_str_member, str_member,
    JsonNodeView,
};
use crate::models::query::{
    opt_history_view, opt_str_view, ConversationHistory, ConversationHistoryView, QueryMode,
};
use crate::models::query_wire::{
    opt_history_member, opt_mode_member, read_opt_history_member, read_opt_mode_member,
};
use serde_json::Value;
use vstd::prelude::*;

verus! {

/// A query as a language-model client phrases it: a backend's name, the text,
/// and optionally a mode, an extra prompt and earlier turns.
#[derive(Debug, PartialEq, Eq)]
pub struct LlmQueryRequest {
    pub rag_name: String,
    pub query: String,
    pub mode: Option<QueryMode>,
    pub user_prompt: Option<String>,
    pub history: Option<Vec<ConversationHistory>>,
}

/// A tool request, as a value.
pub struct LlmQueryRequestView {
    pub rag_name: Seq<char>,
    pub query: Seq<char>,
    pub mode: Option<QueryMode>,
    pub user_prompt: Option<Seq<char>>,
    pub history: Option<Seq<ConversationHistoryView>>,
}

impl View for LlmQueryRequest {
    type V = LlmQueryRequestView;

    open spec fn view(&self) -> LlmQueryRequestView {
        LlmQueryRequestView {
            rag_name: self.rag_name@,
            query: self.query@,
            mode: self.mode,
            user_prompt: opt_str_view(self.user_prompt),
            history: opt_history_view(self.history),
        }
    }
}

/// The tool request that a document describes: an object with the texts
/// `rag_name` and `query`, and the optional `mode`, `user_prompt` and
/// `history`, which may be absent or `null`.
pub open spec fn llm_query_of(v: Value) -> Option<LlmQueryRequestView> {
    match json_node(v) {
        JsonNodeView::Object(m) => {
            let rag_name = str_member(m, "rag_name"@);
            let query = str_member(m, "query"@);
            let mode = opt_mode_member(m, "mode"@);
            let user_prompt = opt_str_member(m, "user_prompt"@);
            let history = opt_history_member(m, "history"@);
            if rag_name is Some && query is Some && mode is Some && user_prompt is Some
                && history is Some {
                Some(
                    LlmQueryRequestView {
                        rag_name: rag_name->0,
                        query: query->0,
                        mode: mode->0,
                        user_prompt: user_prompt->0,
                        history: history->0,
                    },
                )
            } else {
                None
            }
        },
        _ => None,
    }
}

impl LlmQueryRequest {
    /// The tool request that a document describes, or `None` where it does not
    /// have the shape of one.
    pub fn from_json(v: &Value) -> (r: Option<LlmQueryRequest>)
        ensures
            r matches Some(x) ==> llm_query_of(*v) == Some(x@),
            r is None ==> llm_query_of(*v) is None,
    {
        let es = match object_entries(v) {
            Some(es) => es,
            None => return None,
        };
        let ghost m = json_node(*v)->Object_0;
        let rag_name = read_str_member(&es, "rag_name", Ghost(m));
        let query = read_str_member(&es, "query", Ghost(m));
        let mode = read_opt_mode_member(&es, "mode", Ghost(m));
        let user_prompt = read_opt_str_member(&es, "user_prompt", Ghost(m));
        let history = read_opt_history_member(&es, "history", Ghost(m));
        match (rag_name, query, mode, user_prompt, history) {
            (Some(rag_name), Some(query), Some(mode), Some(user_prompt), Some(history)) => Some(
                LlmQueryRequest { rag_name, query, mode, user_prompt, history },
            ),
            _ => None,
        }
    }
}

} // verus!
