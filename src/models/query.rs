//! Queries sent to a backend, and the replies read back.
use crate::models::rag_config::Rag;
use vstd::prelude::*;

verus! {

/// How a backend answers a query.
#[derive(Clone, Copy, Debug, PartialEq, Eq, Structural)]
pub enum QueryMode {
    LOCAL,
    GLOBAL,
    HYBRID,
    NAIVE,
    MIX,
    BYPASS,
}

/// The lower-case name that stands for a mode on the wire.
pub open spec fn mode_name(m: QueryMode) -> Seq<char> {
    match m {
        QueryMode::LOCAL => "local"@,
        QueryMode::GLOBAL => "global"@,
        QueryMode::HYBRID => "hybrid"@,
        QueryMode::NAIVE => "naive"@,
        QueryMode::MIX => "mix"@,
        QueryMode::BYPASS => "bypass"@,
    }
}

/// The mode that a name stands for.
pub open spec fn mode_from_name(s: Seq<char>) -> Option<QueryMode> {
    if s == "local"@ {
        Some(QueryMode::LOCAL)
    } else if s == "global"@ {
        Some(QueryMode::GLOBAL)
    } else if s == "hybrid"@ {
        Some(QueryMode::HYBRID)
    } else if s == "naive"@ {
        Some(QueryMode::NAIVE)
    } else if s == "mix"@ {
        Some(QueryMode::MIX)
    } else if s == "bypass"@ {
        Some(QueryMode::BYPASS)
    } else {
        None
    }
}

/// Each mode's name reads back as that mode.
pub proof fn lemma_mode_name_round_trip(m: QueryMode)
    ensures
        mode_from_name(mode_name(m)) == Some(m),
{
    reveal_strlit("local");
    reveal_strlit("global");
    reveal_strlit("hybrid");
    reveal_strlit("naive");
    reveal_strlit("mix");
    reveal_strlit("bypass");
    assert("local"@[0] == 'l' && "global"@[0] == 'g' && "hybrid"@[0] == 'h');
    assert("naive"@[0] == 'n' && "mix"@[0] == 'm' && "bypass"@[0] == 'b');
}

impl QueryMode {
    /// The mode's name on the wire.
    pub fn to_string(&self) -> (r: String)
        ensures
            r@ == mode_name(*self),
    {
        match self {
            QueryMode::LOCAL => String::from_str("local"),
            QueryMode::GLOBAL => String::from_str("global"),
            QueryMode::HYBRID => String::from_str("hybrid"),
            QueryMode::NAIVE => String::from_str("naive"),
            QueryMode::MIX => String::from_str("mix"),
            QueryMode::BYPASS => String::from_str("bypass"),
        }
    }

    /// The mode named `s`; any other text is refused.
    pub fn from_str(s: &str) -> (r: Result<QueryMode, ()>)
        ensures
            r matches Ok(m) ==> mode_from_name(s@) == Some(m),
            r is Err ==> mode_from_name(s@) is None,
    {
        let s = String::from_str(s);
        if s == String::from_str("local") {
            Ok(QueryMode::LOCAL)
        } else if s == String::from_str("global") {
            Ok(QueryMode::GLOBAL)
        } else if s == String::from_str("hybrid") {
            Ok(QueryMode::HYBRID)
        } else if s == String::from_str("naive") {
            Ok(QueryMode::NAIVE)
        } else if s == String::from_str("mix") {
            Ok(QueryMode::MIX)
        } else if s == String::from_str("bypass") {
            Ok(QueryMode::BYPASS)
        } else {
            Err(())
        }
    }
}

/// Who spoke a turn of a conversation.
#[derive(Clone, Copy, Debug, PartialEq, Eq, Structural)]
pub enum ConversationHistoryRole {
    USER,
    ASSISTANT,
}

/// The lower-case name that stands for a role on the wire.
pub open spec fn role_name(r: ConversationHistoryRole) -> Seq<char> {
    match r {
        ConversationHistoryRole::USER => "user"@,
        ConversationHistoryRole::ASSISTANT => "assistant"@,
    }
}

/// The role that a name stands for.
pub open spec fn role_from_name(s: Seq<char>) -> Option<ConversationHistoryRole> {
    if s == "user"@ {
        Some(ConversationHistoryRole::USER)
    } else if s == "assistant"@ {
        Some(ConversationHistoryRole::ASSISTANT)
    } else {
        None
    }
}

/// Each role's name reads back as that role.
pub proof fn lemma_role_name_round_trip(r: ConversationHistoryRole)
    ensures
        role_from_name(role_name(r)) == Some(r),
{
    reveal_strlit("user");
    reveal_strlit("assistant");
    assert("user"@[0] == 'u' && "assistant"@[0] == 'a');
}

impl ConversationHistoryRole {
    /// The role's name on the wire.
    pub fn to_string(&self) -> (r: String)
        ensures
            r@ == role_name(*self),
    {
        match self {
            ConversationHistoryRole::USER => String::from_str("user"),
            ConversationHistoryRole::ASSISTANT => String::from_str("assistant"),
        }
    }

    /// The role named `s`; any other text is refused.
    pub fn from_str(s: &str) -> (r: Result<ConversationHistoryRole, ()>)
        ensures
            r matches Ok(m) ==> role_from_name(s@) == Some(m),
            r is Err ==> role_from_name(s@) is None,
    {
        let s = String::from_str(s);
        if s == String::from_str("user") {
            Ok(ConversationHistoryRole::USER)
        } else if s == String::from_str("assistant") {
            Ok(ConversationHistoryRole::ASSISTANT)
        } else {
            Err(())
        }
    }
}

/// One earlier turn of a conversation.
#[derive(Debug, PartialEq, Eq)]
pub struct ConversationHistory {
    pub role: ConversationHistoryRole,
    pub content: String,
}

/// A turn of a conversation, as a value.
pub struct ConversationHistoryView {
    pub role: ConversationHistoryRole,
    pub content: Seq<char>,
}

impl View for ConversationHistory {
    type V = ConversationHistoryView;

    open spec fn view(&self) -> ConversationHistoryView {
        ConversationHistoryView { role: self.role, content: self.content@ }
    }
}

impl Clone for ConversationHistory {
    fn clone(&self) -> (r: Self)
        ensures
            r == *self,
    {
        ConversationHistory { role: self.role, content: self.content.clone() }
    }
}

/// The views of the turns of a conversation.
pub open spec fn history_view(h: Seq<ConversationHistory>) -> Seq<ConversationHistoryView> {
    h.map_values(|t: ConversationHistory| t@)
}

/// A copy of a conversation.
pub fn clone_history(h: &Vec<ConversationHistory>) -> (r: Vec<ConversationHistory>)
    ensures
        r@ == h@,
{
    let r = h.clone();
    assert(r@ =~= h@);
    r
}

/// The query that is sent to a backend.
#[derive(Debug, PartialEq, Eq)]
pub struct QueryRequest {
    pub query: String,
    pub mode: QueryMode,
    pub only_need_context: Option<bool>,
    pub only_need_prompt: Option<bool>,
    pub response_type: String,
    pub top_k: i32,
    pub chunk_top_k: i32,
    pub max_entity_tokens: i32,
    pub max_relation_tokens: i32,
    pub max_total_tokens: i32,
    pub conversation_history: Option<Vec<ConversationHistory>>,
    pub user_prompt: Option<String>,
    pub enable_rerank: Option<bool>,
    pub include_references: bool,
    pub stream: Option<bool>,
}

/// A query, as a value.
pub struct QueryRequestView {
    pub query: Seq<char>,
    pub mode: QueryMode,
    pub only_need_context: Option<bool>,
    pub only_need_prompt: Option<bool>,
    pub response_type: Seq<char>,
    pub top_k: i32,
    pub chunk_top_k: i32,
    pub max_entity_tokens: i32,
    pub max_relation_tokens: i32,
    pub max_total_tokens: i32,
    pub conversation_history: Option<Seq<ConversationHistoryView>>,
    pub user_prompt: Option<Seq<char>>,
    pub enable_rerank: Option<bool>,
    pub include_references: bool,
    pub stream: Option<bool>,
}

/// The view of an optional text.
pub open spec fn opt_str_view(s: Option<String>) -> Option<Seq<char>> {
    match s {
        Some(t) => Some(t@),
        None => None,
    }
}

/// The view of an optional conversation.
pub open spec fn opt_history_view(h: Option<Vec<ConversationHistory>>) -> Option<
    Seq<ConversationHistoryView>,
> {
    match h {
        Some(v) => Some(history_view(v@)),
        None => None,
    }
}

impl View for QueryRequest {
    type V = QueryRequestView;

    open spec fn view(&self) -> QueryRequestView {
        QueryRequestView {
            query: self.query@,
            mode: self.mode,
            only_need_context: self.only_need_context,
            only_need_prompt: self.only_need_prompt,
            response_type: self.response_type@,
            top_k: self.top_k,
            chunk_top_k: self.chunk_top_k,
            max_entity_tokens: self.max_entity_tokens,
            max_relation_tokens: self.max_relation_tokens,
            max_total_tokens: self.max_total_tokens,
            conversation_history: opt_history_view(self.conversation_history),
            user_prompt: opt_str_view(self.user_prompt),
            enable_rerank: self.enable_rerank,
            include_references: self.include_references,
            stream: self.stream,
        }
    }
}

/// The query that every field's default gives: empty text, hybrid mode, 40 and 20
/// results, token limits of 6000, 10000 and 30000, references included, and
/// nothing else set.
pub open spec fn default_request() -> QueryRequestView {
    QueryRequestView {
        query: Seq::empty(),
        mode: QueryMode::HYBRID,
        only_need_context: None,
        only_need_prompt: None,
        response_type: "Multiple Paragraphs"@,
        top_k: 40,
        chunk_top_k: 20,
        max_entity_tokens: 6000,
        max_relation_tokens: 10000,
        max_total_tokens: 30000,
        conversation_history: None,
        user_prompt: None,
        enable_rerank: None,
        include_references: true,
        stream: None,
    }
}

/// The default query with the text `q`.
pub open spec fn default_request_for(q: Seq<char>) -> QueryRequestView {
    QueryRequestView { query: q, ..default_request() }
}

impl Clone for QueryRequest {
    fn clone(&self) -> (r: Self)
        ensures
            r@ == self@,
    {
        let conversation_history = match &self.conversation_history {
            Some(h) => Some(clone_history(h)),
            None => None,
        };
        let user_prompt = match &self.user_prompt {
            Some(p) => Some(p.clone()),
            None => None,
        };
        QueryRequest {
            query: self.query.clone(),
            mode: self.mode,
            only_need_context: self.only_need_context,
            only_need_prompt: self.only_need_prompt,
            response_type: self.response_type.clone(),
            top_k: self.top_k,
            chunk_top_k: self.chunk_top_k,
            max_entity_tokens: self.max_entity_tokens,
            max_relation_tokens: self.max_relation_tokens,
            max_total_tokens: self.max_total_tokens,
            conversation_history,
            user_prompt,
            enable_rerank: self.enable_rerank,
            include_references: self.include_references,
            stream: self.stream,
        }
    }
}

impl QueryRequest {
    /// A query with every field at its default.
    pub fn new() -> (r: Self)
        ensures
            r@ == default_request(),
    {
        QueryRequest {
            query: String::new(),
            mode: QueryMode::HYBRID,
            only_need_context: None,
            only_need_prompt: None,
            response_type: String::from_str("Multiple Paragraphs"),
            top_k: 40,
            chunk_top_k: 20,
            max_entity_tokens: 6000,
            max_relation_tokens: 10000,
            max_total_tokens: 30000,
            conversation_history: None,
            user_prompt: None,
            enable_rerank: None,
            include_references: true,
            stream: None,
        }
    }

    /// The same query with the text `query`.
    pub fn with_query(self, query: String) -> (r: Self)
        ensures
            r@ == (QueryRequestView { query: query@, ..self@ }),
    {
        let mut r = self;
        r.query = query;
        r
    }

    /// The same query in the mode `mode`.
    pub fn with_mode(self, mode: QueryMode) -> (r: Self)
        ensures
            r@ == (QueryRequestView { mode, ..self@ }),
    {
        let mut r = self;
        r.mode = mode;
        r
    }

    /// The same query asking for answers shaped as `response_type`.
    pub fn with_response_type(self, response_type: String) -> (r: Self)
        ensures
            r@ == (QueryRequestView { response_type: response_type@, ..self@ }),
    {
        let mut r = self;
        r.response_type = response_type;
        r
    }

    /// The same query with `top_k` results.
    pub fn with_top_k(self, top_k: i32) -> (r: Self)
        ensures
            r@ == (QueryRequestView { top_k, ..self@ }),
    {
        let mut r = self;
        r.top_k = top_k;
        r
    }

    /// The same query with `chunk_top_k` chunks.
    pub fn with_chunk_top_k(self, chunk_top_k: i32) -> (r: Self)
        ensures
            r@ == (QueryRequestView { chunk_top_k, ..self@ }),
    {
        let mut r = self;
        r.chunk_top_k = chunk_top_k;
        r
    }

    /// The same query with an entity token limit of `max_entity_tokens`.
    pub fn with_max_entity_tokens(self, max_entity_tokens: i32) -> (r: Self)
        ensures
            r@ == (QueryRequestView { max_entity_tokens, ..self@ }),
    {
        let mut r = self;
        r.max_entity_tokens = max_entity_tokens;
        r
    }

    /// The same query with a relation token limit of `max_relation_tokens`.
    pub fn with_max_relation_tokens(self, max_relation_tokens: i32) -> (r: Self)
        ensures
            r@ == (QueryRequestView { max_relation_tokens, ..self@ }),
    {
        let mut r = self;
        r.max_relation_tokens = max_relation_tokens;
        r
    }

    /// The same query with a total token limit of `max_total_tokens`.
    pub fn with_max_total_tokens(self, max_total_tokens: i32) -> (r: Self)
        ensures
            r@ == (QueryRequestView { max_total_tokens, ..self@ }),
    {
        let mut r = self;
        r.max_total_tokens = max_total_tokens;
        r
    }

    /// The same query with the earlier turns `conversation_history`.
    pub fn with_conversation_history(
        self,
        conversation_history: Option<Vec<ConversationHistory>>,
    ) -> (r: Self)
        ensures
            r@ == (QueryRequestView {
                conversation_history: opt_history_view(conversation_history),
                ..self@
            }),
    {
        let mut r = self;
        r.conversation_history = conversation_history;
        r
    }

    /// The same query with the extra prompt `user_prompt`.
    pub fn with_user_prompt(self, user_prompt: Option<String>) -> (r: Self)
        ensures
            r@ == (QueryRequestView { user_prompt: opt_str_view(user_prompt), ..self@ }),
    {
        let mut r = self;
        r.user_prompt = user_prompt;
        r
    }

    /// The same query with reranking set to `enable_rerank`.
    pub fn with_enable_rerank(self, enable_rerank: Option<bool>) -> (r: Self)
        ensures
            r@ == (QueryRequestView { enable_rerank, ..self@ }),
    {
        let mut r = self;
        r.enable_rerank = enable_rerank;
        r
    }

    /// The same query with streaming set to `stream`.
    pub fn with_stream(self, stream: Option<bool>) -> (r: Self)
        ensures
            r@ == (QueryRequestView { stream, ..self@ }),
    {
        let mut r = self;
        r.stream = stream;
        r
    }
}

/// A source that a backend's answer refers to.
#[derive(Debug, PartialEq, Eq)]
pub struct QueryResponseRefence {
    pub reference_id: String,
    pub file_path: String,
}

/// A reference, as a value.
pub struct QueryResponseRefenceView {
    pub reference_id: Seq<char>,
    pub file_path: Seq<char>,
}

impl View for QueryResponseRefence {
    type V = QueryResponseRefenceView;

    open spec fn view(&self) -> QueryResponseRefenceView {
        QueryResponseRefenceView { reference_id: self.reference_id@, file_path: self.file_path@ }
    }
}

impl Clone for QueryResponseRefence {
    fn clone(&self) -> (r: Self)
        ensures
            r == *self,
    {
        QueryResponseRefence {
            reference_id: self.reference_id.clone(),
            file_path: self.file_path.clone(),
        }
    }
}

/// A backend's answer: its text and the sources it refers to, in order.
#[derive(Debug, PartialEq, Eq)]
pub struct QueryResponse {
    pub response: String,
    pub references: Vec<QueryResponseRefence>,
}

/// An answer, as a value.
pub struct QueryResponseView {
    pub response: Seq<char>,
    pub references: Seq<QueryResponseRefenceView>,
}

impl View for QueryResponse {
    type V = QueryResponseView;

    open spec fn view(&self) -> QueryResponseView {
        QueryResponseView {
            response: self.response@,
            references: self.references@.map_values(|r: QueryResponseRefence| r@),
        }
    }
}

/// A backend together with the query to send it.
#[derive(Debug)]
pub struct RagQuery {
    pub rag_service: Rag,
    pub query_request: QueryRequest,
}

} // verus!
