//! The JSON form of queries and replies: what a document must hold to be read
//! as one, and the document written for one.
use crate::json::{
    array_items, array_value, bool_member, bool_value, empty_object, entries_match, field,
    find_field, i32_member, i32_value, insert_member, is_null, json_node, null_value,
    object_entries, opt_bool_member, opt_str_member, read_bool_member, read_i32_member,
    read_opt_bool_member, read_opt_str_member, read_str, read_str_member, str_member, str_of,
    str_value, JsonNodeView,
};
use crate::models::query::{
    history_view, lemma_mode_name_round_trip, lemma_role_name_round_trip,
    mode_from_name, mode_name, opt_history_view, opt_str_view, role_from_name, role_name,
    ConversationHistory, ConversationHistoryRole, ConversationHistoryView, QueryMode, QueryRequest,
    QueryRequestView, QueryResponse, QueryResponseRefence, QueryResponseRefenceView,
    QueryResponseView,
};
use serde_json::Value;
use vstd::prelude::*;

verus! {

/// The mode that a document names.
pub open spec fn mode_of(v: Value) -> Option<QueryMode> {
    match str_of(v) {
        Some(s) => mode_from_name(s),
        None => None,
    }
}

/// The role that a document names.
pub open spec fn role_of(v: Value) -> Option<ConversationHistoryRole> {
    match str_of(v) {
        Some(s) => role_from_name(s),
        None => None,
    }
}

/// The mode member `key`, which must be present.
pub open spec fn mode_member(m: Map<Seq<char>, Value>, key: Seq<char>) -> Option<QueryMode> {
    match field(m, key) {
        Some(x) => mode_of(x),
        None => None,
    }
}

/// An optional mode member: absent or `null` reads as `Some(None)`.
pub open spec fn opt_mode_member(m: Map<Seq<char>, Value>, key: Seq<char>) -> Option<
    Option<QueryMode>,
> {
    match field(m, key) {
        None => Some(None),
        Some(x) => if json_node(x) is Null {
            Some(None)
        } else {
            match mode_of(x) {
                Some(md) => Some(Some(md)),
                None => None,
            }
        },
    }
}

/// The turn of a conversation that a document holds: an object with a `role`
/// and a text `content`.
pub open spec fn turn_of(v: Value) -> Option<ConversationHistoryView> {
    match json_node(v) {
        JsonNodeView::Object(m) => match (field(m, "role"@), str_member(m, "content"@)) {
            (Some(r), Some(content)) => match role_of(r) {
                Some(role) => Some(ConversationHistoryView { role, content }),
                None => None,
            },
            _ => None,
        },
        _ => None,
    }
}

/// The turns that the elements of an array hold, if each of them holds one.
pub open spec fn turns_of(items: Seq<Value>) -> Option<Seq<ConversationHistoryView>> {
    if forall|i: int| 0 <= i < items.len() ==> (#[trigger] turn_of(items[i])) is Some {
        Some(items.map_values(|x: Value| turn_of(x)->0))
    } else {
        None
    }
}

/// An optional conversation member: absent or `null` reads as `Some(None)`.
pub open spec fn opt_history_member(m: Map<Seq<char>, Value>, key: Seq<char>) -> Option<
    Option<Seq<ConversationHistoryView>>,
> {
    match field(m, key) {
        None => Some(None),
        Some(x) => match json_node(x) {
            JsonNodeView::Null => Some(None),
            JsonNodeView::Array(items) => match turns_of(items) {
                Some(t) => Some(Some(t)),
                None => None,
            },
            _ => None,
        },
    }
}

/// The query that an object's members describe. Every member is required but
/// the optional ones, which may be absent or `null`; other members are ignored.
pub open spec fn request_of_members(m: Map<Seq<char>, Value>) -> Option<QueryRequestView> {
    let query = str_member(m, "query"@);
    let mode = mode_member(m, "mode"@);
    let only_need_context = opt_bool_member(m, "only_need_context"@);
    let only_need_prompt = opt_bool_member(m, "only_need_prompt"@);
    let response_type = str_member(m, "response_type"@);
    let top_k = i32_member(m, "top_k"@);
    let chunk_top_k = i32_member(m, "chunk_top_k"@);
    let max_entity_tokens = i32_member(m, "max_entity_tokens"@);
    let max_relation_tokens = i32_member(m, "max_relation_tokens"@);
    let max_total_tokens = i32_member(m, "max_total_tokens"@);
    let conversation_history = opt_history_member(m, "conversation_history"@);
    let user_prompt = opt_str_member(m, "user_prompt"@);
    let enable_rerank = opt_bool_member(m, "enable_rerank"@);
    let include_references = bool_member(m, "include_references"@);
    let stream = opt_bool_member(m, "stream"@);
    if query is Some && mode is Some && only_need_context is Some && only_need_prompt is Some
        && response_type is Some && top_k is Some && chunk_top_k is Some
        && max_entity_tokens is Some && max_relation_tokens is Some && max_total_tokens is Some
        && conversation_history is Some && user_prompt is Some && enable_rerank is Some
        && include_references is Some && stream is Some {
        Some(
            QueryRequestView {
                query: query->0,
                mode: mode->0,
                only_need_context: only_need_context->0,
                only_need_prompt: only_need_prompt->0,
                response_type: response_type->0,
                top_k: top_k->0,
                chunk_top_k: chunk_top_k->0,
                max_entity_tokens: max_entity_tokens->0,
                max_relation_tokens: max_relation_tokens->0,
                max_total_tokens: max_total_tokens->0,
                conversation_history: conversation_history->0,
                user_prompt: user_prompt->0,
                enable_rerank: enable_rerank->0,
                include_references: include_references->0,
                stream: stream->0,
            },
        )
    } else {
        None
    }
}

/// The query that a document describes, if it is an object of the right shape.
pub open spec fn request_of(v: Value) -> Option<QueryRequestView> {
    match json_node(v) {
        JsonNodeView::Object(m) => request_of_members(m),
        _ => None,
    }
}

/// The mode member `key` of an object with entries `es`.
fn read_mode_member(
    es: &Vec<(String, Value)>,
    key: &str,
    Ghost(m): Ghost<Map<Seq<char>, Value>>,
) -> (r: Option<QueryMode>)
    requires
        entries_match(es@, m),
    ensures
        r == mode_member(m, key@),
{
    match read_str_member(es, key, Ghost(m)) {
        Some(s) => QueryMode::from_str(s.as_str()).ok(),
        None => None,
    }
}

/// The optional mode member `key` of an object with entries `es`.
pub fn read_opt_mode_member(
    es: &Vec<(String, Value)>,
    key: &str,
    Ghost(m): Ghost<Map<Seq<char>, Value>>,
) -> (r: Option<Option<QueryMode>>)
    requires
        entries_match(es@, m),
    ensures
        r == opt_mode_member(m, key@),
{
    match find_field(es, key, Ghost(m)) {
        None => Some(None),
        Some(x) => if is_null(x) {
            Some(None)
        } else {
            match read_str(x) {
                Some(s) => match QueryMode::from_str(s.as_str()) {
                    Ok(md) => Some(Some(md)),
                    Err(()) => None,
                },
                None => None,
            }
        },
    }
}

/// The turn of a conversation that a document holds.
fn read_turn(v: &Value) -> (r: Option<ConversationHistory>)
    ensures
        r matches Some(t) ==> turn_of(*v) == Some(t@),
        r is None ==> turn_of(*v) is None,
{
    let es = match object_entries(v) {
        Some(es) => es,
        None => return None,
    };
    let ghost m = json_node(*v)->Object_0;
    let role = match find_field(&es, "role", Ghost(m)) {
        Some(x) => match read_str(x) {
            Some(s) => match ConversationHistoryRole::from_str(s.as_str()) {
                Ok(role) => role,
                Err(()) => return None,
            },
            None => return None,
        },
        None => return None,
    };
    let content = match read_str_member(&es, "content", Ghost(m)) {
        Some(c) => c,
        None => return None,
    };
    Some(ConversationHistory { role, content })
}

/// The turns that the elements of an array hold.
fn read_turns(items: &Vec<Value>) -> (r: Option<Vec<ConversationHistory>>)
    ensures
        r matches Some(h) ==> turns_of(items@) == Some(history_view(h@)),
        r is None ==> turns_of(items@) is None,
{
    let mut out: Vec<ConversationHistory> = Vec::new();
    let mut i: usize = 0;
    while i < items.len()
        invariant
            i <= items.len(),
            out@.len() == i,
            forall|j: int| 0 <= j < i ==> turn_of(#[trigger] items@[j]) == Some(out@[j]@),
        decreases items.len() - i,
    {
        match read_turn(&items[i]) {
            Some(t) => out.push(t),
            None => {
                assert(turn_of(items@[i as int]) is None);
                return None;
            },
        }
        i = i + 1;
    }
    assert(forall|j: int| 0 <= j < items@.len() ==> (#[trigger] turn_of(items@[j])) is Some);
    assert(history_view(out@) =~= items@.map_values(|x: Value| turn_of(x)->0));
    Some(out)
}

/// The optional conversation member `key` of an object with entries `es`.
pub fn read_opt_history_member(
    es: &Vec<(String, Value)>,
    key: &str,
    Ghost(m): Ghost<Map<Seq<char>, Value>>,
) -> (r: Option<Option<Vec<ConversationHistory>>>)
    requires
        entries_match(es@, m),
    ensures
        r matches Some(h) ==> opt_history_member(m, key@) == Some(opt_history_view(h)),
        r is None ==> opt_history_member(m, key@) is None,
{
    match find_field(es, key, Ghost(m)) {
        None => Some(None),
        Some(x) => if is_null(x) {
            Some(None)
        } else {
            match array_items(x) {
                Some(items) => match read_turns(&items) {
                    Some(h) => Some(Some(h)),
                    None => None,
                },
                None => None,
            }
        },
    }
}

impl QueryRequest {
    /// The query that a document describes, or `None` where it does not have the
    /// shape of one.
    pub fn from_json(v: &Value) -> (r: Option<QueryRequest>)
        ensures
            r matches Some(q) ==> request_of(*v) == Some(q@),
            r is None ==> request_of(*v) is None,
    {
        let es = match object_entries(v) {
            Some(es) => es,
            None => return None,
        };
        let ghost m = json_node(*v)->Object_0;
        let query = match read_str_member(&es, "query", Ghost(m)) {
            Some(x) => x,
            None => return None,
        };
        let mode = match read_mode_member(&es, "mode", Ghost(m)) {
            Some(x) => x,
            None => return None,
        };
        let only_need_context = match read_opt_bool_member(&es, "only_need_context", Ghost(m)) {
            Some(x) => x,
            None => return None,
        };
        let only_need_prompt = match read_opt_bool_member(&es, "only_need_prompt", Ghost(m)) {
            Some(x) => x,
            None => return None,
        };
        let response_type = match read_str_member(&es, "response_type", Ghost(m)) {
            Some(x) => x,
            None => return None,
        };
        let top_k = match read_i32_member(&es, "top_k", Ghost(m)) {
            Some(x) => x,
            None => return None,
        };
        let chunk_top_k = match read_i32_member(&es, "chunk_top_k", Ghost(m)) {
            Some(x) => x,
            None => return None,
        };
        let max_entity_tokens = match read_i32_member(&es, "max_entity_tokens", Ghost(m)) {
            Some(x) => x,
            None => return None,
        };
        let max_relation_tokens = match read_i32_member(&es, "max_relation_tokens", Ghost(m)) {
            Some(x) => x,
            None => return None,
        };
        let max_total_tokens = match read_i32_member(&es, "max_total_tokens", Ghost(m)) {
            Some(x) => x,
            None => return None,
        };
        let history = read_opt_history_member(&es, "conversation_history", Ghost(m));
        let conversation_history = match history {
            Some(x) => x,
            None => return None,
        };
        let user_prompt = match read_opt_str_member(&es, "user_prompt", Ghost(m)) {
            Some(x) => x,
            None => return None,
        };
        let enable_rerank = match read_opt_bool_member(&es, "enable_rerank", Ghost(m)) {
            Some(x) => x,
            None => return None,
        };
        let include_references = match read_bool_member(&es, "include_references", Ghost(m)) {
            Some(x) => x,
            None => return None,
        };
        let stream = match read_opt_bool_member(&es, "stream", Ghost(m)) {
            Some(x) => x,
            None => return None,
        };
        Some(QueryRequest {
            query,
            mode,
            only_need_context,
            only_need_prompt,
            response_type,
            top_k,
            chunk_top_k,
            max_entity_tokens,
            max_relation_tokens,
            max_total_tokens,
            conversation_history,
            user_prompt,
            enable_rerank,
            include_references,
            stream,
        })
    }
}

/// `x` is the document for an optional flag: `null` when it is unset.
pub open spec fn encodes_opt_bool(x: Value, o: Option<bool>) -> bool {
    match o {
        None => json_node(x) is Null,
        Some(b) => json_node(x) == JsonNodeView::Bool(b),
    }
}

/// `x` is the document for an optional text: `null` when it is unset.
pub open spec fn encodes_opt_str(x: Value, o: Option<Seq<char>>) -> bool {
    match o {
        None => json_node(x) is Null,
        Some(t) => json_node(x) == JsonNodeView::Str(t),
    }
}

/// `v` is the document for the turn `t`: an object with exactly a `role` and a
/// `content`.
pub open spec fn encodes_turn(v: Value, t: ConversationHistoryView) -> bool {
    &&& json_node(v) is Object
    &&& json_node(v)->Object_0.dom() == set!["role"@, "content"@]
    &&& json_node(json_node(v)->Object_0["role"@]) == JsonNodeView::Str(role_name(t.role))
    &&& json_node(json_node(v)->Object_0["content"@]) == JsonNodeView::Str(t.content)
}

/// `x` is the document for the turns `h`: an array of their documents.
pub open spec fn encodes_turns(x: Value, h: Seq<ConversationHistoryView>) -> bool {
    &&& json_node(x) is Array
    &&& json_node(x)->Array_0.len() == h.len()
    &&& forall|i: int| 0 <= i < h.len() ==> encodes_turn(#[trigger] json_node(x)->Array_0[i], h[i])
}

/// `x` is the document for an optional conversation: `null` when it is unset.
pub open spec fn encodes_opt_history(x: Value, o: Option<Seq<ConversationHistoryView>>) -> bool {
    match o {
        None => json_node(x) is Null,
        Some(h) => encodes_turns(x, h),
    }
}

/// The members of a query's document.
pub open spec fn request_keys() -> Set<Seq<char>> {
    set![
        "query"@,
        "mode"@,
        "only_need_context"@,
        "only_need_prompt"@,
        "response_type"@,
        "top_k"@,
        "chunk_top_k"@,
        "max_entity_tokens"@,
        "max_relation_tokens"@,
        "max_total_tokens"@,
        "conversation_history"@,
        "user_prompt"@,
        "enable_rerank"@,
        "include_references"@,
        "stream"@,
    ]
}

/// `v` is the document for the query `q`: an object with one member per field,
/// each unset option written as `null`.
pub open spec fn encodes_request(v: Value, q: QueryRequestView) -> bool {
    json_node(v) matches JsonNodeView::Object(m) && {
        &&& m.dom() == request_keys()
        &&& json_node(m["query"@]) == JsonNodeView::Str(q.query)
        &&& json_node(m["mode"@]) == JsonNodeView::Str(mode_name(q.mode))
        &&& encodes_opt_bool(m["only_need_context"@], q.only_need_context)
        &&& encodes_opt_bool(m["only_need_prompt"@], q.only_need_prompt)
        &&& json_node(m["response_type"@]) == JsonNodeView::Str(q.response_type)
        &&& json_node(m["top_k"@]) == JsonNodeView::Number(Some(q.top_k as i64))
        &&& json_node(m["chunk_top_k"@]) == JsonNodeView::Number(Some(q.chunk_top_k as i64))
        &&& json_node(m["max_entity_tokens"@]) == JsonNodeView::Number(
            Some(q.max_entity_tokens as i64),
        )
        &&& json_node(m["max_relation_tokens"@]) == JsonNodeView::Number(
            Some(q.max_relation_tokens as i64),
        )
        &&& json_node(m["max_total_tokens"@]) == JsonNodeView::Number(
            Some(q.max_total_tokens as i64),
        )
        &&& encodes_opt_history(m["conversation_history"@], q.conversation_history)
        &&& encodes_opt_str(m["user_prompt"@], q.user_prompt)
        &&& encodes_opt_bool(m["enable_rerank"@], q.enable_rerank)
        &&& json_node(m["include_references"@]) == JsonNodeView::Bool(q.include_references)
        &&& encodes_opt_bool(m["stream"@], q.stream)
    }
}

/// The document for an optional flag.
fn opt_bool_value(o: Option<bool>) -> (r: Value)
    ensures
        encodes_opt_bool(r, o),
{
    match o {
        Some(b) => bool_value(b),
        None => null_value(),
    }
}

/// The document for an optional text.
fn opt_str_value(o: &Option<String>) -> (r: Value)
    ensures
        encodes_opt_str(r, opt_str_view(*o)),
{
    match o {
        Some(t) => str_value(t.clone()),
        None => null_value(),
    }
}

impl ConversationHistory {
    /// The document for this turn.
    pub fn to_json(&self) -> (r: Value)
        ensures
            encodes_turn(r, self@),
    {
        let mut obj = empty_object();
        insert_member(&mut obj, String::from_str("role"), str_value(self.role.to_string()));
        insert_member(&mut obj, String::from_str("content"), str_value(self.content.clone()));
        proof {
            reveal_strlit("role");
            reveal_strlit("content");
            assert("role"@[0] != "content"@[0]);
            assert(json_node(obj)->Object_0.dom() =~= set!["role"@, "content"@]);
        }
        obj
    }
}

/// The document for an optional conversation.
fn opt_history_value(o: &Option<Vec<ConversationHistory>>) -> (r: Value)
    ensures
        encodes_opt_history(r, opt_history_view(*o)),
{
    match o {
        None => null_value(),
        Some(h) => {
            let mut items: Vec<Value> = Vec::new();
            let mut i: usize = 0;
            while i < h.len()
                invariant
                    i <= h.len(),
                    items@.len() == i,
                    forall|j: int| 0 <= j < i ==> encodes_turn(#[trigger] items@[j], h@[j]@),
                decreases h.len() - i,
            {
                items.push(h[i].to_json());
                i = i + 1;
            }
            let r = array_value(items);
            assert(forall|j: int|
                0 <= j < h@.len() ==> #[trigger] history_view(h@)[j] == h@[j]@);
            r
        },
    }
}

impl QueryRequest {
    /// The document for this query: one member per field, each unset option
    /// written as `null`.
    pub fn to_json(&self) -> (r: Value)
        ensures
            encodes_request(r, self@),
    {
        let mut obj = empty_object();
        insert_member(&mut obj, String::from_str("query"), str_value(self.query.clone()));
        insert_member(&mut obj, String::from_str("mode"), str_value(self.mode.to_string()));
        insert_member(
            &mut obj,
            String::from_str("only_need_context"),
            opt_bool_value(self.only_need_context),
        );
        insert_member(
            &mut obj,
            String::from_str("only_need_prompt"),
            opt_bool_value(self.only_need_prompt),
        );
        insert_member(
            &mut obj,
            String::from_str("response_type"),
            str_value(self.response_type.clone()),
        );
        insert_member(&mut obj, String::from_str("top_k"), i32_value(self.top_k));
        insert_member(&mut obj, String::from_str("chunk_top_k"), i32_value(self.chunk_top_k));
        insert_member(
            &mut obj,
            String::from_str("max_entity_tokens"),
            i32_value(self.max_entity_tokens),
        );
        insert_member(
            &mut obj,
            String::from_str("max_relation_tokens"),
            i32_value(self.max_relation_tokens),
        );
        insert_member(
            &mut obj,
            String::from_str("max_total_tokens"),
            i32_value(self.max_total_tokens),
        );
        insert_member(
            &mut obj,
            String::from_str("conversation_history"),
            opt_history_value(&self.conversation_history),
        );
        insert_member(
            &mut obj,
            String::from_str("user_prompt"),
            opt_str_value(&self.user_prompt),
        );
        insert_member(
            &mut obj,
            String::from_str("enable_rerank"),
            opt_bool_value(self.enable_rerank),
        );
        insert_member(
            &mut obj,
            String::from_str("include_references"),
            bool_value(self.include_references),
        );
        insert_member(&mut obj, String::from_str("stream"), opt_bool_value(self.stream));
        proof {
            lemma_request_keys_distinct();
            assert(json_node(obj)->Object_0.dom() =~= request_keys());
        }
        obj
    }
}

/// The names of a query's members differ from each other in their length or
/// their first letter.
proof fn lemma_request_keys_distinct()
    ensures
        "query"@.len() == 5 && "query"@[0] == 'q',
        "mode"@.len() == 4 && "mode"@[0] == 'm',
        "only_need_context"@.len() == 17 && "only_need_context"@[0] == 'o',
        "only_need_prompt"@.len() == 16 && "only_need_prompt"@[0] == 'o',
        "response_type"@.len() == 13 && "response_type"@[0] == 'r',
        "top_k"@.len() == 5 && "top_k"@[0] == 't',
        "chunk_top_k"@.len() == 11 && "chunk_top_k"@[0] == 'c',
        "max_entity_tokens"@.len() == 17 && "max_entity_tokens"@[0] == 'm',
        "max_relation_tokens"@.len() == 19 && "max_relation_tokens"@[0] == 'm',
        "max_total_tokens"@.len() == 16 && "max_total_tokens"@[0] == 'm',
        "conversation_history"@.len() == 20 && "conversation_history"@[0] == 'c',
        "user_prompt"@.len() == 11 && "user_prompt"@[0] == 'u',
        "enable_rerank"@.len() == 13 && "enable_rerank"@[0] == 'e',
        "include_references"@.len() == 18 && "include_references"@[0] == 'i',
        "stream"@.len() == 6 && "stream"@[0] == 's',
{
    reveal_strlit("query");
    reveal_strlit("mode");
    reveal_strlit("only_need_context");
    reveal_strlit("only_need_prompt");
    reveal_strlit("response_type");
    reveal_strlit("top_k");
    reveal_strlit("chunk_top_k");
    reveal_strlit("max_entity_tokens");
    reveal_strlit("max_relation_tokens");
    reveal_strlit("max_total_tokens");
    reveal_strlit("conversation_history");
    reveal_strlit("user_prompt");
    reveal_strlit("enable_rerank");
    reveal_strlit("include_references");
    reveal_strlit("stream");
}

/// A turn written as a document reads back as the same turn.
pub proof fn lemma_turn_round_trip(v: Value, t: ConversationHistoryView)
    requires
        encodes_turn(v, t),
    ensures
        turn_of(v) == Some(t),
{
    lemma_role_name_round_trip(t.role);
    let m = json_node(v)->Object_0;
    assert(m.contains_key("role"@) && m.contains_key("content"@));
}

/// A query written as a document reads back as the same query, field for field.
pub proof fn lemma_request_round_trip(v: Value, q: QueryRequestView)
    requires
        encodes_request(v, q),
    ensures
        request_of(v) == Some(q),
{
    lemma_mode_name_round_trip(q.mode);
    let m = json_node(v)->Object_0;
    assert(request_keys().contains("conversation_history"@));
    if let Some(h) = q.conversation_history {
        let items = json_node(m["conversation_history"@])->Array_0;
        assert forall|i: int| 0 <= i < items.len() implies #[trigger] turn_of(items[i]) == Some(
            h[i],
        ) by {
            lemma_turn_round_trip(items[i], h[i]);
        }
        assert(items.map_values(|x: Value| turn_of(x)->0) =~= h);
    }
    assert(request_of_members(m) == Some(q));
}

/// The reference that a document describes: an object with the text members
/// `reference_id` and `file_path`.
pub open spec fn reference_of(v: Value) -> Option<QueryResponseRefenceView> {
    match json_node(v) {
        JsonNodeView::Object(m) => match (
            str_member(m, "reference_id"@),
            str_member(m, "file_path"@),
        ) {
            (Some(reference_id), Some(file_path)) => Some(
                QueryResponseRefenceView { reference_id, file_path },
            ),
            _ => None,
        },
        _ => None,
    }
}

/// The references that the elements of an array describe, if each describes one.
pub open spec fn references_of(items: Seq<Value>) -> Option<Seq<QueryResponseRefenceView>> {
    if forall|i: int| 0 <= i < items.len() ==> (#[trigger] reference_of(items[i])) is Some {
        Some(items.map_values(|x: Value| reference_of(x)->0))
    } else {
        None
    }
}

/// The answer that a document describes: an object with a text `response` and
/// an array of `references`.
pub open spec fn response_of(v: Value) -> Option<QueryResponseView> {
    match json_node(v) {
        JsonNodeView::Object(m) => match (str_member(m, "response"@), field(m, "references"@)) {
            (Some(response), Some(refs)) => match json_node(refs) {
                JsonNodeView::Array(items) => match references_of(items) {
                    Some(references) => Some(QueryResponseView { response, references }),
                    None => None,
                },
                _ => None,
            },
            _ => None,
        },
        _ => None,
    }
}

/// The reference that a document describes.
fn read_reference(v: &Value) -> (r: Option<QueryResponseRefence>)
    ensures
        r matches Some(x) ==> reference_of(*v) == Some(x@),
        r is None ==> reference_of(*v) is None,
{
    let es = match object_entries(v) {
        Some(es) => es,
        None => return None,
    };
    let ghost m = json_node(*v)->Object_0;
    let reference_id = read_str_member(&es, "reference_id", Ghost(m));
    let file_path = read_str_member(&es, "file_path", Ghost(m));
    match (reference_id, file_path) {
        (Some(reference_id), Some(file_path)) => Some(
            QueryResponseRefence { reference_id, file_path },
        ),
        _ => None,
    }
}

/// The references that the elements of an array describe.
fn read_references(items: &Vec<Value>) -> (r: Option<Vec<QueryResponseRefence>>)
    ensures
        r matches Some(refs) ==> references_of(items@) == Some(
            refs@.map_values(|x: QueryResponseRefence| x@),
        ),
        r is None ==> references_of(items@) is None,
{
    let mut out: Vec<QueryResponseRefence> = Vec::new();
    let mut i: usize = 0;
    while i < items.len()
        invariant
            i <= items.len(),
            out@.len() == i,
            forall|j: int| 0 <= j < i ==> reference_of(#[trigger] items@[j]) == Some(out@[j]@),
        decreases items.len() - i,
    {
        match read_reference(&items[i]) {
            Some(x) => out.push(x),
            None => {
                assert(reference_of(items@[i as int]) is None);
                return None;
            },
        }
        i = i + 1;
    }
    assert(forall|j: int| 0 <= j < items@.len() ==> (#[trigger] reference_of(items@[j])) is Some);
    assert(out@.map_values(|x: QueryResponseRefence| x@) =~= items@.map_values(
        |x: Value| reference_of(x)->0,
    ));
    Some(out)
}

impl QueryResponse {
    /// The answer that a document describes, or `None` where it does not have
    /// the shape of one.
    pub fn from_json(v: &Value) -> (r: Option<QueryResponse>)
        ensures
            r matches Some(x) ==> response_of(*v) == Some(x@),
            r is None ==> response_of(*v) is None,
    {
        let es = match object_entries(v) {
            Some(es) => es,
            None => return None,
        };
        let ghost m = json_node(*v)->Object_0;
        let response = match read_str_member(&es, "response", Ghost(m)) {
            Some(t) => t,
            None => return None,
        };
        let refs = match find_field(&es, "references", Ghost(m)) {
            Some(x) => x,
            None => return None,
        };
        let items = match array_items(refs) {
            Some(items) => items,
            None => return None,
        };
        match read_references(&items) {
            Some(references) => Some(QueryResponse { response, references }),
            None => None,
        }
    }
}

} // verus!
