//! The registry of known backends.
use crate::json::{
    array_items, field, json_node, object_entries, read_str_member, str_member, JsonNodeView,
};
use serde_json::Value;
use vstd::prelude::*;

verus! {

/// A backend: its name and network address.
#[derive(Debug, PartialEq, Eq)]
pub struct Rag {
    pub rag_name: String,
    pub rag_ip: String,
    pub rag_port: String,
}

/// A backend, as a value.
pub struct RagView {
    pub rag_name: Seq<char>,
    pub rag_ip: Seq<char>,
    pub rag_port: Seq<char>,
}

impl View for Rag {
    type V = RagView;

    open spec fn view(&self) -> RagView {
        RagView { rag_name: self.rag_name@, rag_ip: self.rag_ip@, rag_port: self.rag_port@ }
    }
}

impl Clone for Rag {
    fn clone(&self) -> (r: Self)
        ensures
            r == *self,
    {
        Rag {
            rag_name: self.rag_name.clone(),
            rag_ip: self.rag_ip.clone(),
            rag_port: self.rag_port.clone(),
        }
    }
}

impl Rag {
    /// `host:port`.
    pub fn get_full_path(&self) -> (r: String)
        ensures
            r@ == self.rag_ip@ + ":"@ + self.rag_port@,
    {
        let mut r = self.rag_ip.clone();
        r.append(":");
        r.append(self.rag_port.as_str());
        r
    }

    /// `name: [host:port]`.
    pub fn get_service_detail(&self) -> (r: String)
        ensures
            r@ == self.rag_name@ + ": ["@ + self.rag_ip@ + ":"@ + self.rag_port@ + "]"@,
    {
        let mut r = self.rag_name.clone();
        r.append(": [");
        r.append(self.rag_ip.as_str());
        r.append(":");
        r.append(self.rag_port.as_str());
        r.append("]");
        r
    }
}

/// The registry: backends in the order they were listed.
#[derive(Debug, PartialEq, Eq)]
pub struct RagServices {
    pub services: Vec<Rag>,
}

impl View for RagServices {
    type V = Seq<RagView>;

    open spec fn view(&self) -> Seq<RagView> {
        self.services@.map_values(|r: Rag| r@)
    }
}

/// The first backend of `services` named `name`; a later one of the same name
/// is shadowed.
pub open spec fn service_named(services: Seq<RagView>, name: Seq<char>) -> Option<RagView>
    decreases services.len(),
{
    if services.len() == 0 {
        None
    } else if services[0].rag_name == name {
        Some(services[0])
    } else {
        service_named(services.drop_first(), name)
    }
}

impl RagServices {
    /// The first backend named `service_name`, or `None` where there is none.
    pub fn get_service_by_name(&self, service_name: &str) -> (r: Option<Rag>)
        ensures
            r matches Some(x) ==> service_named(self@, service_name@) == Some(x@),
            r is None ==> service_named(self@, service_name@) is None,
    {
        let wanted = String::from_str(service_name);
        let mut i: usize = 0;
        assert(self@.skip(0) =~= self@);
        while i < self.services.len()
            invariant
                i <= self.services.len(),
                wanted@ == service_name@,
                service_named(self@, service_name@) == service_named(
                    self@.skip(i as int),
                    service_name@,
                ),
            decreases self.services.len() - i,
        {
            assert(self@.skip(i as int)[0] == self.services@[i as int]@);
            if self.services[i].rag_name == wanted {
                return Some(self.services[i].clone());
            }
            assert(self@.skip(i as int).drop_first() =~= self@.skip(i + 1));
            i = i + 1;
        }
        assert(self@.skip(i as int).len() == 0);
        None
    }
}

/// The backend that a document describes: an object with the text members
/// `rag_name`, `rag_ip` and `rag_port`.
pub open spec fn rag_of(v: Value) -> Option<RagView> {
    match json_node(v) {
        JsonNodeView::Object(m) => match (
            str_member(m, "rag_name"@),
            str_member(m, "rag_ip"@),
            str_member(m, "rag_port"@),
        ) {
            (Some(rag_name), Some(rag_ip), Some(rag_port)) => Some(
                RagView { rag_name, rag_ip, rag_port },
            ),
            _ => None,
        },
        _ => None,
    }
}

/// The backends that the elements of an array describe, if each describes one.
pub open spec fn rags_of(items: Seq<Value>) -> Option<Seq<RagView>> {
    if forall|i: int| 0 <= i < items.len() ==> (#[trigger] rag_of(items[i])) is Some {
        Some(items.map_values(|x: Value| rag_of(x)->0))
    } else {
        None
    }
}

/// The registry that a document describes: an object whose `services` member is
/// an array of backends. Anything else describes none, so no registry is ever
/// taken in part.
pub open spec fn registry_of(v: Value) -> Option<Seq<RagView>> {
    match json_node(v) {
        JsonNodeView::Object(m) => match field(m, "services"@) {
            Some(s) => match json_node(s) {
                JsonNodeView::Array(items) => rags_of(items),
                _ => None,
            },
            None => None,
        },
        _ => None,
    }
}

/// A document that is not an object, or has no `services` member, or whose
/// `services` member is not an array, describes no registry: loading it fails
/// as a whole and keeps nothing.
pub proof fn lemma_registry_needs_services(v: Value)
    requires
        !(json_node(v) is Object) || !json_node(v)->Object_0.contains_key("services"@) || !(
        json_node(json_node(v)->Object_0["services"@]) is Array),
    ensures
        registry_of(v) is None,
{
}

/// A registry is read whole: one entry that is not a backend rejects it.
pub proof fn lemma_registry_all_or_nothing(v: Value, items: Seq<Value>, i: int)
    requires
        json_node(v) is Object,
        field(json_node(v)->Object_0, "services"@) matches Some(s) && json_node(s)
            == JsonNodeView::Array(items),
        0 <= i < items.len(),
        rag_of(items[i]) is None,
    ensures
        registry_of(v) is None,
{
}

/// The backend that a document describes.
fn read_rag(v: &Value) -> (r: Option<Rag>)
    ensures
        r matches Some(x) ==> rag_of(*v) == Some(x@),
        r is None ==> rag_of(*v) is None,
{
    let es = match object_entries(v) {
        Some(es) => es,
        None => return None,
    };
    let ghost m = json_node(*v)->Object_0;
    let rag_name = read_str_member(&es, "rag_name", Ghost(m));
    let rag_ip = read_str_member(&es, "rag_ip", Ghost(m));
    let rag_port = read_str_member(&es, "rag_port", Ghost(m));
    match (rag_name, rag_ip, rag_port) {
        (Some(rag_name), Some(rag_ip), Some(rag_port)) => Some(Rag { rag_name, rag_ip, rag_port }),
        _ => None,
    }
}

impl RagServices {
    /// The registry that a document describes, or `None` where the document is
    /// not an object with a `services` array of backends.
    pub fn from_json(v: &Value) -> (r: Option<RagServices>)
        ensures
            r matches Some(s) ==> registry_of(*v) == Some(s@),
            r is None ==> registry_of(*v) is None,
    {
        let es = match object_entries(v) {
            Some(es) => es,
            None => return None,
        };
        let ghost m = json_node(*v)->Object_0;
        let listed = match crate::json::find_field(&es, "services", Ghost(m)) {
            Some(x) => x,
            None => return None,
        };
        let items = match array_items(listed) {
            Some(items) => items,
            None => return None,
        };
        let mut services: Vec<Rag> = Vec::new();
        let mut i: usize = 0;
        while i < items.len()
            invariant
                i <= items.len(),
                services@.len() == i,
                json_node(*v) == JsonNodeView::Object(m),
                field(m, "services"@) == Some(*listed),
                json_node(*listed) == JsonNodeView::Array(items@),
                forall|j: int| 0 <= j < i ==> rag_of(#[trigger] items@[j]) == Some(services@[j]@),
            decreases items.len() - i,
        {
            match read_rag(&items[i]) {
                Some(x) => services.push(x),
                None => {
                    assert(rag_of(items@[i as int]) is None);
                    return None;
                },
            }
            i = i + 1;
        }
        assert(forall|j: int| 0 <= j < items@.len() ==> (#[trigger] rag_of(items@[j])) is Some);
        let r = RagServices { services };
        assert(r@ =~= items@.map_values(|x: Value| rag_of(x)->0));
        Some(r)
    }
}

} // verus!
