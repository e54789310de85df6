//! Loading the registry from the text of its file.
use crate::errors::handler_error::HandlerError;
use crate::json::{json_document, json_error_detail, parse_json};
use crate::models::rag_config::{registry_of, RagServices};
use crate::traits::config_api::ServiceConfigurationHandler;
use vstd::prelude::*;

verus! {

/// The start of every detail that names the file.
pub open spec fn path_prefix(path: Seq<char>) -> Seq<char> {
    "path: "@ + path + ", error: "@
}

/// The registry that a file's text describes, if it is JSON of the right shape.
pub open spec fn registry_text(text: Seq<char>) -> Option<Seq<crate::models::rag_config::RagView>> {
    match json_document(text) {
        Some(v) => registry_of(v),
        None => None,
    }
}

impl ServiceConfigurationHandler for RagServices {
    /// A file that could not be read gives `ReadFileFailed`; one that is not
    /// JSON, or not a registry, gives `FileJsonParseFailed`. Either way nothing
    /// of the file is kept.
    fn init(path: &str, read: Result<String, String>) -> (r: Result<RagServices, HandlerError>)
        ensures
            read matches Err(e) ==> (r matches Err(HandlerError::ReadFileFailed(m)) && m@
                == path_prefix(path@) + e@),
            read matches Ok(text) ==> match registry_text(text@) {
                Some(s) => r matches Ok(x) && x@ == s,
                None => r matches Err(HandlerError::FileJsonParseFailed(m)) && path_prefix(
                    path@,
                ).is_prefix_of(m@),
            },
    {
        let mut m = String::from_str("path: ");
        m.append(path);
        m.append(", error: ");
        let ghost prefix = m@;
        match read {
            Err(e) => {
                m.append(e.as_str());
                Err(HandlerError::ReadFileFailed(m))
            },
            Ok(text) => match parse_json(text.as_str()) {
                Err(e) => {
                    let detail = json_error_detail(&e);
                    m.append(detail.as_str());
                    assert(prefix.is_prefix_of(m@));
                    Err(HandlerError::FileJsonParseFailed(m))
                },
                Ok(v) => match RagServices::from_json(&v) {
                    Some(s) => Ok(s),
                    None => {
                        m.append(
                            "the document is not an object with a `services` array of backends",
                        );
                        assert(prefix.is_prefix_of(m@));
                        Err(HandlerError::FileJsonParseFailed(m))
                    },
                },
            },
        }
    }
}

} // verus!
