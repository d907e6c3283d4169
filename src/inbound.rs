//! Inbound requests, read from indented key/value text.

use vstd::prelude::*;
use vstd::string::*;
use crate::compression::{Compression, is_registered, name_index};
use crate::text::same_text;

verus! {

/// A request from the client.
#[derive(Debug, PartialEq, Eq)]
pub enum Request {
    Status,
    Kill,
    Clone { source: String, destination: String, name: String, compression: Compression },
    CancelClone { id: String },
    Restore { source: String, destination: String },
    CancelRestore { id: String },
    DeleteImage { file: String },
}

/// The string value of top-level key `key` in the first document of a
/// message; `None` where the text does not parse, has no document, or the
/// value is missing or not a string.
pub uninterp spec fn yaml_field(text: Seq<char>, key: Seq<char>) -> Option<Seq<char>>;

/// Relies on yaml-rust's `YamlLoader::load_from_str`, indexing a `Yaml` by
/// key and `Yaml::as_str`: the string value of a top-level key of the
/// first document.
#[verifier::external_body]
fn message_field(text: &str, key: &str) -> (r: Option<String>)
    ensures
        match yaml_field(text@, key@) {
            Some(v) => r matches Some(s) && s@ == v,
            None => r is None,
        },
{
    let docs = yaml_rust::YamlLoader::load_from_str(text).ok()?;
    docs.into_iter().next()?[key].as_str().map(|s| s.to_owned())
}

/// All of the clone fields are present.
pub open spec fn has_clone_fields(text: Seq<char>) -> bool {
    yaml_field(text, "source"@) is Some && yaml_field(text, "destination"@) is Some && yaml_field(text, "name"@) is Some
}

/// `r` is the request that `text` holds, as [`Request::parse`] reads it.
pub open spec fn parsed(text: Seq<char>, r: Option<Request>) -> bool {
    let ty = yaml_field(text, "type"@);
    let field = |k: Seq<char>| yaml_field(text, k);
    if ty == Some("status-request"@) {
        r matches Some(Request::Status)
    } else if ty == Some("kill-request"@) {
        r matches Some(Request::Kill)
    } else if ty == Some("clone"@) && has_clone_fields(text) {
        match field("compression"@) {
            Some(c) if name_index(c) is None => r is None,
            _ => r matches Some(Request::Clone { source, destination, name, compression })
                && Some(source@) == field("source"@) && Some(destination@) == field("destination"@)
                && Some(name@) == field("name"@) && is_registered(compression, match field("compression"@) {
                    Some(c) => name_index(c)->0,
                    None => 0,
                }),
        }
    } else if ty == Some("restore"@) && field("source"@) is Some && field("destination"@) is Some {
        r matches Some(Request::Restore { source, destination }) && Some(source@) == field("source"@)
            && Some(destination@) == field("destination"@)
    } else if ty == Some("cancel-clone"@) && field("id"@) is Some {
        r matches Some(Request::CancelClone { id }) && Some(id@) == field("id"@)
    } else if ty == Some("cancel-restore"@) && field("id"@) is Some {
        r matches Some(Request::CancelRestore { id }) && Some(id@) == field("id"@)
    } else if ty == Some("delete-clone"@) && field("file"@) is Some {
        r matches Some(Request::DeleteImage { file }) && Some(file@) == field("file"@)
    } else {
        r is None
    }
}

proof fn lemma_kinds_distinct()
    ensures
        "clone"@ != "restore"@,
        "clone"@ != "cancel-clone"@,
        "clone"@ != "cancel-restore"@,
        "clone"@ != "delete-clone"@,
        "restore"@ != "cancel-clone"@,
        "restore"@ != "cancel-restore"@,
        "restore"@ != "delete-clone"@,
        "cancel-clone"@ != "cancel-restore"@,
        "cancel-clone"@ != "delete-clone"@,
        "cancel-restore"@ != "delete-clone"@,
{
    reveal_strlit("clone");
    reveal_strlit("restore");
    reveal_strlit("cancel-clone");
    reveal_strlit("cancel-restore");
    reveal_strlit("delete-clone");
    assert("clone"@[0] != "restore"@[0]);
    assert("clone"@.len() != "cancel-clone"@.len());
    assert("clone"@.len() != "cancel-restore"@.len());
    assert("clone"@[0] != "delete-clone"@[0]);
    assert("restore"@.len() != "cancel-clone"@.len());
    assert("restore"@.len() != "cancel-restore"@.len());
    assert("restore"@.len() != "delete-clone"@.len());
    assert("cancel-clone"@.len() != "cancel-restore"@.len());
    assert("cancel-clone"@[0] != "delete-clone"@[0]);
    assert("cancel-restore"@.len() != "delete-clone"@.len());
}

impl Request {
    /// Reads a request from message text; any message that is not a
    /// well-formed request gives `None`. A clone without `compression` uses
    /// the default compressor; one naming an unknown compressor is refused.
    pub fn parse(text: &str) -> (r: Option<Request>)
        ensures
            parsed(text@, r),
    {
        proof {
            lemma_kinds_distinct();
        }
        let ty = match message_field(text, "type") {
            Some(t) => t,
            None => return None,
        };
        if same_text(ty.as_str(), "status-request") {
            return Some(Request::Status);
        }
        if same_text(ty.as_str(), "kill-request") {
            return Some(Request::Kill);
        }
        if same_text(ty.as_str(), "clone") {
            match (message_field(text, "source"), message_field(text, "destination"), message_field(text, "name")) {
                (Some(source), Some(destination), Some(name)) => {
                    let compression = match message_field(text, "compression") {
                        Some(c) => match Compression::from_name(c.as_str()) {
                            Ok(z) => z,
                            Err(_) => return None,
                        },
                        None => Compression::default(),
                    };
                    return Some(Request::Clone { source, destination, name, compression });
                },
                _ => return None,
            }
        }
        if same_text(ty.as_str(), "restore") {
            return match (message_field(text, "source"), message_field(text, "destination")) {
                (Some(source), Some(destination)) => Some(Request::Restore { source, destination }),
                _ => None,
            };
        }
        if same_text(ty.as_str(), "cancel-clone") {
            return match message_field(text, "id") {
                Some(id) => Some(Request::CancelClone { id }),
                None => None,
            };
        }
        if same_text(ty.as_str(), "cancel-restore") {
            return match message_field(text, "id") {
                Some(id) => Some(Request::CancelRestore { id }),
                None => None,
            };
        }
        if same_text(ty.as_str(), "delete-clone") {
            return match message_field(text, "file") {
                Some(file) => Some(Request::DeleteImage { file }),
                None => None,
            };
        }
        None
    }
}

} // verus!
