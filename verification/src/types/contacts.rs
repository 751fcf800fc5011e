//! Data types for the contacts namespace.

use vstd::prelude::*;
use crate::classify::{parse_error_tag, spec_error_tag};
use crate::client_helpers::ErrorSchema;
use crate::text::{str_eq, view_strings};

verus! {

/// The strings in the array at `/error/contacts_not_found` of a JSON
/// document, if the document parses and carries an array of strings there.
pub uninterp spec fn spec_contacts_not_found(body: Seq<char>) -> Option<Seq<Seq<char>>>;

/// Relies on `serde_json::from_str` and `serde_json::Value::pointer` /
/// `Value::as_array` / `Value::as_str`: returns the strings in the array at
/// `/error/contacts_not_found` of the JSON document `body`, or `None` if
/// `body` does not parse or holds anything but an array of strings there.
/// The result depends on `body` alone.
#[verifier::external_body]
fn parse_contacts_not_found(body: &str) -> (r: Option<Vec<String>>)
    ensures
        match r {
            Some(v) => spec_contacts_not_found(body@) == Some(view_strings(v@)),
            None => spec_contacts_not_found(body@) is None,
        },
{
    let v: serde_json::Value = match serde_json::from_str(body) {
        Ok(v) => v,
        Err(_) => return None,
    };
    let arr = v.pointer("/error/contacts_not_found")?.as_array()?;
    arr.iter().map(|x| Some(x.as_str()?.to_owned())).collect::<Option<Vec<String>>>()
}

/// Argument to delete manually added contacts.
#[derive(Debug, Clone, PartialEq, Eq)]
pub struct DeleteManualContactsArg {
    /// List of manually added contacts to be deleted.
    pub email_addresses: Vec<String>,
}

impl DeleteManualContactsArg {
    /// Make a new argument from the list of contacts to be deleted.
    pub fn new(email_addresses: Vec<String>) -> (r: DeleteManualContactsArg)
        ensures
            r.email_addresses == email_addresses,
    {
        DeleteManualContactsArg { email_addresses }
    }
}

/// Error deleting manually added contacts.
#[derive(Debug, Clone, PartialEq, Eq)]
pub enum DeleteManualContactsError {
    /// Can't delete contacts from this list. Make sure the list only has
    /// manually added contacts. The deletion was cancelled.
    ContactsNotFound(Vec<String>),
    /// Catch-all used for unrecognized values returned from the server.
    Other,
}

impl ErrorSchema for DeleteManualContactsError {
    /// A failure body tagged `contacts_not_found` denotes that variant with
    /// exactly the listed contacts; any other tag denotes the catch-all.
    open spec fn spec_parses_to(body: Seq<char>, e: DeleteManualContactsError) -> bool {
        match spec_error_tag(body) {
            Some(tag) => {
                if tag == "contacts_not_found"@ {
                    match spec_contacts_not_found(body) {
                        Some(emails) => (e matches DeleteManualContactsError::ContactsNotFound(v)
                            && view_strings(v@) == emails),
                        None => false,
                    }
                } else {
                    e is Other
                }
            },
            None => false,
        }
    }

    /// A body with no error tag, or one tagged `contacts_not_found` without
    /// its list of contacts, denotes no value.
    open spec fn spec_parse_fails(body: Seq<char>) -> bool {
        match spec_error_tag(body) {
            Some(tag) => tag == "contacts_not_found"@ && spec_contacts_not_found(body) is None,
            None => true,
        }
    }

    fn parse_api_error(body: &str) -> (r: Option<DeleteManualContactsError>) {
        let tag = match parse_error_tag(body) {
            Some(t) => t,
            None => {
                return None;
            },
        };
        if str_eq(tag.as_str(), "contacts_not_found") {
            match parse_contacts_not_found(body) {
                Some(emails) => Some(DeleteManualContactsError::ContactsNotFound(emails)),
                None => None,
            }
        } else {
            Some(DeleteManualContactsError::Other)
        }
    }
}

} // verus!
