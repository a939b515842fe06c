//! Mailboxes and their message counts.
use vstd::prelude::*;

use crate::json::{Json, JsonValue};
use crate::schema::{FromJson, is_object, optional, optional_is, read_optional, read_required, required, required_is};

verus! {

/// Represents the state of a mailbox.
#[derive(Debug, PartialEq)]
pub struct Mailbox {
    /// Name of the mailbox.
    pub name: String,
    /// Count of old messages in the mailbox.,
    pub old_messages: u32,
    /// Count of new messages in the mailbox.
    pub new_messages: u32,
}

impl FromJson for Mailbox {
    open spec fn accepts(j: Json) -> bool {
        &&& j is Object
        &&& required::<String>(j, "name"@)
        &&& required::<u32>(j, "old_messages"@)
        &&& required::<u32>(j, "new_messages"@)
    }

    open spec fn decodes(j: Json, v: Mailbox) -> bool {
        &&& j is Object
        &&& required_is::<String>(j, "name"@, v.name)
        &&& required_is::<u32>(j, "old_messages"@, v.old_messages)
        &&& required_is::<u32>(j, "new_messages"@, v.new_messages)
    }

    fn from_json(j: &JsonValue) -> (r: Option<Mailbox>) {
        if !is_object(j) {
            return None;
        }
        let name = read_required::<String>(j, "name")?;
        let old_messages = read_required::<u32>(j, "old_messages")?;
        let new_messages = read_required::<u32>(j, "new_messages")?;
        Some(Mailbox {
            name,
            old_messages,
            new_messages,
        })
    }
}
} // verus!
