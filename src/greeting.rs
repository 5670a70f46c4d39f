//! Greeting messages and the validation of a name.
use vstd::prelude::*;
use vstd::string::StringExecFns;
use crate::text::{is_blank, is_blank_spec};

verus! {

/// Longest name accepted by validation, in bytes of UTF-8.
pub const MAX_NAME_BYTES: usize = 100;

/// The greeting for `name`.
pub open spec fn greeting_spec(name: Seq<char>) -> Seq<char> {
    "Hello, "@ + name + "! You've been greeted from Rust!"@
}

/// Message of the error for a name that is empty after trimming.
pub open spec fn empty_name_message() -> Seq<char> {
    "Name cannot be empty"@
}

/// Message of the error for a name that is longer than `MAX_NAME_BYTES`.
pub open spec fn long_name_message() -> Seq<char> {
    "Name is too long (max 100 characters)"@
}

/// Number of bytes that `name` takes in UTF-8, as `str::len` reports it.
pub open spec fn byte_len(name: Seq<char>) -> int {
    (vstd::utf8::encode_utf8(name).len() as usize) as int
}

/// What validation of `name` gives: `None` when it is accepted, else the message.
pub open spec fn name_error(name: Seq<char>) -> Option<Seq<char>> {
    if is_blank_spec(name) {
        Some(empty_name_message())
    } else if byte_len(name) > MAX_NAME_BYTES {
        Some(long_name_message())
    } else {
        None
    }
}

/// A message addressed to one name.
#[derive(Clone, Debug)]
pub struct GreetingMessage {
    pub name: String,
}

impl GreetingMessage {
    /// A message for `name`.
    pub fn new(name: &str) -> (r: GreetingMessage)
        ensures
            r.name@ == name@,
    {
        GreetingMessage { name: name.to_owned() }
    }

    /// The greeting text; every name is accepted here, also an empty one.
    pub fn greet(&self) -> (r: String)
        ensures
            r@ == greeting_spec(self.name@),
    {
        proof {
            reveal_strlit("Hello, ");
            reveal_strlit("! You've been greeted from Rust!");
        }
        let mut out = "Hello, ".to_owned();
        out.append(self.name.as_str());
        out.append("! You've been greeted from Rust!");
        out
    }

    /// Checks the name: not blank after trimming, and at most `MAX_NAME_BYTES` long.
    pub fn validate_name(&self) -> (r: Result<(), String>)
        ensures
            match name_error(self.name@) {
                None => r is Ok,
                Some(m) => r is Err && r->Err_0@ == m,
            },
    {
        proof {
            reveal_strlit("Name cannot be empty");
            reveal_strlit("Name is too long (max 100 characters)");
        }
        if is_blank(self.name.as_str()) {
            Err("Name cannot be empty".to_owned())
        } else if self.name.as_str().len() > MAX_NAME_BYTES {
            Err("Name is too long (max 100 characters)".to_owned())
        } else {
            Ok(())
        }
    }
}

/// The greeting for `name`.
pub fn format_greeting(name: &str) -> (r: String)
    ensures
        r@ == greeting_spec(name@),
{
    let message = GreetingMessage::new(name);
    message.greet()
}

/// Whether `name` passes validation.
pub fn is_valid_name(name: &str) -> (r: bool)
    ensures
        r == (name_error(name@) is None),
{
    let message = GreetingMessage::new(name);
    message.validate_name().is_ok()
}

/// The `greet` command: the greeting for `name`, which is not validated.
pub fn greet(name: &str) -> (r: String)
    ensures
        r@ == greeting_spec(name@),
{
    format_greeting(name)
}

} // verus!
