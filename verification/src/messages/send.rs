//! Sending a message.
use vstd::prelude::*;
use vstd::string::*;
use crate::applescript::{escaped, push_escaped};

verus! {

broadcast use vstd::string::group_string_axioms;

/// The script that sends `text` to `recipient`, over iMessage when there is
/// an iMessage service, else over the first service.
pub open spec fn send_message_script(recipient: Seq<char>, text: Seq<char>) -> Seq<char> {
    "\ntell application \"Messages\"\n    set targetService to missing value\n    repeat with s in services\n        if service type of s is iMessage then\n            set targetService to s\n            exit repeat\n        end if\n    end repeat\n    if targetService is missing value then\n        set targetService to first service\n    end if\n    set targetBuddy to buddy \""@
        + escaped(recipient) + "\" of targetService\n    send \""@ + escaped(text)
        + "\" to targetBuddy\nend tell\n"@
}

/// Send a message via Messages.app: the script that sends it.
/// Recipient may be a phone number (E.164 preferred), email, or chat handle.
pub fn send_message(recipient: &str, text: &str) -> (script: String)
    ensures
        script@ == send_message_script(recipient@, text@),
{
    let mut out = String::new();
    out.append(
        "\ntell application \"Messages\"\n    set targetService to missing value\n    repeat with s in services\n        if service type of s is iMessage then\n            set targetService to s\n            exit repeat\n        end if\n    end repeat\n    if targetService is missing value then\n        set targetService to first service\n    end if\n    set targetBuddy to buddy \"",
    );
    push_escaped(&mut out, recipient);
    out.append("\" of targetService\n    send \"");
    push_escaped(&mut out, text);
    out.append("\" to targetBuddy\nend tell\n");
    out
}

} // verus!
