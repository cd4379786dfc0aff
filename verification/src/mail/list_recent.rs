//! Listing recent inbox messages.
use vstd::prelude::*;
use vstd::string::*;
use crate::numbers::{decimal, push_decimal};

verus! {

broadcast use vstd::string::group_string_axioms;

/// The script that lists, for each account's INBOX, its first `limit`
/// messages, one per line, as
/// `<account>\t<message_id>\t<date>\t<sender>\t<subject>`.
pub open spec fn list_recent_script(limit: u32) -> Seq<char> {
    "\nwith timeout of 300 seconds\n    tell application \"Mail\"\n        set out to \"\"\n        repeat with a in accounts\n            set acctName to name of a\n            try\n                set inboxMb to (mailbox \"INBOX\" of a)\n            on error\n                try\n                    set inboxMb to (first mailbox of a whose name is \"INBOX\")\n                on error\n                    set inboxMb to missing value\n                end try\n            end try\n            if inboxMb is not missing value then\n                set msgs to messages of inboxMb\n                set n to count of msgs\n                if n > "@
        + decimal(limit as nat) + " then set n to "@ + decimal(limit as nat)
        + "\n                repeat with i from 1 to n\n                    try\n                        set m to item i of msgs\n                        set mid to (id of m) as text\n                        set mdate to \"\"\n                        try\n                            set mdate to (date received of m) as string\n                        end try\n                        set msender to \"\"\n                        try\n                            set msender to sender of m\n                        end try\n                        set msubject to \"\"\n                        try\n                            set msubject to subject of m\n                        end try\n                        set out to out & acctName & tab & mid & tab & mdate & tab & msender & tab & msubject & linefeed\n                    end try\n                end repeat\n            end if\n        end repeat\n        return out\n    end tell\nend timeout\n"@
}

/// List recent inbox messages across all accounts: the script whose output
/// holds one `<account>\t<message_id>\t<date>\t<sender>\t<subject>` per
/// line, at most `limit` per account.
pub fn list_recent(limit: u32) -> (script: String)
    ensures
        script@ == list_recent_script(limit),
{
    let mut out = String::new();
    out.append(
        "\nwith timeout of 300 seconds\n    tell application \"Mail\"\n        set out to \"\"\n        repeat with a in accounts\n            set acctName to name of a\n            try\n                set inboxMb to (mailbox \"INBOX\" of a)\n            on error\n                try\n                    set inboxMb to (first mailbox of a whose name is \"INBOX\")\n                on error\n                    set inboxMb to missing value\n                end try\n            end try\n            if inboxMb is not missing value then\n                set msgs to messages of inboxMb\n                set n to count of msgs\n                if n > ",
    );
    push_decimal(&mut out, limit as u64);
    out.append(" then set n to ");
    push_decimal(&mut out, limit as u64);
    out.append(
        "\n                repeat with i from 1 to n\n                    try\n                        set m to item i of msgs\n                        set mid to (id of m) as text\n                        set mdate to \"\"\n                        try\n                            set mdate to (date received of m) as string\n                        end try\n                        set msender to \"\"\n                        try\n                            set msender to sender of m\n                        end try\n                        set msubject to \"\"\n                        try\n                            set msubject to subject of m\n                        end try\n                        set out to out & acctName & tab & mid & tab & mdate & tab & msender & tab & msubject & linefeed\n                    end try\n                end repeat\n            end if\n        end repeat\n        return out\n    end tell\nend timeout\n",
    );
    out
}

} // verus!
