//! Listing mailboxes.
use vstd::prelude::*;
use vstd::string::*;

verus! {

/// The script that lists every (account, mailbox) pair, one per line, as
/// `<account>\t<mailbox>`.
pub open spec fn list_mailboxes_script() -> Seq<char> {
    "\ntell application \"Mail\"\n    set out to \"\"\n    repeat with a in accounts\n        repeat with m in mailboxes of a\n            set out to out & (name of a) & tab & (name of m) & linefeed\n        end repeat\n    end repeat\n    return out\nend tell\n"@
}

/// List all (account, mailbox) pairs: the script whose output holds one
/// `<account>\t<mailbox>` per line.
pub fn list_mailboxes() -> (script: String)
    ensures
        script@ == list_mailboxes_script(),
{
    let mut out = String::new();
    out.append(
        "\ntell application \"Mail\"\n    set out to \"\"\n    repeat with a in accounts\n        repeat with m in mailboxes of a\n            set out to out & (name of a) & tab & (name of m) & linefeed\n        end repeat\n    end repeat\n    return out\nend tell\n",
    );
    out
}

} // verus!
