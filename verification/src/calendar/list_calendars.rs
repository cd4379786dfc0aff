//! Listing calendars.
use vstd::prelude::*;
use vstd::string::*;

verus! {

/// The script that lists every calendar's name, one per line.
pub open spec fn list_calendars_script() -> Seq<char> {
    "\ntell application \"Calendar\"\n    set out to \"\"\n    repeat with c in calendars\n        set out to out & (name of c) & linefeed\n    end repeat\n    return out\nend tell\n"@
}

/// List all calendar names accessible to Calendar.app: the script whose
/// output holds one name per line.
pub fn list_calendars() -> (script: String)
    ensures
        script@ == list_calendars_script(),
{
    let mut out = String::new();
    out.append(
        "\ntell application \"Calendar\"\n    set out to \"\"\n    repeat with c in calendars\n        set out to out & (name of c) & linefeed\n    end repeat\n    return out\nend tell\n",
    );
    out
}

} // verus!
