//! Listing Terminal windows.
use vstd::prelude::*;
use vstd::string::*;

verus! {

/// The script that lists the Terminal windows, one
/// `<window_id>\t<tab_count>\t<custom_title>\t<tty>` per line (`-` for a
/// missing title).
pub open spec fn list_windows_script() -> Seq<char> {
    "\ntell application \"Terminal\"\n    set out to \"\"\n    repeat with w in windows\n        set wid to id of w as text\n        set tabCount to (count of tabs of w) as text\n        set ti to \"\"\n        try\n            set ti to custom title of selected tab of w\n        end try\n        if ti is missing value or ti is \"\" then set ti to \"-\"\n        set tt to \"\"\n        try\n            set tt to tty of selected tab of w\n        end try\n        if tt is missing value then set tt to \"\"\n        set out to out & wid & tab & tabCount & tab & ti & tab & tt & linefeed\n    end repeat\n    return out\nend tell\n"@
}

/// List Terminal windows: the script whose output holds one
/// `<window_id>\t<tab_count>\t<custom_title>\t<tty>` per line.
pub fn list_windows() -> (script: String)
    ensures
        script@ == list_windows_script(),
{
    let mut out = String::new();
    out.append(
        "\ntell application \"Terminal\"\n    set out to \"\"\n    repeat with w in windows\n        set wid to id of w as text\n        set tabCount to (count of tabs of w) as text\n        set ti to \"\"\n        try\n            set ti to custom title of selected tab of w\n        end try\n        if ti is missing value or ti is \"\" then set ti to \"-\"\n        set tt to \"\"\n        try\n            set tt to tty of selected tab of w\n        end try\n        if tt is missing value then set tt to \"\"\n        set out to out & wid & tab & tabCount & tab & ti & tab & tt & linefeed\n    end repeat\n    return out\nend tell\n",
    );
    out
}

} // verus!
