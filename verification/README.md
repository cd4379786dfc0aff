# appleappscli

`aacli` scripts the first-party macOS apps (Notes, Reminders, Calendar,
Messages, Photos, Terminal, Mail) through AppleScript.

The library under `src/` is verified with Verus. It holds everything that
decides what is sent to an app and how its answers are read:

- the AppleScript of every command, with each piece of user text escaped so
  that it reads back unchanged inside its string literal. The one exception
  is the Terminal window id of `terminal send`: it is escaped but stands
  unquoted after `whose id is`, where AppleScript expects a number, so a
  window id that is not a number becomes part of the script;
- date and due-date parsing (`YYYY-MM-DD[ HH:MM]`);
- note bodies and titles (markdown rendering by pulldown-cmark, the
  first `# ` heading, else the first `## ` heading, else the file stem as
  title, a leading `<h1>` that is never doubled);
- reading the line-per-record output of the scripts, photo records, and the
  chat and message lines built from the Messages database;
- Cocoa timestamps;
- the file names of exported photos converted with `sips`.

`app/` is the command-line program: argument parsing, running `osascript`,
reading files, stdin and the SQLite databases, and printing.
