//! Export formats and the names of converted files.
use vstd::prelude::*;
use vstd::string::*;
use crate::applescript::{escaped, push_escaped};
use crate::error::Error;
use crate::paths::{extension_of, file_name, file_stem_of, path_file_name, stem_and_extension};
use crate::text::{chars_equal, chars_of, push_char, string_from};

verus! {

broadcast use vstd::string::group_string_axioms;

#[derive(Debug, Clone, Copy, PartialEq, Eq, Structural)]
pub enum ExportFormat {
    /// Export the original file (HEIC, JPG, PNG, etc.) as-is.
    Original,
    /// Export as PNG (uses `sips` to convert from the original).
    Png,
    /// Export as JPG (uses `sips` to convert from the original).
    Jpg,
}

/// The script that exports the original of the photo `id` into the
/// directory `abs_dir`, within a 600 second timeout, and returns the
/// exported file's name.
pub open spec fn export_script_spec(id: Seq<char>, abs_dir: Seq<char>) -> Seq<char> {
    "\nwith timeout of 600 seconds\n    tell application \"Photos\"\n        set p to media item id \""@
        + escaped(id) + "\"\n        set destFolder to (POSIX file \""@ + escaped(abs_dir)
        + "\") as alias\n        export {p} to destFolder with using originals\n        return filename of p\n    end tell\nend timeout\n"@
}

/// The script that exports a photo's original; see `export_script_spec`.
pub fn export_script(id: &str, abs_dir: &str) -> (script: String)
    ensures
        script@ == export_script_spec(id@, abs_dir@),
{
    let mut out = String::new();
    out.append("\nwith timeout of 600 seconds\n    tell application \"Photos\"\n        set p to media item id \"");
    push_escaped(&mut out, id);
    out.append("\"\n        set destFolder to (POSIX file \"");
    push_escaped(&mut out, abs_dir);
    out.append(
        "\") as alias\n        export {p} to destFolder with using originals\n        return filename of p\n    end tell\nend timeout\n",
    );
    out
}

/// The format name that `sips -s format` takes for `format`; none for the
/// original.
pub open spec fn sips_format_spec(format: ExportFormat) -> Option<Seq<char>> {
    match format {
        ExportFormat::Original => None,
        ExportFormat::Png => Some("png"@),
        ExportFormat::Jpg => Some("jpeg"@),
    }
}

/// The `sips` format to convert to, if any.
pub fn sips_format(format: ExportFormat) -> (name: Option<String>)
    ensures
        crate::text::opt_string_view(name) == sips_format_spec(format),
{
    match format {
        ExportFormat::Original => None,
        ExportFormat::Png => Some(string_from("png")),
        ExportFormat::Jpg => Some(string_from("jpeg")),
    }
}

/// The file extension that a `sips` format gets: `jpg` for `jpeg`, the
/// format's own name otherwise.
pub open spec fn target_extension_spec(sips_format: Seq<char>) -> Seq<char> {
    if sips_format == "jpeg"@ {
        "jpg"@
    } else {
        sips_format
    }
}

/// The extension of a file converted to `sips_format`.
pub fn target_extension(sips_format: &str) -> (ext: String)
    ensures
        ext@ == target_extension_spec(sips_format@),
{
    if chars_equal(&chars_of(sips_format), &chars_of("jpeg")) {
        string_from("jpg")
    } else {
        string_from(sips_format)
    }
}

/// The name of the converted file: the original's stem, a dot and the
/// extension.
pub fn converted_file_name(stem: &str, ext: &str) -> (name: String)
    ensures
        name@ == stem@ + seq!['.'] + ext@,
{
    let mut out = string_from(stem);
    push_char(&mut out, '.');
    out.append(ext);
    out
}

/// An extension (lowercased) that already is the format of the target
/// extension: the same text, or `jpeg` where the target is `jpg`, as both
/// name JPEG files.
pub open spec fn same_format(extension: Seq<char>, target: Seq<char>) -> bool {
    extension == target || (target == "jpg"@ && extension == "jpeg"@)
}

/// A file whose extension, lowercased, already is in the target's format
/// needs no conversion.
pub fn already_in_format(extension_lowercase: Option<&str>, ext: &str) -> (same: bool)
    ensures
        same == match crate::text::opt_view(extension_lowercase) {
            Some(e) => same_format(e, ext@),
            None => false,
        },
{
    match extension_lowercase {
        Some(e) => {
            let ec = chars_of(e);
            let tc = chars_of(ext);
            chars_equal(&ec, &tc) || (chars_equal(&tc, &chars_of("jpg")) && chars_equal(
                &ec,
                &chars_of("jpeg"),
            ))
        },
        None => false,
    }
}

/// What `str::to_lowercase` returns for `s`.
pub uninterp spec fn lowercase(s: Seq<char>) -> Seq<char>;

/// `str::to_lowercase`. The contract claims only that the result is a
/// function of the text; Unicode's case mapping is left unsaid.
#[verifier::external_body]
fn to_lowercase(s: &str) -> (out: String)
    ensures
        out@ == lowercase(s@),
{
    s.to_lowercase()
}

/// What is done with the exported file `path` when `sips_format` is asked
/// for: an error when the path names no file; `None` when its extension,
/// lowercased, already is in the target's format; else the name of the
/// converted file, the stem, a dot and the target extension.
pub open spec fn conversion_spec(path: Seq<char>, sips_format: Seq<char>) -> Result<
    Option<Seq<char>>,
    Error,
> {
    match path_file_name(path) {
        None => Err(Error::NoFileStem),
        Some(name) => {
            let ext = target_extension_spec(sips_format);
            let keep = match extension_of(name) {
                Some(e) => same_format(lowercase(e), ext),
                None => false,
            };
            if keep {
                Ok(None)
            } else {
                Ok(Some(file_stem_of(name) + seq!['.'] + ext))
            }
        },
    }
}

/// The name of the file that converting `path` to `sips_format` writes, or
/// `None` when the file already is in that format; see `conversion_spec`.
pub fn conversion_target(path: &str, sips_format: &str) -> (r: Result<Option<String>, Error>)
    ensures
        match conversion_spec(path@, sips_format@) {
            Err(e) => r == Err::<Option<String>, Error>(e),
            Ok(target) => r matches Ok(t) && crate::text::opt_string_view(t) == target,
        },
{
    let name = match file_name(path) {
        Some(n) => n,
        None => {
            return Err(Error::NoFileStem);
        },
    };
    let ext = target_extension(sips_format);
    let (stem, extension) = stem_and_extension(name.as_str());
    let lowered = match &extension {
        Some(e) => Some(to_lowercase(e.as_str())),
        None => None,
    };
    let keep = match &lowered {
        Some(l) => already_in_format(Some(l.as_str()), ext.as_str()),
        None => already_in_format(None, ext.as_str()),
    };
    if keep {
        Ok(None)
    } else {
        Ok(Some(converted_file_name(stem.as_str(), ext.as_str())))
    }
}

} // verus!
