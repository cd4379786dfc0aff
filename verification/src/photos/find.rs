//! Finding photos: the script that asks Photos.app, and reading its answer.
use vstd::prelude::*;
use vstd::string::*;
use crate::applescript::{escaped, push_escaped};
use crate::error::Error;
use crate::numbers::{decimal, parse_i64_chars, parse_i64_spec, push_decimal};
use crate::text::{
    char_views, lines_of, split_chars, split_lines, split_on, string_of, string_of_range,
    trim, trim_bounds,
};

verus! {

broadcast use vstd::string::group_string_axioms;

#[derive(Debug, Clone)]
pub struct PhotoInfo {
    pub id: String,
    pub filename: String,
    pub date: String,
    pub width: i64,
    pub height: i64,
}

#[derive(Debug, Clone)]
pub enum Query {
    /// Filename substring match (e.g. "IMG_0595" matches IMG_0595.HEIC, IMG_0595_edit.jpg).
    Name(String),
    /// 1-based index in the library (matches the "N of M" position Photos shows).
    Index(u64),
    /// Stable photo id (UUID-like string).
    Id(String),
}

/// The fields of a photo: id, filename, date, width, height.
pub type PhotoFields = (Seq<char>, Seq<char>, Seq<char>, i64, i64);

/// The fields of `p`.
pub open spec fn fields_of(p: PhotoInfo) -> PhotoFields {
    (p.id@, p.filename@, p.date@, p.width, p.height)
}

/// The fields of each photo of a sequence.
pub open spec fn all_fields(ps: Seq<PhotoInfo>) -> Seq<PhotoFields> {
    ps.map_values(|p: PhotoInfo| fields_of(p))
}

/// A number, or 0 when the text is not one (`parse().unwrap_or(0)`).
pub open spec fn number_or_zero(s: Seq<char>) -> i64 {
    match parse_i64_spec(s) {
        Some(v) => v,
        None => 0,
    }
}

/// The photo a trimmed answer line describes: its first five tab-separated
/// fields, the last two read as numbers (0 when not a number); `None` for
/// fewer than five fields.
pub open spec fn photo_fields(line: Seq<char>) -> Option<PhotoFields> {
    let parts = split_on(line, '\t');
    if parts.len() < 5 {
        None
    } else {
        Some((parts[0], parts[1], parts[2], number_or_zero(parts[3]), number_or_zero(parts[4])))
    }
}

/// The photos that the answer lines describe, skipping blank lines; the
/// first line with too few fields, trimmed, is the error.
pub open spec fn read_photos(lines: Seq<Seq<char>>) -> Result<Seq<PhotoFields>, Seq<char>>
    decreases lines.len(),
{
    if lines.len() == 0 {
        Ok(Seq::empty())
    } else {
        let t = trim(lines[0]);
        if t.len() == 0 {
            read_photos(lines.drop_first())
        } else {
            match photo_fields(t) {
                None => Err(t),
                Some(p) => match read_photos(lines.drop_first()) {
                    Ok(ps) => Ok(seq![p] + ps),
                    Err(e) => Err(e),
                },
            }
        }
    }
}

/// `done` followed by the outcome `r`.
pub open spec fn after(done: Seq<PhotoFields>, r: Result<Seq<PhotoFields>, Seq<char>>) -> Result<
    Seq<PhotoFields>,
    Seq<char>,
> {
    match r {
        Ok(ps) => Ok(done + ps),
        Err(e) => Err(e),
    }
}

/// The photos of the answer that the `find` script returns (one
/// `<id>\t<filename>\t<date>\t<width>\t<height>` per line).
pub fn photo_infos(stdout: &str) -> (r: Result<Vec<PhotoInfo>, Error>)
    ensures
        match read_photos(lines_of(stdout@)) {
            Ok(ps) => r matches Ok(infos) && all_fields(infos@) == ps,
            Err(line) => r matches Err(Error::UnexpectedPhotoLine(l)) && l@ == line,
        },
{
    let lines = split_lines(stdout);
    let ghost all = char_views(lines@);
    let mut out: Vec<PhotoInfo> = Vec::new();
    let mut i: usize = 0;
    assert(all.skip(0) =~= all);
    assert(all_fields(out@) =~= Seq::<PhotoFields>::empty());
    assert(after(Seq::empty(), read_photos(all)) =~= read_photos(all)) by {
        match read_photos(all) {
            Ok(ps) => {
                assert(Seq::<PhotoFields>::empty() + ps =~= ps);
            },
            Err(_) => {},
        }
    }
    while i < lines.len()
        invariant
            all == char_views(lines@),
            all == lines_of(stdout@),
            0 <= i <= lines.len(),
            read_photos(all) == after(all_fields(out@), read_photos(all.skip(i as int))),
        decreases lines.len() - i,
    {
        let line = &lines[i];
        let ghost rest = all.skip(i + 1);
        assert(all.skip(i as int)[0] == line@);
        assert(all.skip(i as int).drop_first() =~= rest);
        let (a, b) = trim_bounds(line, 0, line.len());
        assert(line@.subrange(0, line@.len() as int) =~= line@);
        let ghost t = trim(line@);
        if a < b {
            let parts = split_chars(line, a, b, '\t');
            let ghost pv = char_views(parts@);
            if parts.len() < 5 {
                return Err(Error::UnexpectedPhotoLine(string_of_range(line, a, b)));
            }
            assert(pv[0] == parts@[0]@ && pv[1] == parts@[1]@ && pv[2] == parts@[2]@);
            assert(pv[3] == parts@[3]@ && pv[4] == parts@[4]@);
            let width = match parse_i64_chars(&parts[3]) {
                Some(w) => w,
                None => 0,
            };
            let height = match parse_i64_chars(&parts[4]) {
                Some(h) => h,
                None => 0,
            };
            let info = PhotoInfo {
                id: string_of(&parts[0]),
                filename: string_of(&parts[1]),
                date: string_of(&parts[2]),
                width,
                height,
            };
            let ghost p = fields_of(info);
            let ghost done = all_fields(out@);
            out.push(info);
            proof {
                assert(photo_fields(t) == Some(p));
                assert(all_fields(out@) =~= done.push(p));
                match read_photos(rest) {
                    Ok(ps) => {
                        assert(done + (seq![p] + ps) =~= done.push(p) + ps);
                    },
                    Err(_) => {},
                }
            }
        }
        i = i + 1;
    }
    proof {
        assert(all.skip(lines.len() as int) =~= Seq::<Seq<char>>::empty());
        assert(all_fields(out@) + Seq::<PhotoFields>::empty() =~= all_fields(out@));
    }
    Ok(out)
}

/// The line that returns one photo's fields.
pub open spec fn photo_fields_line() -> Seq<char> {
    "\n        return (id of p) & tab & (filename of p) & tab & (date of p as \u{ab}class isot\u{bb} as string) & tab & (width of p as text) & tab & (height of p as text)\n    end tell\nend timeout\n"@
}

/// The script that looks the query up in Photos.app, within a 600 second
/// timeout, and returns one `<id>\t<filename>\t<date>\t<width>\t<height>`
/// line per photo: the first `limit` whose filename contains the name, the
/// photo at the index, or the photo with the id.
pub open spec fn find_script(query: Query, limit: u32) -> Seq<char> {
    match query {
        Query::Name(name) => "\nwith timeout of 600 seconds\n    tell application \"Photos\"\n        set out to \"\"\n        set hits to (media items whose filename contains \""@
            + escaped(name@) + "\")\n        set n to count of hits\n        if n > "@ + decimal(
            limit as nat,
        ) + " then set n to "@ + decimal(limit as nat)
            + "\n        repeat with i from 1 to n\n            set p to item i of hits\n            set out to out & (id of p) & tab & (filename of p) & tab & (date of p as \u{ab}class isot\u{bb} as string) & tab & (width of p as text) & tab & (height of p as text) & linefeed\n        end repeat\n        return out\n    end tell\nend timeout\n"@,
        Query::Index(idx) => "\nwith timeout of 600 seconds\n    tell application \"Photos\"\n        set p to media item "@
            + decimal(idx as nat) + photo_fields_line(),
        Query::Id(id) => "\nwith timeout of 600 seconds\n    tell application \"Photos\"\n        set p to media item id \""@
            + escaped(id@) + "\""@ + photo_fields_line(),
    }
}

/// Find photos matching the query, up to `limit` results for a name: the
/// script whose answer `photo_infos` reads.
pub fn find(query: &Query, limit: u32) -> (script: String)
    ensures
        script@ == find_script(*query, limit),
{
    let mut out = String::new();
    match query {
        Query::Name(name) => {
            out.append(
                "\nwith timeout of 600 seconds\n    tell application \"Photos\"\n        set out to \"\"\n        set hits to (media items whose filename contains \"",
            );
            push_escaped(&mut out, name.as_str());
            out.append("\")\n        set n to count of hits\n        if n > ");
            push_decimal(&mut out, limit as u64);
            out.append(" then set n to ");
            push_decimal(&mut out, limit as u64);
            out.append(
                "\n        repeat with i from 1 to n\n            set p to item i of hits\n            set out to out & (id of p) & tab & (filename of p) & tab & (date of p as \u{ab}class isot\u{bb} as string) & tab & (width of p as text) & tab & (height of p as text) & linefeed\n        end repeat\n        return out\n    end tell\nend timeout\n",
            );
        },
        Query::Index(idx) => {
            out.append("\nwith timeout of 600 seconds\n    tell application \"Photos\"\n        set p to media item ");
            push_decimal(&mut out, *idx);
            out.append(
                "\n        return (id of p) & tab & (filename of p) & tab & (date of p as \u{ab}class isot\u{bb} as string) & tab & (width of p as text) & tab & (height of p as text)\n    end tell\nend timeout\n",
            );
        },
        Query::Id(id) => {
            out.append("\nwith timeout of 600 seconds\n    tell application \"Photos\"\n        set p to media item id \"");
            push_escaped(&mut out, id.as_str());
            out.append("\"");
            out.append(
                "\n        return (id of p) & tab & (filename of p) & tab & (date of p as \u{ab}class isot\u{bb} as string) & tab & (width of p as text) & tab & (height of p as text)\n    end tell\nend timeout\n",
            );
        },
    }
    out
}

} // verus!
