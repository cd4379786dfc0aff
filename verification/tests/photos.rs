use appleappscli::applescript::escape_string;
use appleappscli::error::Error;
use appleappscli::photos::export::{
    ExportFormat, already_in_format, conversion_target, converted_file_name, sips_format, target_extension,
};
use appleappscli::photos::export::export_script;
use appleappscli::photos::find::photo_infos;
use appleappscli::photos::photosdb::{index_offset, name_pattern};
use appleappscli::photos::{Query, build_query, find};

#[test]
fn photo_answers_are_read_line_by_line() {
    let out = "ID-1\tIMG_0595.HEIC\t2026-05-16T10:00:00\t4032\t3024\n\n  ID-2\tb.jpg\tdate\tx\t-7  \n";
    let photos = photo_infos(out).unwrap();
    assert_eq!(photos.len(), 2);
    assert_eq!((photos[0].id.as_str(), photos[0].filename.as_str(), photos[0].width, photos[0].height), ("ID-1", "IMG_0595.HEIC", 4032, 3024));
    assert_eq!((photos[1].id.as_str(), photos[1].date.as_str(), photos[1].width, photos[1].height), ("ID-2", "date", 0, -7));
    assert_eq!(photo_infos("").unwrap().len(), 0);
    match photo_infos("ok\ta\tb\t1\t2\n  bad\tline \nlater\t\t\t\t") {
        Err(Error::UnexpectedPhotoLine(l)) => assert_eq!(l, "bad\tline"),
        other => panic!("unexpected {other:?}"),
    }
}

#[test]
fn queries_need_exactly_one_key() {
    assert!(matches!(build_query(Some("IMG".into()), None, None), Ok(Query::Name(n)) if n == "IMG"));
    assert!(matches!(build_query(None, Some(28301), None), Ok(Query::Index(28301))));
    assert!(matches!(build_query(None, None, Some("F1".into())), Ok(Query::Id(i)) if i == "F1"));
    assert!(matches!(build_query(None, None, None), Err(Error::QueryNotUnique)));
    assert!(matches!(build_query(Some("a".into()), Some(1), None), Err(Error::QueryNotUnique)));
}

#[test]
fn find_scripts_match_the_templates() {
    let lit = escape_string("IMG_\"0595");
    let limit = 5u32;
    let expected = format!(
        r#"
with timeout of 600 seconds
    tell application "Photos"
        set out to ""
        set hits to (media items whose filename contains "{lit}")
        set n to count of hits
        if n > {limit} then set n to {limit}
        repeat with i from 1 to n
            set p to item i of hits
            set out to out & (id of p) & tab & (filename of p) & tab & (date of p as «class isot» as string) & tab & (width of p as text) & tab & (height of p as text) & linefeed
        end repeat
        return out
    end tell
end timeout
"#,
        limit = limit
    );
    assert_eq!(find(&Query::Name("IMG_\"0595".into()), limit), expected);
    let idx = 28301u64;
    assert_eq!(
        find(&Query::Index(idx), 1),
        format!(
            r#"
with timeout of 600 seconds
    tell application "Photos"
        set p to media item {idx}
        return (id of p) & tab & (filename of p) & tab & (date of p as «class isot» as string) & tab & (width of p as text) & tab & (height of p as text)
    end tell
end timeout
"#
        )
    );
    let lit = escape_string("F1\\D2");
    assert_eq!(
        find(&Query::Id("F1\\D2".into()), 1),
        format!(
            r#"
with timeout of 600 seconds
    tell application "Photos"
        set p to media item id "{lit}"
        return (id of p) & tab & (filename of p) & tab & (date of p as «class isot» as string) & tab & (width of p as text) & tab & (height of p as text)
    end tell
end timeout
"#
        )
    );
}

#[test]
fn export_names() {
    assert_eq!(sips_format(ExportFormat::Original), None);
    assert_eq!(sips_format(ExportFormat::Png).as_deref(), Some("png"));
    assert_eq!(sips_format(ExportFormat::Jpg).as_deref(), Some("jpeg"));
    assert_eq!(target_extension("jpeg"), "jpg");
    assert_eq!(target_extension("png"), "png");
    assert_eq!(converted_file_name("IMG_0595", "jpg"), "IMG_0595.jpg");
    assert!(already_in_format(Some("jpg"), "jpg"));
    assert!(!already_in_format(Some("heic"), "jpg"));
    assert!(!already_in_format(None, "png"));
    assert!(already_in_format(Some("jpeg"), "jpg"));
    assert!(!already_in_format(Some("jpeg"), "png"));
    assert!(!already_in_format(Some("jpg"), "jpeg"));
}

#[test]
fn library_lookup_keys() {
    assert_eq!(name_pattern("IMG_0595"), "%IMG_0595%");
    assert_eq!(index_offset(0), None);
    assert_eq!(index_offset(28301), Some(28300));
    let id_lit = escape_string("F1\"x");
    let dir_lit = escape_string("/tmp/out dir");
    assert_eq!(
        export_script("F1\"x", "/tmp/out dir"),
        format!(
            r#"
with timeout of 600 seconds
    tell application "Photos"
        set p to media item id "{id_lit}"
        set destFolder to (POSIX file "{dir_lit}") as alias
        export {{p}} to destFolder with using originals
        return filename of p
    end tell
end timeout
"#
        )
    );
}

#[test]
fn conversion_keeps_files_already_in_the_format() {
    assert_eq!(conversion_target("/out/IMG_1.jpeg", "jpeg"), Ok(None));
    assert_eq!(conversion_target("/out/IMG_1.JPG", "jpeg"), Ok(None));
    assert_eq!(conversion_target("/out/IMG_1.jpg", "jpeg"), Ok(None));
    assert_eq!(conversion_target("/out/shot.PNG", "png"), Ok(None));
    assert_eq!(conversion_target("/out/IMG_1.HEIC", "jpeg"), Ok(Some("IMG_1.jpg".to_string())));
    assert_eq!(conversion_target("/out/IMG_1.jpeg", "png"), Ok(Some("IMG_1.png".to_string())));
    assert_eq!(conversion_target("/out/a.b.heic", "png"), Ok(Some("a.b.png".to_string())));
    assert_eq!(conversion_target("/out/noext", "png"), Ok(Some("noext.png".to_string())));
    assert_eq!(conversion_target("/out/.hidden", "png"), Ok(Some(".hidden.png".to_string())));
    assert_eq!(conversion_target("/", "png"), Err(Error::NoFileStem));
    assert_eq!(conversion_target("/out/..", "jpeg"), Err(Error::NoFileStem));
}
