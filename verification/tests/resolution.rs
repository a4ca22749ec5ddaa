//! Tests of the source readers and the priority resolution.

use somoy::errors::Error;
use somoy::errors::Role;
use somoy::CreateDate;
use somoy::DateTimeOriginal;
use somoy::FileSources;
use somoy::RawFile;

/// A sidecar-style document with both items in attribute form.
fn sidecar_doc(dto: &str, cd: &str) -> Vec<u8> {
    format!(
        "<x:xmpmeta><rdf:RDF><rdf:Description rdf:about=\"\" \
         exif:DateTimeOriginal=\"{}\" xmp:CreateDate=\"{}\"/></rdf:RDF></x:xmpmeta>",
        dto, cd
    )
    .into_bytes()
}

/// A document with the DateTimeOriginal item in element form.
fn element_doc(dto: &str) -> Vec<u8> {
    format!(
        "<rdf:RDF><rdf:Description rdf:about=\"\">\
         <exif:DateTimeOriginal>{}</exif:DateTimeOriginal>\
         </rdf:Description></rdf:RDF>",
        dto
    )
    .into_bytes()
}

/// A little-endian TIFF stream whose Exif IFD holds tag 0x9003 (ASCII).
fn tiff_with_dto(text: &str) -> Vec<u8> {
    let mut v = Vec::new();
    v.extend_from_slice(b"II\x2a\x00\x08\x00\x00\x00");
    // IFD0: one entry, the Exif IFD pointer (0x8769, LONG, 1) -> offset 26.
    v.extend_from_slice(&1u16.to_le_bytes());
    v.extend_from_slice(&0x8769u16.to_le_bytes());
    v.extend_from_slice(&4u16.to_le_bytes());
    v.extend_from_slice(&1u32.to_le_bytes());
    v.extend_from_slice(&26u32.to_le_bytes());
    v.extend_from_slice(&0u32.to_le_bytes());
    // Exif IFD at 26: one ASCII entry for 0x9003, value at offset 44.
    let mut ascii = text.as_bytes().to_vec();
    ascii.push(0);
    v.extend_from_slice(&1u16.to_le_bytes());
    v.extend_from_slice(&0x9003u16.to_le_bytes());
    v.extend_from_slice(&2u16.to_le_bytes());
    v.extend_from_slice(&(ascii.len() as u32).to_le_bytes());
    v.extend_from_slice(&44u32.to_le_bytes());
    v.extend_from_slice(&0u32.to_le_bytes());
    v.extend_from_slice(&ascii);
    v
}

/// A little-endian TIFF stream whose primary IFD holds tag 0x0132 (ASCII).
fn tiff_with_cd(text: &str) -> Vec<u8> {
    let mut v = Vec::new();
    v.extend_from_slice(b"II\x2a\x00\x08\x00\x00\x00");
    let mut ascii = text.as_bytes().to_vec();
    ascii.push(0);
    v.extend_from_slice(&1u16.to_le_bytes());
    v.extend_from_slice(&0x0132u16.to_le_bytes());
    v.extend_from_slice(&2u16.to_le_bytes());
    v.extend_from_slice(&(ascii.len() as u32).to_le_bytes());
    v.extend_from_slice(&26u32.to_le_bytes());
    v.extend_from_slice(&0u32.to_le_bytes());
    v.extend_from_slice(&ascii);
    v
}

fn raw_with_doc(doc: Vec<u8>) -> RawFile {
    RawFile { xmp: Some(doc), sony_date_time: String::new(), timestamp: 0 }
}

#[test]
fn xmp_reader_attribute_form() {
    let doc = sidecar_doc("2023-05-01T10:15:00+02:00", "2020-01-02T03:04:05");
    let d = DateTimeOriginal::from_xmp(&doc).unwrap();
    assert_eq!(d.to_original(), 1682936100);
    assert_eq!(d.0.offset, Some(7200));
    let c = CreateDate::from_xmp(&doc).unwrap();
    assert_eq!(c.to_original(), 1577934245);
    assert_eq!(c.0.offset, None);
}

#[test]
fn xmp_reader_element_form() {
    let doc = element_doc("2023-05-01T10:15:00");
    let d = DateTimeOriginal::from_xmp(&doc).unwrap();
    assert_eq!(d.to_utc(), 1682936100);
}

#[test]
fn xmp_reader_errors() {
    assert_eq!(
        DateTimeOriginal::from_xmp(b"<foo>bar</foo>").unwrap_err(),
        Error::XmpNoDescription
    );
    let doc = sidecar_doc("2023-05-01T10:15:00", "2020-01-02T03:04:05");
    // The document has a description, but not this item in element form
    // nor in attribute form under another key.
    let none = b"<rdf:Description rdf:about=\"\"/>";
    assert_eq!(DateTimeOriginal::from_xmp(none).unwrap_err(), Error::XmpNoItem);
    // A present item whose text is no timestamp.
    let bad = sidecar_doc("soon", "later");
    assert_eq!(DateTimeOriginal::from_xmp(&bad).unwrap_err(), Error::Parse);
    assert_eq!(CreateDate::from_xmp(&doc).is_ok(), true);
}

#[test]
fn exif_reader_reads_tags() {
    let d = DateTimeOriginal::from_exif(&tiff_with_dto("2023:05:01 10:15:00")).unwrap();
    assert_eq!(d.to_original(), 1682936100);
    assert_eq!(d.0.offset, None);
    let c = CreateDate::from_exif(&tiff_with_cd("2020:01:02 03:04:05")).unwrap();
    assert_eq!(c.to_utc(), 1577934245);
}

#[test]
fn exif_reader_errors() {
    assert_eq!(DateTimeOriginal::from_exif(b"not an image").unwrap_err(), Error::Exif);
    assert_eq!(
        DateTimeOriginal::from_exif(&tiff_with_cd("2020:01:02 03:04:05")).unwrap_err(),
        Error::NotFound(Role::DateTimeOriginal)
    );
    assert_eq!(
        CreateDate::from_exif(&tiff_with_dto("2023:05:01 10:15:00")).unwrap_err(),
        Error::NotFound(Role::CreateDate)
    );
}

#[test]
fn priority_prefers_sidecar() {
    let s = FileSources {
        sidecar: Some(sidecar_doc("2023-05-01T10:15:00", "2023-05-01T10:15:00")),
        image: Some(tiff_with_dto("2020:01:02 03:04:05")),
        raw: Some(raw_with_doc(element_doc("2019-09-09T09:09:09"))),
        extension: Some(b"arw".to_vec()),
    };
    let d = DateTimeOriginal::from_file(&s).unwrap();
    assert_eq!(d.to_original(), 1682936100);
}

#[test]
fn fallback_to_exif_then_raw() {
    let without_sidecar = FileSources {
        sidecar: None,
        image: Some(tiff_with_dto("2020:01:02 03:04:05")),
        raw: Some(raw_with_doc(element_doc("2019-09-09T09:09:09"))),
        extension: Some(b"arw".to_vec()),
    };
    let d = DateTimeOriginal::from_file(&without_sidecar).unwrap();
    assert_eq!(d.to_original(), 1577934245);

    let raw_only = FileSources {
        sidecar: None,
        image: None,
        raw: Some(raw_with_doc(element_doc("2019-09-09T09:09:09"))),
        extension: Some(b"arw".to_vec()),
    };
    let d = DateTimeOriginal::from_file(&raw_only).unwrap();
    assert_eq!(d.as_string().unwrap(), "2019-09-09 09:09:09");
}

#[test]
fn maker_note_quirk_only_for_arw() {
    let rf = || RawFile {
        xmp: None,
        sony_date_time: "2022:03:04 05:06:07".to_string(),
        timestamp: 777,
    };
    // The vendor extension, in any letter case, activates the maker note.
    let arw = CreateDate::from_raw(&rf(), true, 3600);
    assert_eq!(arw.to_utc(), 1646370367);
    assert_eq!(arw.0.offset, None);
    // Any other extension falls through to the generic heuristic.
    let nef = CreateDate::from_raw(&rf(), false, 3600);
    assert_eq!(nef.to_utc(), 777 - 3600);
    assert_eq!(nef.0.offset, None);
}

#[test]
fn quirk_is_case_insensitive_on_extension() {
    let mk = |ext: &[u8]| FileSources {
        sidecar: None,
        image: None,
        raw: Some(RawFile {
            xmp: None,
            sony_date_time: "2022:03:04 05:06:07".to_string(),
            timestamp: 777,
        }),
        extension: Some(ext.to_vec()),
    };
    let upper = CreateDate::from_file_with_offset(&mk(b"ARW"), 0).unwrap();
    assert_eq!(upper.to_utc(), 1646370367);
    let mixed = CreateDate::from_file_with_offset(&mk(b"ArW"), 0).unwrap();
    assert_eq!(mixed.to_utc(), 1646370367);
    let nef = CreateDate::from_file_with_offset(&mk(b"nef"), 0).unwrap();
    assert_eq!(nef.to_utc(), 777);
    assert!(somoy::is_arw(&Some(b"Arw".to_vec())));
    assert!(!somoy::is_arw(&Some(b"arw2".to_vec())));
    assert!(!somoy::is_arw(&None));
}

#[test]
fn quirk_never_fails() {
    // No embedded XMP, an unparsable maker note, a zero generic timestamp:
    // the reader still returns a value, with instant zero.
    let rf = RawFile { xmp: None, sony_date_time: String::new(), timestamp: 0 };
    let c = CreateDate::from_raw(&rf, true, 0);
    assert_eq!(c.to_utc(), 0);
    // A failed embedded-XMP parse is caught too.
    let rf = RawFile {
        xmp: Some(b"<rdf:Description x=\"1\"/>".to_vec()),
        sony_date_time: String::new(),
        timestamp: 55,
    };
    let c = CreateDate::from_raw(&rf, false, 0);
    assert_eq!(c.to_utc(), 55);
}

#[test]
fn total_failure_names_the_role() {
    let s = FileSources {
        sidecar: None,
        image: None,
        raw: Some(RawFile { xmp: None, sony_date_time: String::new(), timestamp: 0 }),
        extension: Some(b"nef".to_vec()),
    };
    assert_eq!(
        DateTimeOriginal::from_file(&s).unwrap_err(),
        Error::NotFound(Role::DateTimeOriginal)
    );
    // The CreateDate quirk still yields a best-effort instant.
    let c = CreateDate::from_file_with_offset(&s, 0).unwrap();
    assert_eq!(c.to_utc(), 0);

    let nothing = FileSources { sidecar: None, image: None, raw: None, extension: None };
    assert_eq!(
        CreateDate::from_file(&nothing).unwrap_err(),
        Error::NotFound(Role::CreateDate)
    );
    assert_eq!(
        somoy::get_timestamp(&nothing).unwrap_err(),
        Error::NotFound(Role::CreateDate)
    );
}

#[test]
fn end_to_end_jpeg_like_exif() {
    // An image whose EXIF says 0x9003 = "2023-05-01 10:15:00", no sidecar.
    let s = FileSources {
        sidecar: None,
        image: Some(tiff_with_dto("2023:05:01 10:15:00")),
        raw: None,
        extension: Some(b"jpg".to_vec()),
    };
    let d = DateTimeOriginal::from_file(&s).unwrap();
    assert_eq!(d.to_original(), 1682936100);
    assert_eq!(d.0.offset, None);
    assert_eq!(somoy::get_timestamp(&s).unwrap(), 1682936100);
    assert_eq!(somoy::get_timestamp_with_offset(&s, 7200).unwrap(), 1682936100);
}

#[test]
fn element_form_wins_over_attribute_form() {
    let doc = b"<rdf:Description exif:DateTimeOriginal=\"2020-01-02T03:04:05\">\
                <exif:DateTimeOriginal>2023-05-01T10:15:00</exif:DateTimeOriginal>\
                </rdf:Description>"
        .to_vec();
    let d = DateTimeOriginal::from_xmp(&doc).unwrap();
    assert_eq!(d.to_utc(), 1682936100);
}

#[test]
fn items_before_description_are_ignored() {
    let doc = b"<note exif:DateTimeOriginal=\"2020-01-02T03:04:05\"/>\
                <rdf:Description exif:DateTimeOriginal=\"2023-05-01T10:15:00\"/>"
        .to_vec();
    let d = DateTimeOriginal::from_xmp(&doc).unwrap();
    assert_eq!(d.to_utc(), 1682936100);
}
