//! Reading a role's timestamp out of an EXIF container.
//!
//! The container bytes are decoded by the external tag parser; the
//! decoded fields are then scanned for the first one whose raw tag
//! number matches the requested role, and its display text is parsed
//! with the fixed calendar format `YYYY-MM-DD HH:MM:SS`.  EXIF carries
//! no offset for these tags, so the offset is always unknown.

use vstd::prelude::*;

use crate::calendar::chrono_parse_of;
use crate::calendar::exif_fmt;
use crate::calendar::parse_calendar;
use crate::errors::Error;
use crate::errors::Role;

verus! {

/// One decoded EXIF field: the raw tag number and the display text.
pub struct ExifField {
    /// The raw tag number.
    pub tag: u16,
    /// The text the tag parser displays for the field's value.
    pub text: String,
}

/// The fields the external tag parser decodes from a byte stream, in
/// decoding order, each as tag number and display text; nothing when the
/// container is malformed.
pub uninterp spec fn exif_fields_of(bytes: Seq<u8>) -> Option<Seq<(u16, Seq<char>)>>;

/// Relies on `exif::Reader::read_from_container` of the kamadak-exif
/// crate, and on `Field::display_value`: the decoded fields are a
/// function of the container bytes alone.
#[verifier::external_body]
fn read_exif_fields(bytes: &[u8]) -> (r: Option<Vec<ExifField>>)
    ensures
        r is Some <==> exif_fields_of(bytes@) is Some,
        r matches Some(v) ==> exif_fields_of(bytes@) matches Some(fs) && v@.len() == fs.len()
            && forall|i: int|
            0 <= i < fs.len() ==> v@[i].tag == fs[i].0 && v@[i].text@ == fs[i].1,
{
    let mut cur = std::io::Cursor::new(bytes);
    match exif::Reader::new().read_from_container(&mut cur) {
        Ok(ex) => Some(
            ex.fields().map(
                |f| ExifField { tag: f.tag.1, text: f.display_value().to_string() },
            ).collect(),
        ),
        Err(_) => None,
    }
}

/// The display text of the first field carrying the tag.
pub open spec fn spec_first_field_from(fs: Seq<(u16, Seq<char>)>, tag: u16, i: int) -> Option<
    Seq<char>,
>
    decreases fs.len() - i when 0 <= i
{
    if i >= fs.len() {
        None
    } else if fs[i].0 == tag {
        Some(fs[i].1)
    } else {
        spec_first_field_from(fs, tag, i + 1)
    }
}

/// What reading the EXIF container for a role's tag yields: seconds from
/// the epoch, or the exact error — a bad container, a missing tag, or a
/// text that does not match the fixed format.
pub open spec fn spec_exif_datetime(bytes: Seq<u8>, tag: u16, role: Role) -> Result<i64, Error> {
    match exif_fields_of(bytes) {
        None => Err(Error::Exif),
        Some(fs) => match spec_first_field_from(fs, tag, 0) {
            None => Err(Error::NotFound(role)),
            Some(text) => match chrono_parse_of(text, exif_fmt()) {
                None => Err(Error::Parse),
                Some(t) => Ok(t),
            },
        },
    }
}

/// Reads the timestamp for a role's tag out of an EXIF container.
pub fn exif_datetime(bytes: &[u8], tag: u16, role: Role) -> (r: Result<i64, Error>)
    ensures
        r == spec_exif_datetime(bytes@, tag, role),
{
    let fields = match read_exif_fields(bytes) {
        None => {
            return Err(Error::Exif);
        },
        Some(v) => v,
    };
    let ghost fs = exif_fields_of(bytes@).unwrap();
    let mut i: usize = 0;
    loop
        invariant
            exif_fields_of(bytes@) == Some(fs),
            fields@.len() == fs.len(),
            forall|j: int| 0 <= j < fs.len() ==> fields@[j].tag == fs[j].0 && fields@[j].text@
                == fs[j].1,
            0 <= i <= fs.len(),
            spec_first_field_from(fs, tag, 0) == spec_first_field_from(fs, tag, i as int),
        decreases fs.len() - i,
    {
        if i == fields.len() {
            return Err(Error::NotFound(role));
        }
        if fields[i].tag == tag {
            match parse_calendar(fields[i].text.as_str(), "%Y-%m-%d %H:%M:%S") {
                Some(t) => {
                    return Ok(t);
                },
                None => {
                    return Err(Error::Parse);
                },
            }
        }
        i = i + 1;
    }
}

} // verus!
