//! Resolution of a canonical capture time for an image file.
//!
//! Up to three independent metadata sources are consulted in a fixed
//! priority order — an XMP sidecar document, embedded EXIF tags, and
//! RAW-container vendor metadata — and whatever timestamp encoding each
//! source uses is normalized into one internal representation: an absolute
//! UTC instant plus an optional signed local offset.
//!
//! All file and decoder I/O lives outside this crate; callers hand in the
//! bytes each source produced (see [`FileSources`]) and get back a fully
//! resolved [`DateTime`] wrapped in its role type.

use vstd::prelude::*;

pub mod calendar;
pub mod errors;
pub mod exif_data;
pub mod laws;
pub mod scan;
pub mod timestamp;
pub mod xmp_doc;

use crate::calendar::calendar_text_of;
use crate::calendar::chrono_parse_of;
use crate::calendar::current_utc_minus_local;
use crate::calendar::format_timestamp;
use crate::calendar::sony_fmt;
pub use crate::calendar::sony_time;
use crate::errors::Error;
use crate::errors::Role;
use crate::exif_data::exif_datetime;
use crate::exif_data::spec_exif_datetime;
use crate::timestamp::lemma_parse_timestamp_bounds;
use crate::timestamp::parse_timestamp;
use crate::timestamp::spec_parse_timestamp;
use crate::xmp_doc::cd_key;
use crate::xmp_doc::cd_key_bytes;
use crate::xmp_doc::dto_key;
use crate::xmp_doc::dto_key_bytes;
use crate::xmp_doc::spec_xmp_datetime;
use crate::xmp_doc::xmp_datetime;
use vstd::string::StringSliceAdditionalSpecFns;

verus! {

/// An absolute instant plus the local offset the recording source knew of.
#[derive(Clone, Copy, Debug, PartialEq, Eq)]
pub struct DateTime {
    /// The instant, in seconds since the epoch, UTC.
    pub time: i64,
    /// Seconds to add to `time` to obtain the wall-clock value at the place
    /// of capture; `None` when the source recorded no offset.
    pub offset: Option<i64>,
    /// Sub-second component, milliseconds; no current source fills it.
    pub ms: Option<i64>,
}

/// The executable instant `d` carries exactly the instant and offset `p`,
/// with no sub-second part.
pub open spec fn dt_matches(d: DateTime, p: (int, Option<int>)) -> bool {
    &&& d.time == p.0
    &&& d.ms is None
    &&& match (d.offset, p.1) {
        (None, None) => true,
        (Some(a), Some(b)) => a == b,
        _ => false,
    }
}

impl DateTime {
    /// The offset, with zero standing in when none is known.
    pub open spec fn spec_offset_or_zero(self) -> int {
        match self.offset {
            Some(o) => o as int,
            None => 0,
        }
    }

    /// The wall-clock value as the camera or tool recorded it.
    pub open spec fn spec_to_original(self) -> int {
        self.time + self.spec_offset_or_zero()
    }

    /// Well-formed: the wall-clock value fits the machine representation.
    /// Every constructor of this crate establishes it.
    pub open spec fn wf(self) -> bool {
        i64::MIN <= self.spec_to_original() <= i64::MAX
    }

    /// The absolute UTC instant.
    pub fn to_utc(&self) -> (r: i64)
        ensures
            r == self.time,
    {
        self.time
    }

    /// The locally recorded wall-clock value: UTC plus the offset, with no
    /// offset applied when none is known.
    pub fn to_original(&self) -> (r: i64)
        requires
            self.wf(),
        ensures
            r == self.spec_to_original(),
    {
        match self.offset {
            Some(o) => self.time + o,
            None => self.time,
        }
    }

    /// The calendar text of the wall-clock value, offset not re-applied;
    /// nothing when the instant lies outside the calendar span.
    pub fn as_string(&self) -> (r: Option<String>)
        requires
            self.wf(),
        ensures
            r is Some <==> calendar_text_of(self.spec_to_original() as i64) is Some,
            r matches Some(t) ==> calendar_text_of(self.spec_to_original() as i64) == Some(t@),
    {
        let o = self.to_original();
        format_timestamp(o)
    }

    /// Parses a timestamp text into an instant; any other text is the
    /// "no timestamp found" condition.
    pub fn from_string(s: &str) -> (r: Result<DateTime, Error>)
        ensures
            match spec_parse_timestamp(s.spec_bytes()) {
                Some(p) => r matches Ok(d) && dt_matches(d, p) && d.wf(),
                None => r == Err::<DateTime, Error>(Error::Parse),
            },
    {
        match parse_timestamp(s.as_bytes()) {
            Some((t, off)) => {
                proof {
                    lemma_parse_timestamp_bounds(s.spec_bytes());
                }
                Ok(DateTime { time: t, offset: off, ms: None })
            },
            None => Err(Error::Parse),
        }
    }
}

/// `to_original` is `to_utc` plus the recorded offset, zero when absent,
/// for every well-formed instant.
pub proof fn lemma_original_is_utc_plus_offset(d: DateTime)
    requires
        d.wf(),
    ensures
        d.spec_to_original() == d.time + d.spec_offset_or_zero(),
        d.offset is None ==> d.spec_to_original() == d.time,
{
}

/// What the RAW decoder extracted from one container.
pub struct RawFile {
    /// The embedded XMP packet, when the container carries one.
    pub xmp: Option<Vec<u8>>,
    /// The vendor maker-note timestamp, ASCII, possibly empty.
    pub sony_date_time: String,
    /// The container's generic timestamp, assumed local wall-clock seconds.
    pub timestamp: i64,
}

/// Everything the caller read for one file: the sidecar document, the
/// image bytes, what the RAW decoder yielded, and the path's extension.
/// `None` stands for a source that could not be read at all.
pub struct FileSources {
    /// Bytes of the `.xmp` sidecar document beside the file.
    pub sidecar: Option<Vec<u8>>,
    /// Bytes of the image file itself, for the EXIF container.
    pub image: Option<Vec<u8>>,
    /// What the RAW decoder extracted; `None` when it rejected the file.
    pub raw: Option<RawFile>,
    /// The path's extension, bytes as on disk, `None` when there is none.
    pub extension: Option<Vec<u8>>,
}

/// An upper-case ASCII letter folded to lower case.
pub open spec fn lower_byte(b: u8) -> u8 {
    if 65 <= b <= 90 {
        (b + 32) as u8
    } else {
        b
    }
}

/// The extension spells `arw`, case-insensitively.
pub open spec fn spec_is_arw(ext: Option<Vec<u8>>) -> bool {
    match ext {
        Some(e) => e@.len() == 3 && lower_byte(e@[0]) == 97 && lower_byte(e@[1]) == 114
            && lower_byte(e@[2]) == 119,
        None => false,
    }
}

fn lower(b: u8) -> (r: u8)
    ensures
        r == lower_byte(b),
{
    if 65 <= b && b <= 90 {
        b + 32
    } else {
        b
    }
}

/// Whether the extension names the vendor's RAW format, `arw`, in any
/// letter case.
pub fn is_arw(ext: &Option<Vec<u8>>) -> (r: bool)
    ensures
        r == spec_is_arw(*ext),
{
    match ext {
        None => false,
        Some(e) => {
            if e.len() != 3 {
                return false;
            }
            lower(e[0]) == 97 && lower(e[1]) == 114 && lower(e[2]) == 119
        },
    }
}

/// A resolved "when the shutter fired" timestamp.
#[derive(Clone, Copy, Debug, PartialEq, Eq)]
pub struct DateTimeOriginal(pub DateTime);

/// A resolved "when the file or derivative was created" timestamp.
#[derive(Clone, Copy, Debug, PartialEq, Eq)]
pub struct CreateDate(pub DateTime);

/// What the DateTimeOriginal RAW reader yields: the embedded XMP packet
/// resolved for the role's key, or the exact error; no quirk applies.
pub open spec fn spec_raw_dto(rf: RawFile) -> Result<(int, Option<int>), Error> {
    match rf.xmp {
        None => Err(Error::Raw),
        Some(v) => spec_xmp_datetime(v@, dto_key()),
    }
}

/// What the CreateDate RAW reader yields.  When the embedded XMP attempt
/// fails in any way, a two-step quirk takes over and always produces a
/// value: the maker-note timestamp for the vendor's RAW extension when it
/// parses to a non-zero instant, else the container's generic timestamp
/// shifted from local wall clock to UTC by the current process offset
/// (zero when that difference cannot be represented).
pub open spec fn spec_raw_cd(rf: RawFile, arw: bool, uml: int) -> (int, Option<int>) {
    let primary = match rf.xmp {
        None => Err(Error::Raw),
        Some(v) => spec_xmp_datetime(v@, cd_key()),
    };
    match primary {
        Ok(p) => p,
        Err(_) => {
            let sony = if arw {
                match chrono_parse_of(rf.sony_date_time@, sony_fmt()) {
                    Some(t) => t as int,
                    None => 0int,
                }
            } else {
                0int
            };
            if sony != 0 {
                (sony, None)
            } else if i64::MIN <= rf.timestamp - uml <= i64::MAX {
                (rf.timestamp - uml, None)
            } else {
                (0int, None)
            }
        },
    }
}

/// What the sidecar source yields for an item key: the document resolved
/// by the XMP reader, or the exact error; an unreadable sidecar reads as
/// an I/O failure.
pub open spec fn spec_sidecar_dt(s: FileSources, key: Seq<u8>) -> Result<
    (int, Option<int>),
    Error,
> {
    match s.sidecar {
        None => Err(Error::Io),
        Some(doc) => spec_xmp_datetime(doc@, key),
    }
}

/// What the EXIF source yields for a role's tag; an unreadable image
/// reads as an I/O failure.
pub open spec fn spec_exif_dt(s: FileSources, tag: u16, role: Role) -> Result<i64, Error> {
    match s.image {
        None => Err(Error::Io),
        Some(b) => spec_exif_datetime(b@, tag, role),
    }
}

/// DateTimeOriginal resolution: sidecar first, then embedded EXIF, then
/// the RAW reader; the first success wins, and when every source fails
/// only the role's "not found" error remains.
pub open spec fn spec_resolve_dto(s: FileSources) -> Result<(int, Option<int>), Error> {
    match spec_sidecar_dt(s, dto_key()) {
        Ok(p) => Ok(p),
        Err(_) => match spec_exif_dt(s, 0x9003, Role::DateTimeOriginal) {
            Ok(t) => Ok((t as int, None)),
            Err(_) => match s.raw {
                None => Err(Error::NotFound(Role::DateTimeOriginal)),
                Some(rf) => match spec_raw_dto(rf) {
                    Ok(p) => Ok(p),
                    Err(_) => Err(Error::NotFound(Role::DateTimeOriginal)),
                },
            },
        },
    }
}

/// CreateDate resolution under a given process offset: sidecar first,
/// then embedded EXIF, then the RAW reader with its never-failing quirk;
/// only a file the RAW decoder rejected can exhaust every source.
pub open spec fn spec_resolve_cd(s: FileSources, uml: int) -> Result<(int, Option<int>), Error> {
    match spec_sidecar_dt(s, cd_key()) {
        Ok(p) => Ok(p),
        Err(_) => match spec_exif_dt(s, 0x0132, Role::CreateDate) {
            Ok(t) => Ok((t as int, None)),
            Err(_) => match s.raw {
                None => Err(Error::NotFound(Role::CreateDate)),
                Some(rf) => Ok(spec_raw_cd(rf, spec_is_arw(s.extension), uml)),
            },
        },
    }
}

/// The result `r` is what CreateDate resolution assigns under the
/// process offset `uml`.
pub open spec fn cd_resolved(s: FileSources, uml: int, r: Result<CreateDate, Error>) -> bool {
    match spec_resolve_cd(s, uml) {
        Ok(p) => r matches Ok(d) && dt_matches(d.0, p) && d.0.wf(),
        Err(e) => r == Err::<CreateDate, Error>(e),
    }
}

/// The wall-clock value of whichever role resolves: DateTimeOriginal
/// when it can be resolved at all, else CreateDate.
pub open spec fn spec_get_timestamp(s: FileSources, uml: int) -> Result<int, Error> {
    match spec_resolve_dto(s) {
        Ok(p) => Ok(
            p.0 + match p.1 {
                Some(o) => o,
                None => 0int,
            },
        ),
        Err(_) => match spec_resolve_cd(s, uml) {
            Ok(p) => Ok(
                p.0 + match p.1 {
                    Some(o) => o,
                    None => 0int,
                },
            ),
            Err(e) => Err(e),
        },
    }
}

/// The result `r` is what the top-level query assigns under the process
/// offset `uml`.
pub open spec fn ts_resolved(s: FileSources, uml: int, r: Result<i64, Error>) -> bool {
    match spec_get_timestamp(s, uml) {
        Ok(v) => r matches Ok(t) && t == v,
        Err(e) => r == Err::<i64, Error>(e),
    }
}

impl DateTimeOriginal {
    /// The absolute UTC instant.
    pub fn to_utc(&self) -> (r: i64)
        ensures
            r == self.0.time,
    {
        self.0.to_utc()
    }

    /// The locally recorded wall-clock value.
    pub fn to_original(&self) -> (r: i64)
        requires
            self.0.wf(),
        ensures
            r == self.0.spec_to_original(),
    {
        self.0.to_original()
    }

    /// The calendar text of the wall-clock value.
    pub fn as_string(&self) -> (r: Option<String>)
        requires
            self.0.wf(),
        ensures
            r is Some <==> calendar_text_of(self.0.spec_to_original() as i64) is Some,
            r matches Some(t) ==> calendar_text_of(self.0.spec_to_original() as i64) == Some(t@),
    {
        self.0.as_string()
    }

    /// Reads the role's item out of an XMP document.
    pub fn from_xmp(doc: &[u8]) -> (r: Result<Self, Error>)
        ensures
            match spec_xmp_datetime(doc@, dto_key()) {
                Ok(p) => r matches Ok(d) && dt_matches(d.0, p) && d.0.wf(),
                Err(e) => r == Err::<Self, Error>(e),
            },
    {
        let key = dto_key_bytes();
        match xmp_datetime(doc, key.as_slice()) {
            Ok(d) => Ok(DateTimeOriginal(d)),
            Err(e) => Err(e),
        }
    }

    /// Reads the role's tag out of an EXIF container; EXIF records no
    /// offset for it.
    pub fn from_exif(bytes: &[u8]) -> (r: Result<Self, Error>)
        ensures
            match spec_exif_datetime(bytes@, 0x9003, Role::DateTimeOriginal) {
                Ok(t) => r matches Ok(d) && dt_matches(d.0, (t as int, None)) && d.0.wf(),
                Err(e) => r == Err::<Self, Error>(e),
            },
    {
        match exif_datetime(bytes, 0x9003, Role::DateTimeOriginal) {
            Ok(t) => Ok(DateTimeOriginal(DateTime { time: t, offset: None, ms: None })),
            Err(e) => Err(e),
        }
    }

    /// Reads the role's item out of the RAW container's embedded XMP
    /// packet; this role has no quirk and fails normally.
    pub fn from_raw(rf: &RawFile) -> (r: Result<Self, Error>)
        ensures
            match spec_raw_dto(*rf) {
                Ok(p) => r matches Ok(d) && dt_matches(d.0, p) && d.0.wf(),
                Err(e) => r == Err::<Self, Error>(e),
            },
    {
        match &rf.xmp {
            None => Err(Error::Raw),
            Some(doc) => {
                let key = dto_key_bytes();
                match xmp_datetime(doc.as_slice(), key.as_slice()) {
                    Ok(d) => Ok(DateTimeOriginal(d)),
                    Err(e) => Err(e),
                }
            },
        }
    }

    /// Resolves the role over every source in priority order: sidecar,
    /// embedded EXIF, RAW; errors of earlier sources are discarded.
    pub fn from_file(s: &FileSources) -> (r: Result<Self, Error>)
        ensures
            match spec_resolve_dto(*s) {
                Ok(p) => r matches Ok(d) && dt_matches(d.0, p) && d.0.wf(),
                Err(e) => r == Err::<Self, Error>(e),
            },
    {
        match &s.sidecar {
            Some(doc) => {
                match Self::from_xmp(doc.as_slice()) {
                    Ok(d) => {
                        return Ok(d);
                    },
                    Err(_) => {},
                }
            },
            None => {},
        }
        match &s.image {
            Some(img) => {
                match Self::from_exif(img.as_slice()) {
                    Ok(d) => {
                        return Ok(d);
                    },
                    Err(_) => {},
                }
            },
            None => {},
        }
        match &s.raw {
            Some(rf) => match Self::from_raw(rf) {
                Ok(d) => Ok(d),
                Err(_) => Err(Error::NotFound(Role::DateTimeOriginal)),
            },
            None => Err(Error::NotFound(Role::DateTimeOriginal)),
        }
    }
}

impl CreateDate {
    /// The absolute UTC instant.
    pub fn to_utc(&self) -> (r: i64)
        ensures
            r == self.0.time,
    {
        self.0.to_utc()
    }

    /// The locally recorded wall-clock value.
    pub fn to_original(&self) -> (r: i64)
        requires
            self.0.wf(),
        ensures
            r == self.0.spec_to_original(),
    {
        self.0.to_original()
    }

    /// The calendar text of the wall-clock value.
    pub fn as_string(&self) -> (r: Option<String>)
        requires
            self.0.wf(),
        ensures
            r is Some <==> calendar_text_of(self.0.spec_to_original() as i64) is Some,
            r matches Some(t) ==> calendar_text_of(self.0.spec_to_original() as i64) == Some(t@),
    {
        self.0.as_string()
    }

    /// Reads the role's item out of an XMP document.
    pub fn from_xmp(doc: &[u8]) -> (r: Result<Self, Error>)
        ensures
            match spec_xmp_datetime(doc@, cd_key()) {
                Ok(p) => r matches Ok(d) && dt_matches(d.0, p) && d.0.wf(),
                Err(e) => r == Err::<Self, Error>(e),
            },
    {
        let key = cd_key_bytes();
        match xmp_datetime(doc, key.as_slice()) {
            Ok(d) => Ok(CreateDate(d)),
            Err(e) => Err(e),
        }
    }

    /// Reads the role's tag out of an EXIF container; EXIF records no
    /// offset for it.
    pub fn from_exif(bytes: &[u8]) -> (r: Result<Self, Error>)
        ensures
            match spec_exif_datetime(bytes@, 0x0132, Role::CreateDate) {
                Ok(t) => r matches Ok(d) && dt_matches(d.0, (t as int, None)) && d.0.wf(),
                Err(e) => r == Err::<Self, Error>(e),
            },
    {
        match exif_datetime(bytes, 0x0132, Role::CreateDate) {
            Ok(t) => Ok(CreateDate(DateTime { time: t, offset: None, ms: None })),
            Err(e) => Err(e),
        }
    }

    /// Reads the role out of the RAW container under a given process
    /// offset: the embedded XMP packet when it resolves, else the
    /// never-failing two-step quirk.  This reader returns a value for
    /// every input, possibly with instant zero.
    pub fn from_raw(rf: &RawFile, arw: bool, utc_minus_local: i64) -> (r: Self)
        ensures
            dt_matches(r.0, spec_raw_cd(*rf, arw, utc_minus_local as int)),
            r.0.wf(),
    {
        match &rf.xmp {
            Some(doc) => {
                let key = cd_key_bytes();
                match xmp_datetime(doc.as_slice(), key.as_slice()) {
                    Ok(d) => {
                        return CreateDate(d);
                    },
                    Err(_) => {},
                }
            },
            None => {},
        }
        let sony: i64 = if arw {
            match sony_time(rf.sony_date_time.as_str()) {
                Some(t) => t,
                None => 0,
            }
        } else {
            0
        };
        if sony != 0 {
            CreateDate(DateTime { time: sony, offset: None, ms: None })
        } else {
            let t = match rf.timestamp.checked_sub(utc_minus_local) {
                Some(v) => v,
                None => 0,
            };
            CreateDate(DateTime { time: t, offset: None, ms: None })
        }
    }

    /// Resolves the role over every source in priority order under a
    /// given process offset; only a file the RAW decoder rejected can
    /// exhaust every source.
    pub fn from_file_with_offset(s: &FileSources, utc_minus_local: i64) -> (r: Result<Self, Error>)
        ensures
            cd_resolved(*s, utc_minus_local as int, r),
    {
        match &s.sidecar {
            Some(doc) => {
                match Self::from_xmp(doc.as_slice()) {
                    Ok(d) => {
                        return Ok(d);
                    },
                    Err(_) => {},
                }
            },
            None => {},
        }
        match &s.image {
            Some(img) => {
                match Self::from_exif(img.as_slice()) {
                    Ok(d) => {
                        return Ok(d);
                    },
                    Err(_) => {},
                }
            },
            None => {},
        }
        match &s.raw {
            Some(rf) => {
                let arw = is_arw(&s.extension);
                Ok(Self::from_raw(rf, arw, utc_minus_local))
            },
            None => Err(Error::NotFound(Role::CreateDate)),
        }
    }

    /// Resolves the role over every source in priority order, reading
    /// the process offset from the environment; the result is what some
    /// process offset under a day in magnitude assigns.
    pub fn from_file(s: &FileSources) -> (r: Result<Self, Error>)
        ensures
            exists|uml: int| -86400 < uml < 86400 && #[trigger] cd_resolved(*s, uml, r),
    {
        let u = current_utc_minus_local();
        let r = Self::from_file_with_offset(s, u);
        proof {
            assert(cd_resolved(*s, u as int, r));
        }
        r
    }
}

/// The top-level query under a given process offset: the wall-clock
/// value of DateTimeOriginal when it resolves, else of CreateDate.
pub fn get_timestamp_with_offset(s: &FileSources, utc_minus_local: i64) -> (r: Result<i64, Error>)
    ensures
        ts_resolved(*s, utc_minus_local as int, r),
{
    match DateTimeOriginal::from_file(s) {
        Ok(t) => Ok(t.to_original()),
        Err(_) => match CreateDate::from_file_with_offset(s, utc_minus_local) {
            Ok(t) => Ok(t.to_original()),
            Err(e) => Err(e),
        },
    }
}

/// The top-level query: the wall-clock value of DateTimeOriginal when it
/// resolves, else of CreateDate, with the process offset read from the
/// environment.
pub fn get_timestamp(s: &FileSources) -> (r: Result<i64, Error>)
    ensures
        exists|uml: int| -86400 < uml < 86400 && #[trigger] ts_resolved(*s, uml, r),
{
    let u = current_utc_minus_local();
    let r = get_timestamp_with_offset(s, u);
    proof {
        assert(ts_resolved(*s, u as int, r));
    }
    r
}

} // verus!
