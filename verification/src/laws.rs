//! Laws of the resolver, stated over the same specification functions
//! the public contracts use, and proved from them.

use vstd::prelude::*;

use crate::errors::Error;
use crate::errors::Role;
use crate::spec_exif_dt;
use crate::spec_raw_cd;
use crate::spec_raw_dto;
use crate::spec_resolve_cd;
use crate::spec_resolve_dto;
use crate::spec_sidecar_dt;
use crate::xmp_doc::cd_key;
use crate::xmp_doc::dto_key;
use crate::xmp_doc::spec_xmp_datetime;
use crate::FileSources;
use crate::RawFile;

verus! {

/// Priority: whenever the sidecar yields a DateTimeOriginal value, the
/// resolution returns exactly that value, whatever the EXIF and RAW
/// sources hold.
pub proof fn lemma_sidecar_priority_dto(s: FileSources, p: (int, Option<int>))
    requires
        spec_sidecar_dt(s, dto_key()) == Ok::<(int, Option<int>), Error>(p),
    ensures
        spec_resolve_dto(s) == Ok::<(int, Option<int>), Error>(p),
{
}

/// Priority: the same holds of CreateDate, under every process offset.
pub proof fn lemma_sidecar_priority_cd(s: FileSources, p: (int, Option<int>), uml: int)
    requires
        spec_sidecar_dt(s, cd_key()) == Ok::<(int, Option<int>), Error>(p),
    ensures
        spec_resolve_cd(s, uml) == Ok::<(int, Option<int>), Error>(p),
{
}

/// Fallback: when the sidecar contributes nothing, the resolution
/// returns the EXIF value, with no offset.
pub proof fn lemma_exif_fallback_dto(s: FileSources, t: i64)
    requires
        spec_sidecar_dt(s, dto_key()) is Err,
        spec_exif_dt(s, 0x9003, Role::DateTimeOriginal) == Ok::<i64, Error>(t),
    ensures
        spec_resolve_dto(s) == Ok::<(int, Option<int>), Error>((t as int, None)),
{
}

/// Fallback: when neither the sidecar nor EXIF contributes, the
/// resolution returns the RAW-derived value.
pub proof fn lemma_raw_fallback_dto(s: FileSources, rf: RawFile, p: (int, Option<int>))
    requires
        spec_sidecar_dt(s, dto_key()) is Err,
        spec_exif_dt(s, 0x9003, Role::DateTimeOriginal) is Err,
        s.raw == Some(rf),
        spec_raw_dto(rf) == Ok::<(int, Option<int>), Error>(p),
    ensures
        spec_resolve_dto(s) == Ok::<(int, Option<int>), Error>(p),
{
}

/// Quirk isolation: without the vendor's RAW extension the maker-note
/// field is never consulted — two RAW extractions that differ only in it
/// resolve CreateDate identically.
pub proof fn lemma_maker_note_ignored_without_arw(a: RawFile, b: RawFile, uml: int)
    requires
        a.xmp == b.xmp,
        a.timestamp == b.timestamp,
    ensures
        spec_raw_cd(a, false, uml) == spec_raw_cd(b, false, uml),
{
}

/// Quirk isolation: without the vendor's RAW extension, a failed
/// embedded-XMP attempt falls through directly to the generic-timestamp
/// heuristic, with no offset.
pub proof fn lemma_generic_fallback_without_arw(rf: RawFile, uml: int)
    requires
        match rf.xmp {
            None => true,
            Some(v) => spec_xmp_datetime(v@, cd_key()) is Err,
        },
    ensures
        spec_raw_cd(rf, false, uml).1 is None,
        i64::MIN <= rf.timestamp - uml <= i64::MAX ==> spec_raw_cd(rf, false, uml).0
            == rf.timestamp - uml,
        !(i64::MIN <= rf.timestamp - uml <= i64::MAX) ==> spec_raw_cd(rf, false, uml).0 == 0,
{
}

/// The quirk never fails: whenever the RAW decoder accepted the file,
/// CreateDate resolution yields a value — possibly with instant zero —
/// never a "not found" error.
pub proof fn lemma_raw_create_date_total(s: FileSources, uml: int)
    requires
        s.raw is Some,
    ensures
        spec_resolve_cd(s, uml) is Ok,
{
}

/// Total failure: when every DateTimeOriginal source is exhausted, that
/// role reports its "not found" error, while CreateDate still yields a
/// best-effort instant as long as the RAW decoder accepted the file.
pub proof fn lemma_total_failure(s: FileSources, uml: int)
    requires
        spec_sidecar_dt(s, dto_key()) is Err,
        spec_exif_dt(s, 0x9003, Role::DateTimeOriginal) is Err,
        match s.raw {
            None => true,
            Some(rf) => spec_raw_dto(rf) is Err,
        },
    ensures
        spec_resolve_dto(s) == Err::<(int, Option<int>), Error>(
            Error::NotFound(Role::DateTimeOriginal),
        ),
        s.raw is Some ==> spec_resolve_cd(s, uml) is Ok,
{
}

/// Resolution never invents an error: a CreateDate failure can only be
/// the role's own "not found" error.
pub proof fn lemma_cd_error_is_not_found(s: FileSources, uml: int)
    requires
        spec_resolve_cd(s, uml) is Err,
    ensures
        spec_resolve_cd(s, uml) == Err::<(int, Option<int>), Error>(
            Error::NotFound(Role::CreateDate),
        ),
        s.raw is None,
{
}

} // verus!
