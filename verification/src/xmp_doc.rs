//! Reading one named item out of an XMP document.
//!
//! The reader locates the root description element (the first occurrence
//! of `<rdf:Description`), then reads the named item's text: either the
//! element form `<key>text<`, or, failing that, the attribute form
//! `key="text"`.  The first occurrence at or after the description start
//! wins.  The item text is then handed to the timestamp grammar.

use vstd::prelude::*;

use crate::dt_matches;
use crate::errors::Error;
use crate::scan::find_from;
use crate::scan::first_match_from;
use crate::timestamp::lemma_parse_timestamp_bounds;
use crate::timestamp::parse_timestamp;
use crate::timestamp::spec_parse_timestamp;
use crate::DateTime;

verus! {

/// The bytes of `exif:DateTimeOriginal`, the sidecar item key of the
/// DateTimeOriginal role.
pub open spec fn dto_key() -> Seq<u8> {
    seq![101u8, 120u8, 105u8, 102u8, 58u8, 68u8, 97u8, 116u8, 101u8, 84u8, 105u8, 109u8, 101u8, 79u8, 114u8, 105u8, 103u8, 105u8, 110u8, 97u8, 108u8]
}

pub(crate) fn dto_key_bytes() -> (r: Vec<u8>)
    ensures
        r@ =~= dto_key(),
{
    vec![101u8, 120u8, 105u8, 102u8, 58u8, 68u8, 97u8, 116u8, 101u8, 84u8, 105u8, 109u8, 101u8, 79u8, 114u8, 105u8, 103u8, 105u8, 110u8, 97u8, 108u8]
}

/// The bytes of `xmp:CreateDate`, the sidecar item key of the CreateDate
/// role.
pub open spec fn cd_key() -> Seq<u8> {
    seq![120u8, 109u8, 112u8, 58u8, 67u8, 114u8, 101u8, 97u8, 116u8, 101u8, 68u8, 97u8, 116u8, 101u8]
}

pub(crate) fn cd_key_bytes() -> (r: Vec<u8>)
    ensures
        r@ =~= cd_key(),
{
    vec![120u8, 109u8, 112u8, 58u8, 67u8, 114u8, 101u8, 97u8, 116u8, 101u8, 68u8, 97u8, 116u8, 101u8]
}

/// The bytes of `<rdf:Description`.
pub open spec fn desc_pat() -> Seq<u8> {
    seq![60u8, 114u8, 100u8, 102u8, 58u8, 68u8, 101u8, 115u8, 99u8, 114u8, 105u8, 112u8, 116u8, 105u8, 111u8, 110u8]
}

fn desc_pat_bytes() -> (r: Vec<u8>)
    ensures
        r@ =~= desc_pat(),
{
    vec![60u8, 114u8, 100u8, 102u8, 58u8, 68u8, 101u8, 115u8, 99u8, 114u8, 105u8, 112u8, 116u8, 105u8, 111u8, 110u8]
}

/// The document holds a description element.
pub open spec fn spec_has_description(doc: Seq<u8>) -> bool {
    first_match_from(doc, desc_pat(), 0) is Some
}

/// The text from `from` up to the first `stop` byte after it.
pub open spec fn spec_value_until(doc: Seq<u8>, from: int, stop: u8) -> Option<Seq<u8>> {
    match first_match_from(doc, seq![stop], from) {
        Some(j) => Some(doc.subrange(from, j)),
        None => None,
    }
}

/// The item's text in element form, `<key>text<`, at or after `from`.
pub open spec fn spec_item_elem(doc: Seq<u8>, key: Seq<u8>, from: int) -> Option<Seq<u8>> {
    match first_match_from(doc, seq![60u8] + key + seq![62u8], from) {
        Some(i) => spec_value_until(doc, i + key.len() + 2, 60u8),
        None => None,
    }
}

/// The item's text in attribute form, `key="text"`, at or after `from`.
pub open spec fn spec_item_attr(doc: Seq<u8>, key: Seq<u8>, from: int) -> Option<Seq<u8>> {
    match first_match_from(doc, key + seq![61u8, 34u8], from) {
        Some(i) => spec_value_until(doc, i + key.len() + 2, 34u8),
        None => None,
    }
}

/// The named item's text: element form first, then attribute form, both
/// searched from the description start; nothing without a description.
pub open spec fn spec_xmp_item(doc: Seq<u8>, key: Seq<u8>) -> Option<Seq<u8>> {
    match first_match_from(doc, desc_pat(), 0) {
        None => None,
        Some(ds) => match spec_item_elem(doc, key, ds) {
            Some(v) => Some(v),
            None => spec_item_attr(doc, key, ds),
        },
    }
}

/// What resolving the named item against the timestamp grammar yields:
/// the instant and offset, or the exact error.
pub open spec fn spec_xmp_datetime(doc: Seq<u8>, key: Seq<u8>) -> Result<(int, Option<int>), Error> {
    if !spec_has_description(doc) {
        Err(Error::XmpNoDescription)
    } else {
        match spec_xmp_item(doc, key) {
            None => Err(Error::XmpNoItem),
            Some(v) => match spec_parse_timestamp(v) {
                None => Err(Error::Parse),
                Some(p) => Ok(p),
            },
        }
    }
}

fn copy_range(doc: &[u8], a: usize, b: usize) -> (r: Vec<u8>)
    requires
        a <= b <= doc@.len(),
    ensures
        r@ =~= doc@.subrange(a as int, b as int),
{
    let mut v: Vec<u8> = Vec::new();
    let mut i: usize = a;
    while i < b
        invariant
            a <= i <= b <= doc@.len(),
            v@ =~= doc@.subrange(a as int, i as int),
        decreases b - i,
    {
        v.push(doc[i]);
        assert(v@ =~= doc@.subrange(a as int, i + 1));
        i = i + 1;
    }
    v
}

fn value_until(doc: &[u8], from: usize, stop: u8) -> (r: Option<Vec<u8>>)
    requires
        from <= doc@.len(),
    ensures
        match r {
            Some(v) => spec_value_until(doc@, from as int, stop) == Some(v@),
            None => spec_value_until(doc@, from as int, stop) is None,
        },
{
    let pat: Vec<u8> = vec![stop];
    assert(pat@ =~= seq![stop]);
    match find_from(doc, pat.as_slice(), from) {
        Some(j) => Some(copy_range(doc, from, j)),
        None => None,
    }
}

fn elem_pat(key: &[u8]) -> (r: Vec<u8>)
    ensures
        r@ =~= seq![60u8] + key@ + seq![62u8],
{
    let mut v: Vec<u8> = Vec::new();
    v.push(60);
    let mut i: usize = 0;
    while i < key.len()
        invariant
            0 <= i <= key@.len(),
            v@ =~= seq![60u8] + key@.subrange(0, i as int),
        decreases key@.len() - i,
    {
        v.push(key[i]);
        assert(v@ =~= seq![60u8] + key@.subrange(0, i + 1));
        i = i + 1;
    }
    v.push(62);
    assert(key@.subrange(0, key@.len() as int) =~= key@);
    v
}

fn attr_pat(key: &[u8]) -> (r: Vec<u8>)
    ensures
        r@ =~= key@ + seq![61u8, 34u8],
{
    let mut v: Vec<u8> = Vec::new();
    let mut i: usize = 0;
    while i < key.len()
        invariant
            0 <= i <= key@.len(),
            v@ =~= key@.subrange(0, i as int),
        decreases key@.len() - i,
    {
        v.push(key[i]);
        assert(v@ =~= key@.subrange(0, i + 1));
        i = i + 1;
    }
    assert(v@ =~= key@);
    v.push(61);
    v.push(34);
    v
}

/// Reads the named item's text from the document, or says exactly why
/// there is none: no description element, or no such item.
pub fn xmp_item(doc: &[u8], key: &[u8]) -> (r: Result<Vec<u8>, Error>)
    ensures
        !spec_has_description(doc@) ==> r == Err::<Vec<u8>, Error>(Error::XmpNoDescription),
        spec_has_description(doc@) && spec_xmp_item(doc@, key@) is None ==> r == Err::<
            Vec<u8>,
            Error,
        >(Error::XmpNoItem),
        spec_xmp_item(doc@, key@) matches Some(v) ==> r matches Ok(w) && w@ == v,
{
    let dlen: usize = doc.len();
    assert(dlen == doc@.len());
    let dp = desc_pat_bytes();
    let ds = match find_from(doc, dp.as_slice(), 0) {
        None => {
            return Err(Error::XmpNoDescription);
        },
        Some(i) => i,
    };
    let ep = elem_pat(key);
    match find_from(doc, ep.as_slice(), ds) {
        Some(i) => {
            // i + key.len() + 2 <= doc.len() holds: the pattern fit at i.
            match value_until(doc, i + key.len() + 2, 60) {
                Some(v) => {
                    return Ok(v);
                },
                None => {},
            }
        },
        None => {},
    }
    let ap = attr_pat(key);
    match find_from(doc, ap.as_slice(), ds) {
        Some(i) => {
            match value_until(doc, i + key.len() + 2, 34) {
                Some(v) => Ok(v),
                None => Err(Error::XmpNoItem),
            }
        },
        None => Err(Error::XmpNoItem),
    }
}

/// Reads the named item and parses it with the timestamp grammar; the
/// result is exactly what [`spec_xmp_datetime`] assigns to the document.
pub fn xmp_datetime(doc: &[u8], key: &[u8]) -> (r: Result<DateTime, Error>)
    ensures
        match spec_xmp_datetime(doc@, key@) {
            Ok(p) => r matches Ok(d) && dt_matches(d, p) && d.wf(),
            Err(e) => r == Err::<DateTime, Error>(e),
        },
{
    let text = match xmp_item(doc, key) {
        Ok(v) => v,
        Err(e) => {
            return Err(e);
        },
    };
    match parse_timestamp(text.as_slice()) {
        Some((t, off)) => {
            proof {
                lemma_parse_timestamp_bounds(text@);
            }
            Ok(DateTime { time: t, offset: off, ms: None })
        },
        None => Err(Error::Parse),
    }
}

} // verus!
