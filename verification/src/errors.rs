//! Error taxonomy of the resolver.
//!
//! Individual readers surface a specific cause; the orchestrator treats any
//! reader failure as "try the next source" and reports only the final
//! `NotFound` error, naming the timestamp role that could not be resolved.

use vstd::prelude::*;

verus! {

/// The two timestamp roles the resolver knows about.
#[derive(Clone, Copy, Debug, PartialEq, Eq, Structural)]
pub enum Role {
    /// When the shutter fired.
    DateTimeOriginal,
    /// When the file or derivative was created.
    CreateDate,
}

/// Everything that can go wrong while resolving a timestamp.
#[derive(Clone, Copy, Debug, PartialEq, Eq, Structural)]
pub enum Error {
    /// The EXIF container could not be decoded.
    Exif,
    /// The XMP document has no description element.
    XmpNoDescription,
    /// The XMP description holds no item under the requested key.
    XmpNoItem,
    /// A timestamp text did not match the expected calendar format.
    Parse,
    /// A source file could not be read.
    Io,
    /// The RAW decoder rejected the container.
    Raw,
    /// The image container could not be opened.
    Image,
    /// Every source was exhausted for the named role.
    NotFound(Role),
}

impl Error {
    /// A short human-readable description, in place of `Display`.
    pub fn message(&self) -> (r: &'static str)
        ensures
            r@.len() > 0,
    {
        let s: &'static str = match self {
            Error::Exif => "EXIF container error",
            Error::XmpNoDescription => "XMP document has no description",
            Error::XmpNoItem => "XMP item not present",
            Error::Parse => "timestamp text could not be parsed",
            Error::Io => "file could not be read",
            Error::Raw => "RAW decoder error",
            Error::Image => "image container error",
            Error::NotFound(Role::DateTimeOriginal) => "DateTimeOriginal not found",
            Error::NotFound(Role::CreateDate) => "CreateDate not found",
        };
        proof {
            reveal_strlit("EXIF container error");
            reveal_strlit("XMP document has no description");
            reveal_strlit("XMP item not present");
            reveal_strlit("timestamp text could not be parsed");
            reveal_strlit("file could not be read");
            reveal_strlit("RAW decoder error");
            reveal_strlit("image container error");
            reveal_strlit("DateTimeOriginal not found");
            reveal_strlit("CreateDate not found");
        }
        s
    }
}

} // verus!
