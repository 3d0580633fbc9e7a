//! The Exif parser (`kamadak-exif`) as this crate uses it.

use vstd::prelude::*;

verus! {

/// What `exif::Reader::read_raw` says of the bytes: `None` when it parses
/// them, else the text of its error.
pub uninterp spec fn exif_read_raw_error(data: Seq<u8>) -> Option<Seq<char>>;

/// `exif::Reader::new().read_raw(data)`, keeping only whether it parsed and,
/// when it did not, its error's text (`Display`).
/// Claims: the outcome is a function of the bytes alone, named
/// `exif_read_raw_error`; nothing is claimed about which bytes parse.
#[verifier::external_body]
pub(crate) fn read_raw_exif(data: Vec<u8>) -> (r: Result<(), String>)
    ensures
        match r {
            Ok(()) => exif_read_raw_error(data@) is None,
            Err(text) => exif_read_raw_error(data@) == Some(text@),
        },
{
    match ::exif::Reader::new().read_raw(data) {
        Ok(_) => Ok(()),
        Err(e) => Err(e.to_string()),
    }
}

} // verus!
