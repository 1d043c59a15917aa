use vstd::prelude::*;

use crate::error::Error;
use crate::tool::BodyKind;

verus! {

/// The decompressed contents of the first entry of a zip archive, when the
/// bytes form an archive with at least one readable entry.
pub uninterp spec fn zip_first_entry(data: Seq<u8>) -> Option<Seq<u8>>;

/// Relies on `zip::read::read_zipfile_from_stream` and the `Read`
/// implementation of the `ZipFile` it yields: the first entry of the archive
/// at the start of the stream, decompressed, a function of the bytes alone;
/// `None` when the stream holds no readable entry.
#[verifier::external_body]
fn read_first_zip_entry(data: &Vec<u8>) -> (r: Option<Vec<u8>>)
    ensures
        (r is Some <==> zip_first_entry(data@) is Some),
        r is Some ==> r->Some_0@ == zip_first_entry(data@)->Some_0,
{
    let mut cursor: &[u8] = data.as_slice();
    let r = match zip::read::read_zipfile_from_stream(&mut cursor) {
        Ok(Some(mut entry)) => {
            let mut out = Vec::new();
            match std::io::Read::read_to_end(&mut entry, &mut out) {
                Ok(_) => Some(out),
                Err(_) => None,
            }
        },
        _ => None,
    };
    r
}

/// What normalization yields: raw bytes pass through unchanged; zip bytes
/// are replaced by their first entry, and an archive without one is refused.
pub open spec fn normalize_spec(data: Seq<u8>, kind: BodyKind) -> Result<Seq<u8>, Error> {
    match kind {
        BodyKind::Raw => Result::Ok(data),
        BodyKind::Zip => match zip_first_entry(data) {
            Option::Some(b) => Result::Ok(b),
            Option::None => Result::Err(Error::EmptyArchive),
        },
    }
}

/// Turns a downloaded artifact into the bytes of the binary to install. The
/// effective length of the result is its own length: for a zip artifact the
/// uncompressed size of its first entry, else the original size.
pub fn normalize(data: Vec<u8>, kind: BodyKind) -> (r: Result<Vec<u8>, Error>)
    ensures
        match r {
            Result::Ok(b) => normalize_spec(data@, kind) == Result::<Seq<u8>, Error>::Ok(b@),
            Result::Err(e) => normalize_spec(data@, kind) == Result::<Seq<u8>, Error>::Err(e),
        },
{
    match kind {
        BodyKind::Raw => Result::Ok(data),
        BodyKind::Zip => match read_first_zip_entry(&data) {
            Option::Some(b) => Result::Ok(b),
            Option::None => Result::Err(Error::EmptyArchive),
        },
    }
}

/// Normalization round-trip: an archive whose first entry holds some bytes
/// normalizes, along the zip path, to exactly what those bytes themselves
/// yield along the raw path.
pub proof fn lemma_normalize_round_trip(archive: Seq<u8>, entry: Seq<u8>)
    requires
        zip_first_entry(archive) == Option::Some(entry),
    ensures
        normalize_spec(archive, BodyKind::Zip) == normalize_spec(entry, BodyKind::Raw),
{
}

} // verus!
