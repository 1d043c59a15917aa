use vstd::prelude::*;
use vstd::utf8::is_ascii_chars;

use crate::error::Error;
use crate::strutil::str_eq;
use crate::tool::BodyKind;
use crate::version::{
    all_digits, ascii_view, digits_val, lemma_digits_val_monotone, lemma_digits_val_nonneg,
};

verus! {

/// The validated metadata of a download response: the declared byte length
/// and how the artifact is packaged.
#[derive(Clone, Copy, Debug, PartialEq, Eq, Structural)]
pub struct FetchMeta {
    pub length: u64,
    pub kind: BodyKind,
}

/// The number a `Content-Length` header value declares: a non-empty run of
/// decimal digits that fits a `u64`; anything else is unusable.
pub open spec fn spec_content_length(s: Seq<char>) -> Option<u64> {
    if is_ascii_chars(s) && s.len() > 0 && all_digits(ascii_view(s)) && digits_val(ascii_view(s))
        <= u64::MAX {
        Option::Some(digits_val(ascii_view(s)) as u64)
    } else {
        Option::None
    }
}

/// A `Content-Type` of exactly `application/zip` marks a zip-packaged
/// artifact; any other value is taken as a raw binary.
pub open spec fn spec_body_kind(ct: Seq<char>) -> BodyKind {
    if ct == "application/zip"@ {
        BodyKind::Zip
    } else {
        BodyKind::Raw
    }
}

pub open spec fn opt_chars(o: Option<String>) -> Option<Seq<char>> {
    match o {
        Option::Some(s) => Option::Some(s@),
        Option::None => Option::None,
    }
}

/// How a response is judged, in order: 404 means the version is not
/// published; any other non-200 status is surfaced verbatim; an absent or
/// unusable `Content-Length` and an absent `Content-Type` are refused; a 200
/// response with both headers yields its metadata.
pub open spec fn classify_spec(status: u16, cl: Option<Seq<char>>, ct: Option<Seq<char>>) -> Result<
    FetchMeta,
    Error,
> {
    if status == 404 {
        Result::Err(Error::VersionNotAvailable)
    } else if status != 200 {
        Result::Err(Error::UnexpectedStatus(status))
    } else {
        match cl {
            Option::None => Result::Err(Error::MissingLength),
            Option::Some(s) => match spec_content_length(s) {
                Option::None => Result::Err(Error::MissingLength),
                Option::Some(len) => match ct {
                    Option::None => Result::Err(Error::MissingContentType),
                    Option::Some(c) => Result::Ok(
                        FetchMeta { length: len, kind: spec_body_kind(c) },
                    ),
                },
            },
        }
    }
}

/// Parses a `Content-Length` value. Unlike a version component, leading
/// zeros are allowed.
pub fn parse_content_length(s: &str) -> (r: Option<u64>)
    ensures
        r == spec_content_length(s@),
{
    if !s.is_ascii() {
        return Option::None;
    }
    let b: &[u8] = s.as_bytes();
    proof {
        vstd::string::is_ascii_spec_bytes(s);
        assert(b@ =~= ascii_view(s@));
    }
    if b.len() == 0 {
        return Option::None;
    }
    let mut val: u64 = 0;
    let mut i: usize = 0;
    while i < b.len()
        invariant
            i <= b@.len(),
            0 < b@.len(),
            is_ascii_chars(s@),
            b@ == ascii_view(s@),
            all_digits(b@.take(i as int)),
            val == digits_val(b@.take(i as int)),
        decreases b@.len() - i,
    {
        let c = b[i];
        if c < 48 || c > 57 {
            assert(!crate::version::is_digit(b@[i as int]));
            return Option::None;
        }
        let d: u64 = (c - 48) as u64;
        proof {
            assert(b@.take(i + 1).drop_last() =~= b@.take(i as int));
            assert(b@.take(i + 1).last() == b@[i as int]);
            lemma_digits_val_nonneg(b@.take(i as int));
        }
        let next: Option<u64> = match val.checked_mul(10) {
            Option::Some(x) => x.checked_add(d),
            Option::None => Option::None,
        };
        match next {
            Option::None => {
                proof {
                    assert(digits_val(b@.take(i + 1)) > u64::MAX);
                    if all_digits(b@) {
                        lemma_digits_val_monotone(b@, i + 1);
                    }
                }
                return Option::None;
            },
            Option::Some(y) => {
                val = y;
            },
        }
        i = i + 1;
    }
    proof {
        assert(b@.take(b@.len() as int) =~= b@);
    }
    Option::Some(val)
}

/// Judges a download response: status first, then length, then content
/// type. Returns the declared length and packaging of a good response, and
/// the error of a bad one — without touching the filesystem.
pub fn classify_response(
    status: u16,
    content_length: &Option<String>,
    content_type: &Option<String>,
) -> (r: Result<FetchMeta, Error>)
    ensures
        r == classify_spec(status, opt_chars(*content_length), opt_chars(*content_type)),
{
    if status == 404 {
        return Result::Err(Error::VersionNotAvailable);
    }
    if status != 200 {
        return Result::Err(Error::UnexpectedStatus(status));
    }
    let length: u64 = match content_length {
        Option::None => {
            return Result::Err(Error::MissingLength);
        },
        Option::Some(s) => match parse_content_length(s.as_str()) {
            Option::None => {
                return Result::Err(Error::MissingLength);
            },
            Option::Some(len) => len,
        },
    };
    match content_type {
        Option::None => Result::Err(Error::MissingContentType),
        Option::Some(c) => {
            let kind = if str_eq(c.as_str(), "application/zip") {
                BodyKind::Zip
            } else {
                BodyKind::Raw
            };
            Result::Ok(FetchMeta { length, kind })
        },
    }
}

} // verus!
