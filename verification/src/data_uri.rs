//! Parsing and decoding of `data:` URIs, the inline form in which glTF
//! documents embed buffer and image payloads.
//!
//! A data URI is `data:<mime type>[;base64],<data>`. Parsing splits the
//! three parts; decoding either base64-decodes the data part or returns its
//! UTF-8 bytes verbatim.

use vstd::prelude::*;
use vstd::string::StringSliceAdditionalSpecFns;

verus! {

/// `c` occurs in `s` for the first time at index `i`.
pub open spec fn found_at(s: Seq<char>, c: char, i: int) -> bool {
    &&& 0 <= i < s.len()
    &&& s[i] == c
    &&& forall|j: int| 0 <= j < i ==> s[j] != c
}

/// The first occurrence of a character is unique.
pub proof fn lemma_found_at_unique(s: Seq<char>, c: char, i: int, j: int)
    requires
        found_at(s, c, i),
        found_at(s, c, j),
    ensures
        i == j,
{
}

/// Splits a string at the first occurrence of `delimiter` into the parts
/// before and after it; `None` when the delimiter does not occur.
pub fn split_once<'a>(input: &'a str, delimiter: char) -> (r: Option<(&'a str, &'a str)>)
    ensures
        match r {
            Some(parts) => exists|i: int|
                {
                    &&& #[trigger] found_at(input@, delimiter, i)
                    &&& parts.0@ == input@.subrange(0, i)
                    &&& parts.1@ == input@.subrange(i + 1, input@.len() as int)
                },
            None => forall|j: int| 0 <= j < input@.len() ==> input@[j] != delimiter,
        },
{
    let n = input.unicode_len();
    let mut i: usize = 0;
    while i < n
        invariant
            n == input@.len(),
            i <= n,
            forall|j: int| 0 <= j < i ==> input@[j] != delimiter,
        decreases n - i,
    {
        if input.get_char(i) == delimiter {
            let before = input.substring_char(0, i);
            let after = input.substring_char(i + 1, n);
            proof {
                assert(found_at(input@, delimiter, i as int));
            }
            return Some((before, after));
        }
        i += 1;
    }
    None
}

/// The scheme prefix every data URI starts with.
pub open spec fn data_scheme_prefix() -> Seq<char> {
    seq!['d', 'a', 't', 'a', ':']
}

/// The suffix of the mime-type part announcing base64-encoded data.
pub open spec fn base64_marker() -> Seq<char> {
    seq![';', 'b', 'a', 's', 'e', '6', '4']
}

pub open spec fn has_data_scheme(s: Seq<char>) -> bool {
    s.len() >= 5 && s.subrange(0, 5) == data_scheme_prefix()
}

pub open spec fn has_base64_marker(mime_part: Seq<char>) -> bool {
    mime_part.len() >= 7 && mime_part.subrange(mime_part.len() - 7, mime_part.len() as int)
        == base64_marker()
}

/// What parsing a data URI yields: the mime type, whether the data part is
/// base64-encoded, and the data part — or nothing, when the string has no
/// `data:` scheme or no comma after the mime type.
pub open spec fn data_uri_parts(s: Seq<char>) -> Option<(Seq<char>, bool, Seq<char>)> {
    if !has_data_scheme(s) {
        None
    } else {
        let rest = s.subrange(5, s.len() as int);
        if forall|j: int| 0 <= j < rest.len() ==> rest[j] != ',' {
            None
        } else {
            let i = choose|i: int| found_at(rest, ',', i);
            let mime_part = rest.subrange(0, i);
            let data = rest.subrange(i + 1, rest.len() as int);
            if has_base64_marker(mime_part) {
                Some((mime_part.subrange(0, mime_part.len() - 7), true, data))
            } else {
                Some((mime_part, false, data))
            }
        }
    }
}

/// A parsed `data:` URI, borrowing the mime type and data parts.
pub struct DataUri<'a> {
    pub mime_type: &'a str,
    pub base64: bool,
    pub data: &'a str,
}

/// The failure of [`DataUri::decode`]: the data part is not valid base64.
#[derive(Clone, Copy, PartialEq, Eq, Structural, Debug)]
pub enum DataUriDecodeError {
    InvalidBase64,
}

/// What base64's standard-alphabet decoder yields for an input: `Some`
/// decoded bytes for a valid encoding, `None` where the engine rejects it.
pub uninterp spec fn base64_decode_of(s: Seq<char>) -> Option<Seq<u8>>;

/// Relies on `base64::Engine::decode` with the standard engine: the result
/// is a function of the input characters alone, decoded bytes on success
/// and an error exactly when the engine rejects the input.
#[verifier::external_body]
fn base64_decode(s: &str) -> (r: Result<Vec<u8>, base64::DecodeError>)
    ensures
        match r {
            Ok(v) => base64_decode_of(s@) == Some(v@),
            Err(_) => base64_decode_of(s@) is None,
        },
{
    base64::Engine::decode(&base64::engine::general_purpose::STANDARD, s)
}

#[verifier::external_type_specification]
#[verifier::external_body]
pub struct ExDecodeError(base64::DecodeError);

impl<'a> DataUri<'a> {
    /// Parses `uri` as a data URI: the `data:` scheme, a mime-type part up
    /// to the first comma — with a trailing base64 marker split off into
    /// the flag — and the data part after the comma.
    pub fn parse(uri: &'a str) -> (r: Result<DataUri<'a>, ()>)
        ensures
            match r {
                Ok(d) => {
                    &&& data_uri_parts(uri@) is Some
                    &&& d.mime_type@ == data_uri_parts(uri@).unwrap().0
                    &&& d.base64 == data_uri_parts(uri@).unwrap().1
                    &&& d.data@ == data_uri_parts(uri@).unwrap().2
                },
                Err(_) => data_uri_parts(uri@) is None,
            },
    {
        let n = uri.unicode_len();
        if n < 5 {
            return Err(());
        }
        if !(uri.get_char(0) == 'd' && uri.get_char(1) == 'a' && uri.get_char(2) == 't'
            && uri.get_char(3) == 'a' && uri.get_char(4) == ':') {
            proof {
                if has_data_scheme(uri@) {
                    assert(uri@.subrange(0, 5)[0] == 'd');
                    assert(uri@.subrange(0, 5)[1] == 'a');
                    assert(uri@.subrange(0, 5)[2] == 't');
                    assert(uri@.subrange(0, 5)[3] == 'a');
                    assert(uri@.subrange(0, 5)[4] == ':');
                }
            }
            return Err(());
        }
        proof {
            assert(uri@.subrange(0, 5) =~= data_scheme_prefix());
        }
        let rest = uri.substring_char(5, n);
        let ghost rest_seq = uri@.subrange(5, uri@.len() as int);
        match split_once(rest, ',') {
            None => {
                return Err(());
            },
            Some(parts) => {
                let mime_part = parts.0;
                let data = parts.1;
                let ghost comma = choose|i: int|
                    {
                        &&& #[trigger] found_at(rest_seq, ',', i)
                        &&& mime_part@ == rest_seq.subrange(0, i)
                        &&& data@ == rest_seq.subrange(i + 1, rest_seq.len() as int)
                    };
                proof {
                    lemma_found_at_unique(
                        rest_seq,
                        ',',
                        comma,
                        choose|i: int| found_at(rest_seq, ',', i),
                    );
                }
                let m = mime_part.unicode_len();
                let mut is_base64 = false;
                if m >= 7 {
                    if mime_part.get_char(m - 7) == ';' && mime_part.get_char(m - 6) == 'b'
                        && mime_part.get_char(m - 5) == 'a' && mime_part.get_char(m - 4) == 's'
                        && mime_part.get_char(m - 3) == 'e' && mime_part.get_char(m - 2) == '6'
                        && mime_part.get_char(m - 1) == '4' {
                        is_base64 = true;
                    }
                }
                proof {
                    if is_base64 {
                        assert(mime_part@.subrange(m - 7, m as int) =~= base64_marker());
                    } else if has_base64_marker(mime_part@) {
                        assert(mime_part@.subrange(m - 7, m as int)[0] == ';');
                        assert(mime_part@.subrange(m - 7, m as int)[1] == 'b');
                        assert(mime_part@.subrange(m - 7, m as int)[2] == 'a');
                        assert(mime_part@.subrange(m - 7, m as int)[3] == 's');
                        assert(mime_part@.subrange(m - 7, m as int)[4] == 'e');
                        assert(mime_part@.subrange(m - 7, m as int)[5] == '6');
                        assert(mime_part@.subrange(m - 7, m as int)[6] == '4');
                    }
                }
                if is_base64 {
                    let mime_type = mime_part.substring_char(0, m - 7);
                    Ok(DataUri { mime_type, base64: true, data })
                } else {
                    Ok(DataUri { mime_type: mime_part, base64: false, data })
                }
            },
        }
    }

    /// Decodes the data part: base64-decoded when the URI carries the
    /// base64 marker, its UTF-8 bytes verbatim otherwise.
    pub fn decode(&self) -> (r: Result<Vec<u8>, DataUriDecodeError>)
        ensures
            self.base64 ==> match r {
                Ok(v) => base64_decode_of(self.data@) == Some(v@),
                Err(e) => {
                    &&& base64_decode_of(self.data@) is None
                    &&& e == DataUriDecodeError::InvalidBase64
                },
            },
            !self.base64 ==> {
                &&& r is Ok
                &&& r.unwrap()@ == self.data.spec_bytes()
            },
    {
        if self.base64 {
            match base64_decode(self.data) {
                Ok(v) => Ok(v),
                Err(_) => Err(DataUriDecodeError::InvalidBase64),
            }
        } else {
            Ok(self.data.as_bytes_vec())
        }
    }
}

} // verus!
