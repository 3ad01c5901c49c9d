//! Response marshalling: what a caller gets back from a finished
//! request, built from the transport's view of the response.
//!
//! Header values that are not visible ASCII are silently dropped, an
//! intentional quirk kept from the engine's behaviour. A header that
//! keeps exactly one value is reported as that single value; any other
//! count is reported as a list. The body is returned either as the
//! exact bytes received, or decoded as UTF-8 text where an invalid
//! encoding yields an absent body rather than an error.

use vstd::prelude::*;
use vstd::utf8::{
    decode_first_codepoint, decode_utf8, is_leading_byte_width_1, length_of_first_codepoint,
    pop_first_scalar, valid_first_scalar, valid_utf8,
};

use crate::time_jar::NewCookies;

verus! {

/// The representation a caller asked for: the body as decoded text, or
/// as the raw bytes received.
#[derive(Clone, Copy, Debug, PartialEq, Eq, Structural)]
pub enum ResponseType {
    Text,
    Binary,
}

impl ResponseType {
    /// The representation named by a descriptor string: `"binary"`
    /// selects raw bytes; anything else, including an unrecognised
    /// name, defaults to text.
    pub open spec fn spec_from_str(s: Seq<char>) -> ResponseType {
        if s == "binary"@ {
            ResponseType::Binary
        } else {
            ResponseType::Text
        }
    }

    pub fn from_str(s: &str) -> (r: ResponseType)
        ensures
            r == Self::spec_from_str(s@),
    {
        if s.to_owned() == "binary".to_owned() {
            ResponseType::Binary
        } else {
            ResponseType::Text
        }
    }
}

/// Whether a byte may appear in a header value that is kept: the
/// visible ASCII range, or horizontal tab.
pub open spec fn spec_visible_ascii_byte(b: u8) -> bool {
    (32 <= b && b < 127) || b == 9
}

/// Whether a whole header value is kept: every byte of it is visible
/// ASCII.
pub open spec fn spec_visible_ascii(v: Seq<u8>) -> bool {
    forall|i: int| 0 <= i < v.len() ==> spec_visible_ascii_byte(#[trigger] v[i])
}

fn is_visible_ascii(v: &Vec<u8>) -> (r: bool)
    ensures
        r == spec_visible_ascii(v@),
{
    let n = v.len();
    for i in 0..n
        invariant
            n == v.len(),
            forall|j: int| 0 <= j < i ==> spec_visible_ascii_byte(#[trigger] v@[j]),
    {
        let b = v[i];
        if !((32 <= b && b < 127) || b == 9) {
            return false;
        }
    }
    true
}

/// Bytes that are all ASCII are a valid UTF-8 encoding, and decode to
/// themselves, byte for byte, as characters.
pub proof fn lemma_ascii_bytes_utf8(bytes: Seq<u8>)
    requires
        forall|i: int| 0 <= i < bytes.len() ==> (#[trigger] bytes[i]) < 0x80,
    ensures
        valid_utf8(bytes),
        decode_utf8(bytes) == bytes.map_values(|b: u8| b as char),
    decreases bytes.len(),
{
    if bytes.len() == 0 {
        assert(decode_utf8(bytes) =~= bytes.map_values(|b: u8| b as char));
    } else {
        let b0 = bytes[0];
        assert(is_leading_byte_width_1(b0));
        assert((b0 & 0x7f) == b0) by (bit_vector)
            requires
                b0 < 0x80,
        ;
        assert(decode_first_codepoint(bytes) == b0 as u32);
        assert(length_of_first_codepoint(bytes) == 1);
        assert(valid_first_scalar(bytes));
        let rest = pop_first_scalar(bytes);
        assert(rest =~= bytes.drop_first());
        lemma_ascii_bytes_utf8(rest);
        assert(valid_utf8(bytes));
        assert(decode_utf8(bytes) =~= bytes.map_values(|b: u8| b as char));
    }
}

/// Relies on `str::from_utf8`: it succeeds exactly on valid UTF-8
/// input, and the resulting string holds the decoded characters.
#[verifier::external_body]
fn try_decode_utf8(bytes: &[u8]) -> (r: Option<&str>)
    ensures
        r is Some <==> valid_utf8(bytes@),
        r is Some ==> r.unwrap()@ == decode_utf8(bytes@),
{
    match core::str::from_utf8(bytes) {
        Ok(s) => Some(s),
        Err(_) => None,
    }
}

/// Best-effort text decoding of a body: the decoded characters on
/// valid UTF-8, absent otherwise — never an error.
pub open spec fn spec_decoded_text(bytes: Seq<u8>) -> Option<Seq<char>> {
    if valid_utf8(bytes) {
        Some(decode_utf8(bytes))
    } else {
        None
    }
}

/// One response header as the transport saw it: its name, and every
/// raw value received under that name, in order.
pub struct RawHeader {
    pub name: String,
    pub values: Vec<Vec<u8>>,
}

/// The mathematical value of a [`RawHeader`].
pub struct RawHeaderView {
    pub name: Seq<char>,
    pub values: Seq<Seq<u8>>,
}

impl View for RawHeader {
    type V = RawHeaderView;

    open spec fn view(&self) -> RawHeaderView {
        RawHeaderView { name: self.name@, values: self.values.deep_view() }
    }
}

/// A reported header value: a single string when exactly one value was
/// kept, a list of strings otherwise — repeats are preserved as an
/// ordered list, never collapsed.
#[derive(Debug, PartialEq, Eq)]
pub enum HeaderEntry {
    Single(String),
    Multiple(Vec<String>),
}

/// The mathematical value of a [`HeaderEntry`].
pub enum HeaderEntryView {
    Single(Seq<char>),
    Multiple(Seq<Seq<char>>),
}

impl View for HeaderEntry {
    type V = HeaderEntryView;

    open spec fn view(&self) -> HeaderEntryView {
        match self {
            HeaderEntry::Single(s) => HeaderEntryView::Single(s@),
            HeaderEntry::Multiple(v) => HeaderEntryView::Multiple(v.deep_view()),
        }
    }
}

/// One header of the reported payload.
pub struct HeaderField {
    pub name: String,
    pub entry: HeaderEntry,
}

/// The mathematical value of a [`HeaderField`].
pub struct HeaderFieldView {
    pub name: Seq<char>,
    pub entry: HeaderEntryView,
}

impl View for HeaderField {
    type V = HeaderFieldView;

    open spec fn view(&self) -> HeaderFieldView {
        HeaderFieldView { name: self.name@, entry: self.entry@ }
    }
}

/// The header values kept for one name: those that are visible ASCII,
/// in their original order, as character strings.
pub open spec fn spec_kept_values(values: Seq<Seq<u8>>) -> Seq<Seq<char>> {
    values.filter(|v: Seq<u8>| spec_visible_ascii(v)).map_values(
        |v: Seq<u8>| v.map_values(|b: u8| b as char),
    )
}

/// How one header's kept values are reported: a single string when
/// exactly one was kept, the ordered list otherwise.
pub open spec fn spec_header_entry(values: Seq<Seq<u8>>) -> HeaderEntryView {
    let kept = spec_kept_values(values);
    if kept.len() == 1 {
        HeaderEntryView::Single(kept[0])
    } else {
        HeaderEntryView::Multiple(kept)
    }
}

/// The reported body: under `Binary` the exact byte sequence received,
/// unmodified; under `Text` the best-effort decoding. A body the
/// transport failed to read is absent in either representation.
#[derive(Debug, PartialEq, Eq)]
pub enum DataType {
    Text(Option<String>),
    Binary(Option<Vec<u8>>),
}

/// The mathematical value of a [`DataType`].
pub enum DataTypeView {
    Text(Option<Seq<char>>),
    Binary(Option<Seq<u8>>),
}

impl View for DataType {
    type V = DataTypeView;

    open spec fn view(&self) -> DataTypeView {
        match self {
            DataType::Text(o) => DataTypeView::Text(o.deep_view()),
            DataType::Binary(o) => DataTypeView::Binary(o.deep_view()),
        }
    }
}

/// What the reported body is, given the received bytes (absent when
/// the transport failed to read them) and the requested
/// representation.
pub open spec fn spec_body_data(body: Option<Seq<u8>>, response_type: ResponseType) -> DataTypeView {
    match response_type {
        ResponseType::Text => DataTypeView::Text(
            match body {
                Some(b) => spec_decoded_text(b),
                None => None,
            },
        ),
        ResponseType::Binary => DataTypeView::Binary(body),
    }
}

/// The transport's view of a finished response: status code, protocol
/// version, every header with its raw values, the advertised content
/// length if any, and the body bytes (absent when reading them
/// failed).
pub struct ResponseFacts {
    pub status: u16,
    pub http_version: String,
    pub headers: Vec<RawHeader>,
    pub content_length: Option<u64>,
    pub body: Option<Vec<u8>>,
}

/// The payload handed to the caller on a final success: status code,
/// protocol version, the reported headers, the advertised content
/// length if known, the body in the requested representation, and the
/// cookies recorded during the request's lifetime.
pub struct CallbackPayload {
    pub status: u16,
    pub http_version: String,
    pub headers: Vec<HeaderField>,
    pub content_length: Option<u64>,
    pub data: DataType,
    pub new_cookies: Vec<NewCookies>,
}

/// Converts one raw header: values that are not visible ASCII are
/// dropped, the survivors are decoded, and a lone survivor is reported
/// as a single value.
fn convert_header(h: &RawHeader) -> (r: HeaderField)
    ensures
        r@.name == h@.name,
        r@.entry == spec_header_entry(h@.values),
{
    let mut kept: Vec<String> = Vec::new();
    let n = h.values.len();
    proof {
        assert(h@.values.take(0) =~= Seq::<Seq<u8>>::empty());
        reveal(Seq::filter);
        assert(kept.deep_view() =~= spec_kept_values(h@.values.take(0)));
    }
    for j in 0..n
        invariant
            n == h.values.len(),
            n == h@.values.len(),
            kept.deep_view() == spec_kept_values(h@.values.take(j as int)),
    {
        let ghost prefix = h@.values.take(j as int);
        let ghost v_spec = h@.values[j as int];
        let ghost old_kept = kept.deep_view();
        proof {
            assert(v_spec == h.values@[j as int]@);
            assert(h@.values.take(j as int + 1) =~= prefix.push(v_spec));
            prefix.lemma_filter_push(v_spec, |v: Seq<u8>| spec_visible_ascii(v));
        }
        let value = &h.values[j];
        if is_visible_ascii(value) {
            proof {
                assert forall|i: int| 0 <= i < v_spec.len() implies (#[trigger] v_spec[i])
                    < 0x80 by {
                    assert(spec_visible_ascii_byte(v_spec[i]));
                }
                lemma_ascii_bytes_utf8(v_spec);
            }
            if let Some(st) = try_decode_utf8(value.as_slice()) {
                kept.push(st.to_owned());
                proof {
                    assert(kept.deep_view() =~= old_kept.push(v_spec.map_values(
                        |b: u8| b as char,
                    )));
                    assert(prefix.push(v_spec).filter(|v: Seq<u8>| spec_visible_ascii(v))
                        .map_values(|v: Seq<u8>| v.map_values(|b: u8| b as char)) =~= old_kept.push(
                        v_spec.map_values(|b: u8| b as char),
                    ));
                }
            } else {
                proof {
                    assert(false);
                }
            }
        } else {
            proof {
                assert(prefix.push(v_spec).filter(|v: Seq<u8>| spec_visible_ascii(v)).map_values(
                    |v: Seq<u8>| v.map_values(|b: u8| b as char),
                ) =~= old_kept);
            }
        }
    }
    proof {
        assert(h@.values.take(n as int) =~= h@.values);
    }
    let entry = if kept.len() == 1 {
        HeaderEntry::Single(kept[0].clone())
    } else {
        HeaderEntry::Multiple(kept)
    };
    HeaderField { name: h.name.clone(), entry }
}

/// Builds the caller-visible payload from the transport's view of a
/// successful response: status, version and content length are carried
/// over unchanged, headers are converted per [`spec_header_entry`],
/// the body follows the requested representation per
/// [`spec_body_data`], and the given cookie records are bundled in.
pub fn map_response(
    facts: ResponseFacts,
    response_type: ResponseType,
    new_cookies: Vec<NewCookies>,
) -> (p: CallbackPayload)
    ensures
        p.status == facts.status,
        p.http_version == facts.http_version,
        p.content_length == facts.content_length,
        p.headers@.len() == facts.headers@.len(),
        forall|i: int|
            0 <= i < facts.headers@.len() ==> (#[trigger] p.headers@[i])@ == (HeaderFieldView {
                name: facts.headers@[i]@.name,
                entry: spec_header_entry(facts.headers@[i]@.values),
            }),
        p.data@ == spec_body_data(facts.body.deep_view(), response_type),
        p.new_cookies == new_cookies,
{
    let mut headers: Vec<HeaderField> = Vec::new();
    let n = facts.headers.len();
    for i in 0..n
        invariant
            n == facts.headers.len(),
            headers@.len() == i,
            forall|k: int|
                0 <= k < i ==> (#[trigger] headers@[k])@ == (HeaderFieldView {
                    name: facts.headers@[k]@.name,
                    entry: spec_header_entry(facts.headers@[k]@.values),
                }),
    {
        headers.push(convert_header(&facts.headers[i]));
    }

    let ghost body_view = facts.body.deep_view();
    let data = match response_type {
        ResponseType::Text => {
            let text: Option<String> = match &facts.body {
                Some(b) => {
                    proof {
                        assert(body_view == Some(b@));
                    }
                    match try_decode_utf8(b.as_slice()) {
                        Some(st) => {
                            proof {
                                assert(valid_utf8(b@));
                                assert(st@ == decode_utf8(b@));
                            }
                            Some(st.to_owned())
                        },
                        None => {
                            proof {
                                assert(!valid_utf8(b@));
                            }
                            None
                        },
                    }
                },
                None => {
                    proof {
                        assert(body_view is None);
                    }
                    None
                },
            };
            proof {
                assert(text.deep_view() == (match body_view {
                    Some(b) => spec_decoded_text(b),
                    None => None::<Seq<char>>,
                }));
            }
            DataType::Text(text)
        },
        ResponseType::Binary => DataType::Binary(facts.body),
    };
    proof {
        assert(data@ == spec_body_data(body_view, response_type));
    }

    CallbackPayload {
        status: facts.status,
        http_version: facts.http_version,
        headers,
        content_length: facts.content_length,
        data,
        new_cookies,
    }
}

} // verus!
