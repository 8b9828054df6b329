//! A received response, kept whole for display and history, and the views
//! derived from it: its content type and a file name to save it under.

use crate::headers::{lookup, same_name, Headers};
use crate::text::{
    bytes_equal, decimal, decimal_text, decode, eq_ignoring_case, find, find_byte,
    lemma_boundary_after_ascii, lemma_boundary_at_ascii, lemma_find, lemma_piece_is_text,
    lemma_skip_leading, lemma_skip_trailing, same_ignoring_case, skip_leading, skip_trailing,
    string_view, strip, text_of,
};
use vstd::prelude::*;
use vstd::slice::*;
use vstd::string::*;
use vstd::utf8::*;

verus! {

/// What `mime` reads out of a media type: its type, its subtype and its
/// suffix, in this order; `None` where it rejects the text.
pub uninterp spec fn mime_parts(text: Seq<char>) -> Option<(Seq<char>, Seq<char>, Option<Seq<char>>)>;

/// A media type, taken apart.
#[derive(Debug, PartialEq, Eq)]
pub struct MediaType {
    /// Top-level type, such as `application`
    pub kind: String,
    /// Subtype without any suffix, such as `json`
    pub subtype: String,
    /// What follows a `+` in the subtype, such as `xml` in `svg+xml`
    pub suffix: Option<String>,
}

/// The kinds of content that a body can be parsed as.
#[derive(Clone, Copy, Debug, PartialEq, Eq, Structural)]
pub enum ContentType {
    Json,
}

/// The parsed form of a body, as the parser for its content type reports it.
#[derive(Debug, PartialEq, Eq)]
pub struct ParsedBody {
    /// The content type that the body was parsed as
    pub content_type: ContentType,
    /// The body, laid out for reading
    pub pretty: String,
}

/// When to parse the body of a response.
#[derive(Clone, Copy, Debug, PartialEq, Eq, Structural)]
pub enum ParseMode {
    /// At once, before the response is handed on
    Immediate,
    /// On a worker, which reports back when it is done
    Background,
}

/// An HTTP status code: a number from 100 to 999.
#[derive(Clone, Copy, Debug, PartialEq, Eq, Structural)]
pub struct StatusCode {
    code: u16,
}

/// Body of a response. The content is kept as bytes, since it need not be
/// text, and turned into text only on demand. The parsed form is attached
/// later, once: parsing needs the content type, which the body does not know.
pub struct ResponseBody {
    data: Vec<u8>,
    parsed: Option<ParsedBody>,
}

/// A response with all of its content loaded. It cannot be cloned: a
/// response can be very large.
#[derive(PartialEq)]
pub struct ResponseRecord {
    pub status: StatusCode,
    pub headers: Headers,
    pub body: ResponseBody,
}

impl View for MediaType {
    type V = (Seq<char>, Seq<char>, Option<Seq<char>>);

    open spec fn view(&self) -> (Seq<char>, Seq<char>, Option<Seq<char>>) {
        (self.kind@, self.subtype@, string_view(self.suffix))
    }
}

impl View for ResponseBody {
    type V = Seq<u8>;

    closed spec fn view(&self) -> Seq<u8> {
        self.data@
    }
}

/// The view of an optional media type.
pub open spec fn media_view(media: Option<MediaType>) -> Option<
    (Seq<char>, Seq<char>, Option<Seq<char>>),
> {
    match media {
        Some(m) => Some(m@),
        None => None,
    }
}

/// The content type that a media type stands for: JSON for
/// `application/json` and for any `application` subtype with the suffix
/// `json`; none for any other.
pub open spec fn content_type_of(media: (Seq<char>, Seq<char>, Option<Seq<char>>)) -> Option<
    ContentType,
> {
    if same_name(media.0, "application"@) && (same_name(media.1, "json"@) || (media.2 is Some
        && same_name(media.2->0, "json"@))) {
        Some(ContentType::Json)
    } else {
        None
    }
}

/// The media type in the first `Content-Type` header, where that header is
/// there, is text, and is a media type.
pub open spec fn header_media_type(headers: Seq<(Seq<char>, Seq<u8>)>) -> Option<
    (Seq<char>, Seq<char>, Option<Seq<char>>),
> {
    match lookup(headers, "content-type"@) {
        Some(value) => match text_of(value) {
            Some(text) => mime_parts(text),
            None => None,
        },
        None => None,
    }
}

/// The content type that the headers declare.
pub open spec fn header_content_type(headers: Seq<(Seq<char>, Seq<u8>)>) -> Option<ContentType> {
    match header_media_type(headers) {
        Some(media) => content_type_of(media),
        None => None,
    }
}

/// The bytes of `filename`, the parameter that names a file.
pub open spec fn filename_key() -> Seq<u8> {
    seq![0x66u8, 0x69u8, 0x6cu8, 0x65u8, 0x6eu8, 0x61u8, 0x6du8, 0x65u8]
}

/// Where the file name stands in the piece `from..to` of a header value, as
/// its start and its end. The piece, without the white space around it, has
/// to be `filename`, in any case, then `=`, then the name; the double quotes
/// around the name are not part of it.
pub open spec fn name_in_piece(value: Seq<u8>, from: int, to: int) -> Option<(int, int)> {
    let start = skip_leading(value, false, from, to);
    let end = skip_trailing(value, false, start, to);
    let eq = find(value, 0x3d, start, end);
    if eq < end && same_ignoring_case(value.subrange(start, eq), filename_key()) {
        let name_start = skip_leading(value, true, eq + 1, end);
        Some((name_start, skip_trailing(value, true, name_start, end)))
    } else {
        None
    }
}

/// Where the file name stands in a header value, read from `from` on: in the
/// first of the pieces between semicolons that holds one.
pub open spec fn name_in_value(value: Seq<u8>, from: int) -> Option<(int, int)>
    decreases value.len() - from,
{
    if from > value.len() {
        None
    } else {
        let semicolon = find(value, 0x3b, from, value.len() as int);
        match name_in_piece(value, from, semicolon) {
            Some(range) => Some(range),
            None => if from <= semicolon < value.len() {
                name_in_value(value, semicolon + 1)
            } else {
                None
            },
        }
    }
}

/// The file name that a `Content-Disposition` value gives: the text of its
/// `filename` parameter, where the value is text and holds one.
pub open spec fn disposition_name(value: Seq<u8>) -> Option<Seq<char>> {
    if valid_utf8(value) {
        match name_in_value(value, 0) {
            Some(range) => Some(decode_utf8(value.subrange(range.0, range.1))),
            None => None,
        }
    } else {
        None
    }
}

/// In a piece of a text that ends at the end of the text or at an ASCII
/// byte, a file name is itself text.
pub proof fn lemma_name_in_piece_is_text(value: Seq<u8>, from: int, to: int)
    requires
        valid_utf8(value),
        0 <= from <= to <= value.len(),
        to < value.len() ==> value[to] < 0x80,
    ensures
        name_in_piece(value, from, to) matches Some(range) ==> {
            &&& 0 <= range.0 <= range.1 <= value.len()
            &&& valid_utf8(value.subrange(range.0, range.1))
        },
{
    let start = skip_leading(value, false, from, to);
    lemma_skip_leading(value, false, from, to);
    let end = skip_trailing(value, false, start, to);
    lemma_skip_trailing(value, false, start, to);
    let eq = find(value, 0x3d, start, end);
    lemma_find(value, 0x3d, start, end);
    if eq < end {
        let name_start = skip_leading(value, true, eq + 1, end);
        lemma_skip_leading(value, true, eq + 1, end);
        let name_end = skip_trailing(value, true, name_start, end);
        lemma_skip_trailing(value, true, name_start, end);
        assert(value[name_start - 1] < 0x80);
        lemma_boundary_after_ascii(value, name_start - 1);
        assert(name_end < value.len() ==> value[name_end] < 0x80);
        lemma_boundary_at_ascii(value, name_end);
        lemma_piece_is_text(value, name_start, name_end);
    }
}

/// The file name in a header value that is text is itself text.
pub proof fn lemma_name_in_value_is_text(value: Seq<u8>, from: int)
    requires
        valid_utf8(value),
        0 <= from <= value.len(),
    ensures
        name_in_value(value, from) matches Some(range) ==> {
            &&& 0 <= range.0 <= range.1 <= value.len()
            &&& valid_utf8(value.subrange(range.0, range.1))
        },
    decreases value.len() - from,
{
    let semicolon = find(value, 0x3b, from, value.len() as int);
    lemma_find(value, 0x3b, from, value.len() as int);
    lemma_name_in_piece_is_text(value, from, semicolon);
    if name_in_piece(value, from, semicolon) is None && semicolon < value.len() {
        lemma_name_in_value_is_text(value, semicolon + 1);
    }
}

/// The name to save a response under. The `filename` of the first
/// `Content-Disposition` header comes first. Failing that, the subtype of the
/// `Content-Type` header gives an extension, whether or not the type is one
/// that can be parsed.
pub open spec fn suggested_file_name(headers: Seq<(Seq<char>, Seq<u8>)>) -> Option<Seq<char>> {
    let from_disposition = match lookup(headers, "content-disposition"@) {
        Some(value) => disposition_name(value),
        None => None,
    };
    match from_disposition {
        Some(name) => Some(name),
        None => match header_media_type(headers) {
            Some(media) => Some("data."@ + media.1),
            None => None,
        },
    }
}

impl ContentType {
    /// The content type that a media type stands for, if any.
    pub fn from_media_type(media: &MediaType) -> (content_type: Option<ContentType>)
        ensures
            content_type == content_type_of(media@),
    {
        let application = "application".as_bytes();
        let json = "json".as_bytes();
        if !eq_ignoring_case(media.kind.as_str().as_bytes(), application) {
            return None;
        }
        if eq_ignoring_case(media.subtype.as_str().as_bytes(), json) {
            return Some(ContentType::Json);
        }
        match &media.suffix {
            Some(suffix) => if eq_ignoring_case(suffix.as_str().as_bytes(), json) {
                Some(ContentType::Json)
            } else {
                None
            },
            None => None,
        }
    }

    /// The content type that the first `Content-Type` header declares.
    pub fn from_headers(headers: &Headers) -> (content_type: Option<ContentType>)
        ensures
            content_type == header_content_type(headers@),
    {
        match media_type_of(headers) {
            Some(media) => ContentType::from_media_type(&media),
            None => None,
        }
    }
}

impl MediaType {
    /// Read a media type such as `text/html; charset=utf-8`.
    pub fn parse(text: &str) -> (media: Option<MediaType>)
        ensures
            media_view(media) == mime_parts(text@),
    {
        parse_mime(text)
    }

    /// The name `data.` followed by the subtype: a file name whose extension
    /// tells the kind of content.
    pub fn data_file_name(&self) -> (name: String)
        ensures
            name@ == "data."@ + self.subtype@,
    {
        String::from_str("data.").concat(self.subtype.as_str())
    }
}

/// The media type in the first `Content-Type` header.
pub fn media_type_of(headers: &Headers) -> (media: Option<MediaType>)
    ensures
        media_view(media) == header_media_type(headers@),
{
    match headers.get("content-type") {
        Some(value) => match decode(value.as_slice()) {
            Some(text) => MediaType::parse(text),
            None => None,
        },
        None => None,
    }
}

/// Whether the bytes `from..to` of `value` spell `filename`, in any case.
fn is_filename_key(value: &[u8], from: usize, to: usize) -> (is_key: bool)
    requires
        from <= to <= value@.len(),
    ensures
        is_key == same_ignoring_case(value@.subrange(from as int, to as int), filename_key()),
{
    let key: [u8; 8] = [0x66, 0x69, 0x6c, 0x65, 0x6e, 0x61, 0x6d, 0x65];
    assert(key@ =~= filename_key());
    eq_ignoring_case(slice_subrange(value, from, to), key.as_slice())
}

/// Where the file name stands in the piece `from..to` of a header value.
fn find_name_in_piece(value: &[u8], from: usize, to: usize) -> (range: Option<(usize, usize)>)
    requires
        from <= to <= value@.len(),
    ensures
        match range {
            Some(r) => name_in_piece(value@, from as int, to as int) == Some(
                (r.0 as int, r.1 as int),
            ) && r.0 <= r.1 <= value@.len(),
            None => name_in_piece(value@, from as int, to as int) is None,
        },
{
    let (start, end) = strip(value, false, from, to);
    let eq = find_byte(value, 0x3d, start, end);
    if eq < end && is_filename_key(value, start, eq) {
        Some(strip(value, true, eq + 1, end))
    } else {
        None
    }
}

/// The file name that a `Content-Disposition` value gives.
pub fn disposition_file_name(value: &[u8]) -> (name: Option<String>)
    ensures
        string_view(name) == disposition_name(value@),
{
    if decode(value).is_none() {
        return None;
    }
    let mut from: usize = 0;
    loop
        invariant
            from <= value@.len(),
            valid_utf8(value@),
            name_in_value(value@, 0) == name_in_value(value@, from as int),
        decreases value@.len() - from,
    {
        let semicolon = find_byte(value, 0x3b, from, value.len());
        match find_name_in_piece(value, from, semicolon) {
            Some(range) => {
                proof {
                    lemma_name_in_value_is_text(value@, 0);
                }
                return match decode(slice_subrange(value, range.0, range.1)) {
                    Some(text) => Some(text.to_owned()),
                    None => None,
                };
            },
            None => {
                if semicolon >= value.len() {
                    return None;
                }
                from = semicolon + 1;
            },
        }
    }
}

impl StatusCode {
    /// The number of the code.
    pub closed spec fn value(self) -> u16 {
        self.code
    }

    /// Whether a number is a status code.
    pub open spec fn is_valid(code: u16) -> bool {
        100 <= code < 1000
    }

    /// The number of the code is from 100 to 999. This holds of every
    /// status code that a program holds.
    #[verifier::type_invariant]
    pub closed spec fn wf(self) -> bool {
        Self::is_valid(self.code)
    }

    /// The number of a status code is from 100 to 999.
    pub proof fn lemma_valid(self)
        requires
            self.wf(),
        ensures
            Self::is_valid(self.value()),
    {
    }

    /// The status code with the number `code`: `None` unless the number is
    /// from 100 to 999.
    pub fn from_u16(code: u16) -> (status: Option<StatusCode>)
        ensures
            status is Some <==> Self::is_valid(code),
            status matches Some(s) ==> s.value() == code && s.wf(),
    {
        if 100 <= code && code < 1000 {
            Some(StatusCode { code })
        } else {
            None
        }
    }

    /// The number of the code.
    pub fn as_u16(&self) -> (code: u16)
        ensures
            code == self.value(),
            Self::is_valid(code),
            self.wf(),
    {
        proof {
            use_type_invariant(self);
        }
        self.code
    }
}

impl ResponseBody {
    /// The parsed form that is attached to the body, if any.
    pub closed spec fn attached(&self) -> Option<ParsedBody> {
        self.parsed
    }

    /// The body of the given bytes that has no parsed form.
    pub closed spec fn unparsed(data: Vec<u8>) -> ResponseBody {
        ResponseBody { data, parsed: None }
    }

    /// A body of the given bytes, with no parsed form yet.
    pub fn new(data: Vec<u8>) -> (body: ResponseBody)
        ensures
            body == Self::unparsed(data),
            body@ == data@,
            body.attached() is None,
    {
        ResponseBody { data, parsed: None }
    }

    /// The raw content.
    pub fn bytes(&self) -> (data: &Vec<u8>)
        ensures
            data@ == self@,
    {
        &self.data
    }

    /// The raw content, owned.
    pub fn into_bytes(self) -> (data: Vec<u8>)
        ensures
            data@ == self@,
    {
        self.data
    }

    /// The content as text, where it is valid UTF-8.
    pub fn text(&self) -> (text: Option<&str>)
        ensures
            crate::text::str_view(text) == text_of(self@),
    {
        decode(self.data.as_slice())
    }

    /// Size of the content in bytes.
    pub fn size(&self) -> (n: usize)
        ensures
            n == self@.len(),
    {
        self.data.len()
    }

    /// The body in a few words, for logs and comparisons. The content can
    /// be huge, so only its size is told.
    pub fn summary(&self) -> (text: String)
        ensures
            text@ == "<"@ + decimal(self@.len()) + " bytes>"@,
    {
        let mut text = String::from_str("<");
        text.append(decimal_text(self.data.len()).as_str());
        text.append(" bytes>");
        text
    }

    /// The parsed form of the body: `None` where the body has not been
    /// parsed, or could not be.
    pub fn parsed(&self) -> (parsed: Option<&ParsedBody>)
        ensures
            match parsed {
                Some(p) => self.attached() == Some(*p),
                None => self.attached() is None,
            },
    {
        self.parsed.as_ref()
    }
}

/// Two bodies are equal when their content is: the parsed form is derived
/// from the content and is left out of the comparison.
impl PartialEq for ResponseBody {
    fn eq(&self, other: &ResponseBody) -> (same: bool) {
        bytes_equal(self.data.as_slice(), other.data.as_slice())
    }
}

impl vstd::std_specs::cmp::PartialEqSpecImpl for ResponseBody {
    open spec fn obeys_eq_spec() -> bool {
        true
    }

    open spec fn eq_spec(&self, other: &ResponseBody) -> bool {
        self@ == other@
    }
}

impl From<Vec<u8>> for ResponseBody {
    fn from(data: Vec<u8>) -> (body: ResponseBody) {
        ResponseBody::new(data)
    }
}

impl vstd::std_specs::convert::FromSpecImpl<Vec<u8>> for ResponseBody {
    open spec fn obeys_from_spec() -> bool {
        true
    }

    open spec fn from_spec(data: Vec<u8>) -> ResponseBody {
        ResponseBody::unparsed(data)
    }
}

impl ResponseRecord {
    /// A response with the given status, headers and content, not parsed yet.
    pub fn new(status: StatusCode, headers: Headers, body: Vec<u8>) -> (record: ResponseRecord)
        ensures
            record.status == status,
            record.headers == headers,
            record.body@ == body@,
            record.body.attached() is None,
    {
        ResponseRecord { status, headers, body: ResponseBody::new(body) }
    }

    /// Attach the parsed form of the body. This is done once per response.
    pub fn set_parsed_body(&mut self, body: ParsedBody)
        requires
            old(self).body.attached() is None,
        ensures
            final(self).body.attached() == Some(body),
            final(self).body@ == old(self).body@,
            final(self).status == old(self).status,
            final(self).headers == old(self).headers,
        no_unwind
    {
        self.body.parsed = Some(body);
    }

    /// The content type of the body: the one it was parsed as, where it has
    /// been parsed; else the one that the `Content-Type` header declares.
    pub fn content_type(&self) -> (content_type: Option<ContentType>)
        ensures
            content_type == match self.body.attached() {
                Some(parsed) => Some(parsed.content_type),
                None => header_content_type(self.headers@),
            },
    {
        match self.body.parsed() {
            Some(parsed) => Some(parsed.content_type),
            None => ContentType::from_headers(&self.headers),
        }
    }

    /// The body laid out for reading, where it has been parsed.
    pub fn pretty_body(&self) -> (pretty: Option<&str>)
        ensures
            crate::text::str_view(pretty) == match self.body.attached() {
                Some(parsed) => Some(parsed.pretty@),
                None => None,
            },
    {
        match self.body.parsed() {
            Some(parsed) => Some(parsed.pretty.as_str()),
            None => None,
        }
    }

    /// A file name to save the content under. The `Content-Disposition`
    /// header is asked first. Where it is missing or names no file, the
    /// `Content-Type` header gives at least an extension.
    pub fn file_name(&self) -> (name: Option<String>)
        ensures
            string_view(name) == suggested_file_name(self.headers@),
    {
        let from_disposition = match self.headers.get("content-disposition") {
            Some(value) => disposition_file_name(value.as_slice()),
            None => None,
        };
        match from_disposition {
            Some(name) => Some(name),
            None => match media_type_of(&self.headers) {
                Some(media) => Some(media.data_file_name()),
                None => None,
            },
        }
    }
}

/// `str::parse` into a `mime::Mime`, that is its `FromStr`, taken apart by
/// `Mime::type_`, `Mime::subtype` and `Mime::suffix`. The contract names the
/// three parts and claims nothing more of them; `None` where the text is
/// rejected.
#[verifier::external_body]
fn parse_mime(text: &str) -> (media: Option<MediaType>)
    ensures
        media_view(media) == mime_parts(text@),
{
    match text.parse::<mime::Mime>() {
        Ok(m) => Some(
            MediaType {
                kind: m.type_().as_str().to_owned(),
                subtype: m.subtype().as_str().to_owned(),
                suffix: m.suffix().map(|s| s.as_str().to_owned()),
            },
        ),
        Err(_) => None,
    }
}

} // verus!
