//! Extraction of header data and body-part metadata from a raw MIME
//! byte stream. The MIME grammar itself (RFC 2045/2822 tokenization) is
//! decoded by the `mailparse` crate behind a trusted wrapper; the
//! extraction rules layered on top of it are verified here.

use vstd::prelude::*;
use crate::headers::{FieldModel, HeaderField, HeaderMap, field_insert, wf_fields};

verus! {

/// Mathematical model of one decoded body part: its header fields in
/// raw order, and its body text when the body decoded successfully.
#[verifier::ext_equal]
pub struct PartModel {
    pub headers: Seq<FieldModel>,
    pub body: Option<Seq<char>>,
}

/// Mathematical model of a decoded message: the top-level header
/// fields in raw order, and the ordered sub-parts.
#[verifier::ext_equal]
pub struct MessageModel {
    pub headers: Seq<FieldModel>,
    pub parts: Seq<PartModel>,
}

/// One sub-part of a decoded message, as plain values.
#[derive(Debug, PartialEq)]
pub struct RawPart {
    pub headers: Vec<HeaderField>,
    pub body: Option<String>,
}

impl View for RawPart {
    type V = PartModel;

    open spec fn view(&self) -> PartModel {
        PartModel { headers: self.headers.deep_view(), body: self.body.deep_view() }
    }
}

impl DeepView for RawPart {
    type V = PartModel;

    open spec fn deep_view(&self) -> PartModel {
        self@
    }
}

/// A decoded message, as plain values.
#[derive(Debug, PartialEq)]
pub struct RawMessage {
    pub headers: Vec<HeaderField>,
    pub parts: Vec<RawPart>,
}

impl View for RawMessage {
    type V = MessageModel;

    open spec fn view(&self) -> MessageModel {
        MessageModel { headers: self.headers.deep_view(), parts: self.parts.deep_view() }
    }
}

/// What the MIME decoder yields on the given bytes: `None` when the
/// bytes do not parse as a message, otherwise the decoded structure.
/// The decoding is a function of the bytes alone.
pub uninterp spec fn mime_decoding(data: Seq<u8>) -> Option<MessageModel>;

/// Relies on `mailparse::parse_mail` together with the accessors
/// `MailHeader::get_key`, `MailHeader::get_value` (header name/value
/// decoding) and `ParsedMail::get_body` (transfer-encoding and charset
/// decoding of one sub-part's body): all are deterministic functions
/// of the input bytes. The decoded structure is copied out one-for-one:
/// top-level headers, then per sub-part its headers and its body text
/// (`None` when that body fails to decode).
#[verifier::external_body]
fn decode_mime(data: &[u8]) -> (r: Option<RawMessage>)
    ensures
        (match r {
            Some(m) => mime_decoding(data@) == Some(m@),
            None => mime_decoding(data@) is None,
        }),
{
    let parsed = match mailparse::parse_mail(data) { Ok(p) => p, Err(_) => return None };
    let headers = parsed.headers.iter()
        .map(|h| HeaderField { name: h.get_key(), value: h.get_value() }).collect();
    let parts = parsed.subparts.iter().map(|sp| RawPart {
        headers: sp.headers.iter()
            .map(|h| HeaderField { name: h.get_key(), value: h.get_value() }).collect(),
        body: sp.get_body().ok(),
    }).collect();
    Some(RawMessage { headers, parts })
}

/// The header map obtained by inserting every field in order into an
/// empty map (so duplicates overwrite: the last occurrence wins).
pub open spec fn fold_fields(fields: Seq<FieldModel>) -> Seq<FieldModel>
    decreases fields.len(),
{
    if fields.len() == 0 {
        Seq::<FieldModel>::empty()
    } else {
        field_insert(fold_fields(fields.drop_last()), fields.last().name, fields.last().value)
    }
}

/// One folded header map per sub-part, in sub-part order, one entry
/// per sub-part whether or not its body decoded.
pub open spec fn part_maps(parts: Seq<PartModel>) -> Seq<Seq<FieldModel>> {
    parts.map_values(|p: PartModel| fold_fields(p.headers))
}

/// The successfully decoded body texts, in sub-part order. A sub-part
/// whose body failed to decode is skipped, so this list can be shorter
/// than the per-part header list and the two are not index-aligned.
pub open spec fn part_bodies(parts: Seq<PartModel>) -> Seq<Seq<char>>
    decreases parts.len(),
{
    if parts.len() == 0 {
        Seq::<Seq<char>>::empty()
    } else {
        part_bodies(parts.drop_last()) + (match parts.last().body {
            Some(b) => seq![b],
            None => Seq::<Seq<char>>::empty(),
        })
    }
}

/// Builds a header map by inserting every field in order; duplicates
/// overwrite, and the overwrite is observable through
/// [`HeaderMap::insert`]'s return value.
pub fn build_header_map(fields: &Vec<HeaderField>) -> (r: HeaderMap)
    ensures
        r@ == fold_fields(fields.deep_view()),
        wf_fields(r@),
{
    let mut m = HeaderMap::new();
    let mut i: usize = 0;
    proof {
        assert(fields.deep_view().take(0) =~= Seq::<FieldModel>::empty());
    }
    while i < fields.len()
        invariant
            i <= fields.len(),
            m@ == fold_fields(fields.deep_view().take(i as int)),
            wf_fields(m@),
        decreases fields.len() - i,
    {
        let name = fields[i].name.clone();
        let value = fields[i].value.clone();
        m.insert(name, value);
        proof {
            assert(fields.deep_view().take(i as int + 1).drop_last()
                =~= fields.deep_view().take(i as int));
            assert(fields.deep_view().take(i as int + 1).last() == fields.deep_view()[i as int]);
        }
        i += 1;
    }
    proof {
        assert(fields.deep_view().take(fields.len() as int) =~= fields.deep_view());
    }
    m
}

/// The verified extraction step, on an already-decoded message: fold
/// the top-level headers into one map; give every sub-part its own
/// fresh map; collect the body texts of the sub-parts whose bodies
/// decoded. A decode failure shrinks the body list but not the header
/// list, so the two are deliberately not index-aligned.
pub fn extract_message(msg: &RawMessage) -> (r: (HeaderMap, Vec<HeaderMap>, Vec<String>))
    ensures
        r.0@ == fold_fields(msg@.headers),
        r.1.deep_view() == part_maps(msg@.parts),
        r.2.deep_view() == part_bodies(msg@.parts),
        wf_fields(r.0@),
        forall|i: int| 0 <= i < r.1.deep_view().len() ==> wf_fields(r.1.deep_view()[i]),
{
    let main_headers = build_header_map(&msg.headers);
    let mut maps: Vec<HeaderMap> = Vec::new();
    let mut bodies: Vec<String> = Vec::new();
    let mut i: usize = 0;
    proof {
        assert(bodies.deep_view() =~~= part_bodies(msg@.parts.take(0)));
    }
    while i < msg.parts.len()
        invariant
            i <= msg.parts.len(),
            maps@.len() == i as int,
            forall|j: int| 0 <= j < i
                ==> (#[trigger] maps@[j])@ == fold_fields(msg@.parts[j].headers),
            forall|j: int| 0 <= j < i ==> wf_fields((#[trigger] maps@[j])@),
            bodies.deep_view() == part_bodies(msg@.parts.take(i as int)),
        decreases msg.parts.len() - i,
    {
        match &msg.parts[i].body {
            Some(b) => {
                bodies.push(b.clone());
            },
            None => {},
        }
        let part_map = build_header_map(&msg.parts[i].headers);
        maps.push(part_map);
        proof {
            assert(msg@.parts.take(i as int + 1).drop_last() =~= msg@.parts.take(i as int));
            assert(msg@.parts.take(i as int + 1).last() == msg@.parts[i as int]);
            assert(bodies.deep_view() =~~= part_bodies(msg@.parts.take(i as int + 1)));
        }
        i += 1;
    }
    proof {
        assert(msg@.parts.take(msg.parts.len() as int) =~= msg@.parts);
        assert(maps.deep_view() =~~= part_maps(msg@.parts));
    }
    (main_headers, maps, bodies)
}

/// Handle for one raw email message; holds the path the caller wants
/// to associate with it.
pub struct Mail {
    eml_path: String,
}

impl View for Mail {
    type V = Seq<char>;

    closed spec fn view(&self) -> Seq<char> {
        self.eml_path@
    }
}

impl Mail {
    /// Creates a handle for the message at the given path.
    pub fn new(input_file: String) -> (m: Mail)
        ensures
            m@ == input_file@,
    {
        Mail { eml_path: input_file }
    }

    /// Decodes the raw bytes of a message and extracts (top-level
    /// header map, per-sub-part header maps, decoded body texts).
    /// Returns `None` exactly when the bytes do not decode as a MIME
    /// message; there is no partial-result recovery path.
    pub fn parse(&self, data: &[u8]) -> (r: Option<(HeaderMap, Vec<HeaderMap>, Vec<String>)>)
        ensures
            (match r {
                Some(t) => {
                    &&& mime_decoding(data@) matches Some(m)
                    &&& t.0@ == fold_fields(m.headers)
                    &&& t.1.deep_view() == part_maps(m.parts)
                    &&& t.2.deep_view() == part_bodies(m.parts)
                    &&& wf_fields(t.0@)
                    &&& forall|i: int| 0 <= i < t.1.deep_view().len()
                        ==> wf_fields(t.1.deep_view()[i])
                },
                None => mime_decoding(data@) is None,
            }),
    {
        match decode_mime(data) {
            Some(msg) => Some(extract_message(&msg)),
            None => None,
        }
    }
}

} // verus!
