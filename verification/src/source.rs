use vstd::prelude::*;
use vstd::utf8::{decode_utf8, encode_utf8, valid_utf8};

use crate::diagnostic::{InternalError, Severity};

verus! {

/// The text that `String::from_utf8_lossy` makes of the given bytes.
pub uninterp spec fn utf8_lossy(bytes: Seq<u8>) -> Seq<char>;

/// Calls `String::from_utf8_lossy` of std. The contract claims that the text
/// depends on the bytes alone, and that bytes which are valid UTF-8 decode to
/// the text they encode.
#[verifier::external_body]
fn string_from_utf8_lossy(bytes: &Vec<u8>) -> (s: String)
    ensures
        s@ == utf8_lossy(bytes@),
        valid_utf8(bytes@) ==> s@ == decode_utf8(bytes@),
{
    String::from_utf8_lossy(bytes).into_owned()
}

/// The text of a byte buffer; invalid sequences are replaced.
pub fn bytes_to_text(bytes: &Vec<u8>) -> (s: String)
    ensures
        s@ == utf8_lossy(bytes@),
        valid_utf8(bytes@) ==> s@ == decode_utf8(bytes@),
{
    string_from_utf8_lossy(bytes)
}

/// The UTF-8 bytes of a text.
pub fn text_to_bytes(s: &str) -> (bytes: Vec<u8>)
    ensures
        bytes@ == encode_utf8(s@),
{
    s.as_bytes_vec()
}

/// A copy of a byte buffer.
pub fn copy_bytes(bytes: &Vec<u8>) -> (r: Vec<u8>)
    ensures
        r@ == bytes@,
{
    let mut r: Vec<u8> = Vec::new();
    let mut i: usize = 0;
    while i < bytes.len()
        invariant
            0 <= i <= bytes.len(),
            r@ == bytes@.take(i as int),
        decreases bytes.len() - i,
    {
        r.push(bytes[i]);
        i = i + 1;
        assert(bytes@.take(i as int) == bytes@.take(i - 1).push(bytes@[i - 1]));
    }
    assert(bytes@.take(i as int) == bytes@);
    r
}

/// What a loader hands on: text, or raw bytes.
#[derive(Debug)]
pub enum Content {
    String(String),
    Buffer(Vec<u8>),
}

impl Content {
    /// The bytes that this content stands for.
    pub open spec fn bytes(self) -> Seq<u8> {
        match self {
            Content::String(s) => encode_utf8(s@),
            Content::Buffer(b) => b@,
        }
    }

    /// The text that this content stands for.
    pub open spec fn text(self) -> Seq<char> {
        match self {
            Content::String(s) => s@,
            Content::Buffer(b) => utf8_lossy(b@),
        }
    }

    pub fn is_buffer(&self) -> (r: bool)
        ensures
            r == (*self is Buffer),
    {
        matches!(self, Content::Buffer(_))
    }

    pub fn into_bytes(self) -> (r: Vec<u8>)
        ensures
            r@ == self.bytes(),
    {
        match self {
            Content::String(s) => text_to_bytes(s.as_str()),
            Content::Buffer(b) => b,
        }
    }

    pub fn into_string_lossy(self) -> (r: String)
        ensures
            r@ == self.text(),
    {
        match self {
            Content::String(s) => s,
            Content::Buffer(b) => bytes_to_text(&b),
        }
    }

    pub fn duplicate(&self) -> (r: Self)
        ensures
            r.bytes() == self.bytes(),
            r.text() == self.text(),
            r is Buffer <==> *self is Buffer,
    {
        match self {
            Content::String(s) => Content::String(s.clone()),
            Content::Buffer(b) => Content::Buffer(copy_bytes(b)),
        }
    }
}

/// The deepest nesting of arrays and objects that a source map may have.
pub const MAX_NESTING: usize = 128;

/// What a scan of a JSON text knows at some byte: how many arrays and
/// objects are open, how many were open at most, and whether the byte lies
/// in a string, behind a backslash.
pub struct NestingScan {
    pub depth: nat,
    pub deepest: nat,
    pub in_string: bool,
    pub escaped: bool,
}

/// The scan after one more byte. Inside a string only the closing quote
/// counts, and a byte behind a backslash never does. Outside, `[` and `{`
/// open a level, `]` and `}` close one.
pub open spec fn scan_byte(scan: NestingScan, byte: u8) -> NestingScan {
    if scan.in_string {
        if scan.escaped {
            NestingScan { escaped: false, ..scan }
        } else if byte == 0x5c {
            NestingScan { escaped: true, ..scan }
        } else if byte == 0x22 {
            NestingScan { in_string: false, ..scan }
        } else {
            scan
        }
    } else if byte == 0x22 {
        NestingScan { in_string: true, ..scan }
    } else if byte == 0x5b || byte == 0x7b {
        NestingScan {
            depth: scan.depth + 1,
            deepest: if scan.depth + 1 > scan.deepest {
                scan.depth + 1
            } else {
                scan.deepest
            },
            ..scan
        }
    } else if byte == 0x5d || byte == 0x7d {
        NestingScan {
            depth: if scan.depth > 0 {
                (scan.depth - 1) as nat
            } else {
                0
            },
            ..scan
        }
    } else {
        scan
    }
}

/// The scan of a whole text, byte by byte from the first.
pub open spec fn scan_bytes(bytes: Seq<u8>) -> NestingScan
    decreases bytes.len(),
{
    if bytes.len() == 0 {
        NestingScan { depth: 0, deepest: 0, in_string: false, escaped: false }
    } else {
        scan_byte(scan_bytes(bytes.drop_last()), bytes.last())
    }
}

/// How deeply the arrays and objects of a JSON text are nested at most.
pub open spec fn nesting_of(bytes: Seq<u8>) -> nat {
    scan_bytes(bytes).deepest
}

/// How deeply the arrays and objects of a JSON text are nested at most.
pub fn nesting(bytes: &Vec<u8>) -> (deepest: usize)
    ensures
        deepest == nesting_of(bytes@),
{
    let mut depth: usize = 0;
    let mut deepest: usize = 0;
    let mut in_string = false;
    let mut escaped = false;
    let mut i: usize = 0;
    while i < bytes.len()
        invariant
            0 <= i <= bytes.len(),
            depth <= i,
            deepest <= i,
            scan_bytes(bytes@.take(i as int)) == (NestingScan {
                depth: depth as nat,
                deepest: deepest as nat,
                in_string,
                escaped,
            }),
        decreases bytes.len() - i,
    {
        let byte = bytes[i];
        proof {
            let now = bytes@.take(i + 1);
            assert(now.drop_last() == bytes@.take(i as int));
            assert(now.last() == byte);
        }
        if in_string {
            if escaped {
                escaped = false;
            } else if byte == 0x5c {
                escaped = true;
            } else if byte == 0x22 {
                in_string = false;
            }
        } else if byte == 0x22 {
            in_string = true;
        } else if byte == 0x5b || byte == 0x7b {
            depth = depth + 1;
            if depth > deepest {
                deepest = depth;
            }
        } else if byte == 0x5d || byte == 0x7d {
            if depth > 0 {
                depth = depth - 1;
            }
        }
        i = i + 1;
    }
    proof {
        assert(bytes@.take(i as int) == bytes@);
    }
    deepest
}

/// Why the given bytes are no source map, as the source-map reader words it;
/// `None` where they are one.
pub uninterp spec fn source_map_fault(json: Seq<u8>) -> Option<Seq<char>>;

/// Why the given bytes are not taken as a source map: they are nested more
/// deeply than a source map may be, or the reader refuses them.
pub open spec fn source_map_refusal(json: Seq<u8>) -> Option<Seq<char>> {
    if nesting_of(json) > MAX_NESTING {
        Some("Source map is nested too deeply"@)
    } else {
        source_map_fault(json)
    }
}

/// Calls `SourceMap::from_bytes` of rspack_sources on a copy of the bytes and
/// keeps only whether it accepted them. The reader builds its values by
/// calling itself once for every level of nesting, so only texts within the
/// bound are handed to it. The contract claims that acceptance, and the
/// wording of a refusal, depend on the bytes alone.
#[verifier::external_body]
fn read_source_map(json: &Vec<u8>) -> (fault: Option<String>)
    requires
        nesting_of(json@) <= MAX_NESTING,
    ensures
        fault is None <==> source_map_fault(json@) is None,
        fault is Some ==> source_map_fault(json@) == Some(fault.unwrap()@),
{
    match rspack_sources::SourceMap::from_bytes(json.clone()) {
        Ok(_) => None,
        Err(e) => Some(e.to_string()),
    }
}

/// The JSON text that the source-map writer makes of the map that the
/// reader reads from the given bytes.
pub uninterp spec fn source_map_written(json: Seq<u8>) -> Seq<char>;

/// Reads the map from a copy of the bytes with `SourceMap::from_bytes` of
/// rspack_sources and calls `SourceMap::to_json` on it. Only bytes that the
/// reader accepts are handed in. The contract claims that the text which is
/// written depends on the bytes alone.
#[verifier::external_body]
fn write_source_map(json: &Vec<u8>) -> (written: String)
    requires
        nesting_of(json@) <= MAX_NESTING,
        source_map_fault(json@) is None,
    ensures
        written@ == source_map_written(json@),
{
    match rspack_sources::SourceMap::from_bytes(json.clone()) {
        Ok(map) => map.to_json(),
        Err(_) => String::new(),
    }
}

/// A source map, held as the JSON text that describes it.
#[derive(Debug)]
pub struct SourceMap {
    json: Vec<u8>,
}

impl SourceMap {
    /// The JSON bytes of the map.
    pub closed spec fn view(&self) -> Seq<u8> {
        self.json@
    }

    /// A source map is within the bound of nesting, and the source-map
    /// reader accepts it.
    #[verifier::type_invariant]
    spec fn accepted(&self) -> bool {
        source_map_refusal(self.json@) is None
    }

    /// Reads a source map from JSON bytes. Fails where the bytes are nested
    /// more deeply than a source map may be, and, with the reader's own
    /// message, where the reader refuses them; and only there.
    pub fn from_slice(json: &Vec<u8>) -> (r: Result<SourceMap, InternalError>)
        ensures
            match r {
                Ok(map) => source_map_refusal(json@) is None && map@ == json@,
                Err(e) => source_map_refusal(json@) == Some(e.message@) && e.severity
                    == Severity::Error,
            },
    {
        if nesting(json) > MAX_NESTING {
            return Err(
                InternalError::new("Source map is nested too deeply".to_owned(), Severity::Error),
            );
        }
        match read_source_map(json) {
            None => Ok(SourceMap { json: copy_bytes(json) }),
            Some(message) => Err(InternalError::new(message, Severity::Error)),
        }
    }

    /// The JSON bytes of the map.
    pub fn to_bytes(&self) -> (r: Vec<u8>)
        ensures
            r@ == self@,
    {
        copy_bytes(&self.json)
    }

    /// The JSON text that the source-map writer makes of the map.
    pub fn to_json(&self) -> (r: String)
        ensures
            r@ == source_map_written(self@),
    {
        proof {
            use_type_invariant(self);
        }
        write_source_map(&self.json)
    }

    pub fn duplicate(&self) -> (r: Self)
        ensures
            r@ == self@,
    {
        proof {
            use_type_invariant(self);
        }
        SourceMap { json: copy_bytes(&self.json) }
    }
}

/// The source of a module, as the code generator receives it.
#[derive(Debug)]
pub enum Source {
    /// Bytes that are passed on untouched.
    RawBuffer(Vec<u8>),
    /// Text without any record of where it came from.
    RawText(String),
    /// Text that remembers the file it was read from.
    Original { value: String, name: String },
    /// Text with the source map that its loaders produced.
    WithSourceMap { value: String, name: String, source_map: SourceMap },
}

impl Source {
    /// The bytes of the source's content.
    pub open spec fn content(self) -> Seq<u8> {
        match self {
            Source::RawBuffer(b) => b@,
            Source::RawText(s) => encode_utf8(s@),
            Source::Original { value, name } => encode_utf8(value@),
            Source::WithSourceMap { value, name, source_map } => encode_utf8(value@),
        }
    }

    /// The bytes of the source's content.
    pub fn content_bytes(&self) -> (r: Vec<u8>)
        ensures
            r@ == self.content(),
    {
        match self {
            Source::RawBuffer(b) => copy_bytes(b),
            Source::RawText(s) => text_to_bytes(s.as_str()),
            Source::Original { value, name } => text_to_bytes(value.as_str()),
            Source::WithSourceMap { value, name, source_map } => text_to_bytes(value.as_str()),
        }
    }

    pub fn duplicate(&self) -> (r: Self)
        ensures
            r.content() == self.content(),
            same_source(r, *self),
    {
        match self {
            Source::RawBuffer(b) => Source::RawBuffer(copy_bytes(b)),
            Source::RawText(s) => Source::RawText(s.clone()),
            Source::Original { value, name } => Source::Original {
                value: value.clone(),
                name: name.clone(),
            },
            Source::WithSourceMap { value, name, source_map } => Source::WithSourceMap {
                value: value.clone(),
                name: name.clone(),
                source_map: source_map.duplicate(),
            },
        }
    }
}

/// Two sources of the same kind with the same text, name and map.
pub open spec fn same_source(a: Source, b: Source) -> bool {
    match (a, b) {
        (Source::RawBuffer(x), Source::RawBuffer(y)) => x@ == y@,
        (Source::RawText(x), Source::RawText(y)) => x@ == y@,
        (Source::Original { value: v1, name: n1 }, Source::Original { value: v2, name: n2 }) => v1@
            == v2@ && n1@ == n2@,
        (
            Source::WithSourceMap { value: v1, name: n1, source_map: m1 },
            Source::WithSourceMap { value: v2, name: n2, source_map: m2 },
        ) => v1@ == v2@ && n1@ == n2@ && m1@ == m2@,
        _ => false,
    }
}

} // verus!
