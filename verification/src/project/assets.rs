//! Content-addressed asset storage.
//!
//! An asset's bytes live at `assets/<sha256[0..2]>/<sha256>.<ext>` under the
//! project root. Content addressing is what makes a project self-contained:
//! identical bytes imported twice cost one file on disk, and `project.json`
//! never churns because a path changed — the path *is* the hash.
//!
//! **Models are the exception, and have to be.** A `.gltf` names its
//! geometry and textures by relative path, so a model gets a directory of
//! its own — `assets/<sha256[0..2]>/<sha256>/<original name>` — with its
//! references copied beside it at the same relative paths.
//!
//! Everything here computes; reading and writing the files is the caller's.

use vstd::prelude::*;
use vstd::utf8::{
    decode_utf8, encode_scalar, encode_utf8, has_width_1_encoding, has_width_2_encoding,
    has_width_3_encoding, encode_utf8_valid_utf8, is_ascii_chars, is_ascii_chars_encode_utf8,
    is_char_boundary, is_char_boundary_iff_not_is_continuation_byte,
    is_char_boundary_start_end_of_seq, valid_utf8,
};
use crate::ids::AssetId;
use crate::project::value::{field, json_document, parse_json, text_of_value, JsonValue};
use crate::text::{
    chars_of, contains_text, hex_char, lower_hex, lower_hex_text, starts_with, text_contains,
    text_eq, text_starts_with,
};

verus! {

// ── percent-decoding ──────────────────────────────────────────────────

/// The value of an ASCII hex digit, either case.
pub open spec fn hex_value(b: u8) -> Option<u8> {
    if 48 <= b && b <= 57 {
        Some((b - 48) as u8)
    } else if 97 <= b && b <= 102 {
        Some((b - 87) as u8)
    } else if 65 <= b && b <= 70 {
        Some((b - 55) as u8)
    } else {
        None
    }
}

/// The byte a percent escape's two characters name: two hex digits, either
/// case, high digit first. Anything else is no escape.
pub open spec fn escape_byte(a: u8, b: u8) -> Option<u8> {
    match (hex_value(a), hex_value(b)) {
        (Some(x), Some(y)) => Some((16 * x + y) as u8),
        _ => None,
    }
}

/// The bytes with every `%XY` escape replaced by the byte it names.
///
/// An escape is decoded only when two hex digits follow the `%`; anything
/// else, a `%` at the end included, is kept as it is.
pub open spec fn percent_decoded(bytes: Seq<u8>) -> Seq<u8>
    decreases bytes.len(),
{
    if bytes.len() == 0 {
        seq![]
    } else if bytes[0] == 37 && bytes.len() > 2 && escape_byte(bytes[1], bytes[2]) is Some {
        seq![escape_byte(bytes[1], bytes[2])->0] + percent_decoded(
            bytes.subrange(3, bytes.len() as int),
        )
    } else {
        seq![bytes[0]] + percent_decoded(bytes.drop_first())
    }
}

/// What `String::from_utf8_lossy` makes of these bytes.
pub uninterp spec fn lossy_text(bytes: Seq<u8>) -> Seq<char>;

/// `String::from_utf8_lossy`, owned.
///
/// Trusted: the result is `lossy_text` of the bytes, and for valid UTF-8 it
/// is exactly the text they encode. Invalid sequences become U+FFFD; that
/// rule is std's and is not restated.
#[verifier::external_body]
fn utf8_lossy(bytes: &[u8]) -> (s: String)
    ensures
        s@ == lossy_text(bytes@),
        valid_utf8(bytes@) ==> s@ == decode_utf8(bytes@),
{
    String::from_utf8_lossy(bytes).into_owned()
}

/// The value of an ASCII hex digit.
fn hex_digit_value(b: u8) -> (r: Option<u8>)
    ensures
        r == hex_value(b),
{
    if 48 <= b && b <= 57 {
        Some(b - 48)
    } else if 97 <= b && b <= 102 {
        Some(b - 87)
    } else if 65 <= b && b <= 70 {
        Some(b - 55)
    } else {
        None
    }
}

/// The byte two hex digits name.
fn parse_hex_pair(a: u8, b: u8) -> (r: Option<u8>)
    ensures
        r == escape_byte(a, b),
{
    match (hex_digit_value(a), hex_digit_value(b)) {
        (Some(x), Some(y)) => Some(16 * x + y),
        _ => None,
    }
}

/// Whether a byte is an ASCII hex digit.
pub open spec fn is_hex_digit(b: u8) -> bool {
    (48 <= b <= 57) || (97 <= b <= 102) || (65 <= b <= 70)
}

/// **An escape is `%` and two hex digits, and nothing else is.** `%` and two
/// hex digits (either case) become the one byte they name, high digit
/// first, and decoding goes on after them; a `%` not followed by two hex
/// digits is kept as it is, and so is every other byte.
pub proof fn law_what_an_escape_is(a: u8, b: u8, rest: Seq<u8>, x: u8)
    ensures
        (is_hex_digit(a) && is_hex_digit(b)) ==> percent_decoded(seq![37u8, a, b] + rest) == seq![
            ((if a <= 57 { a - 48 } else if a >= 97 { a - 87 } else { a - 55 }) * 16 + (if b <= 57 {
                b - 48
            } else if b >= 97 {
                b - 87
            } else {
                b - 55
            })) as u8,
        ] + percent_decoded(rest),
        !(is_hex_digit(a) && is_hex_digit(b)) ==> percent_decoded(seq![37u8, a, b] + rest) == seq![
            37u8,
        ] + percent_decoded(seq![a, b] + rest),
        x != 37 ==> percent_decoded(seq![x] + rest) == seq![x] + percent_decoded(rest),
        percent_decoded(seq![37u8]) == seq![37u8],
        percent_decoded(seq![37u8, a]) == seq![37u8, a],
{
    let s = seq![37u8, a, b] + rest;
    assert(s.subrange(3, s.len() as int) =~= rest);
    assert(s.drop_first() =~= seq![a, b] + rest);
    assert((seq![x] + rest).drop_first() =~= rest);
    assert(seq![37u8].drop_first() =~= Seq::<u8>::empty());
    assert(seq![37u8, a].drop_first() =~= seq![a]);
    assert(seq![a].drop_first() =~= Seq::<u8>::empty());
    assert(percent_decoded(seq![a]) == seq![a] + percent_decoded(Seq::<u8>::empty()));
}

/// The bytes of `s` with its `%XY` escapes decoded.
pub fn percent_decode_bytes(bytes: &[u8]) -> (out: Vec<u8>)
    ensures
        out@ == percent_decoded(bytes@),
{
    let mut out: Vec<u8> = Vec::new();
    let mut i: usize = 0;
    assert(bytes@.subrange(0, bytes.len() as int) == bytes@);
    while i < bytes.len()
        invariant
            i <= bytes.len(),
            percent_decoded(bytes@) == out@ + percent_decoded(
                bytes@.subrange(i as int, bytes.len() as int),
            ),
        decreases bytes.len() - i,
    {
        let ghost rest = bytes@.subrange(i as int, bytes.len() as int);
        if bytes[i] == 37 && bytes.len() - i > 2 {
            if let Some(byte) = parse_hex_pair(bytes[i + 1], bytes[i + 2]) {
                assert(rest.subrange(3, rest.len() as int) == bytes@.subrange(
                    i + 3,
                    bytes.len() as int,
                ));
                out.push(byte);
                i = i + 3;
                continue;
            }
        }
        assert(rest.drop_first() == bytes@.subrange(i + 1, bytes.len() as int));
        out.push(bytes[i]);
        i = i + 1;
    }
    out
}

/// A byte at or above `0x80` stays there whatever low bits are or-ed in.
proof fn lemma_high_bit_survives(h: u8, x: u8)
    requires
        h >= 0x80,
    ensures
        (h | x) >= 0x80,
{
    assert((h | x) >= 0x80) by (bit_vector)
        requires
            h >= 0x80,
    ;
}

/// The one byte of a one-byte scalar is the scalar itself.
proof fn lemma_ascii_byte(v: u32)
    requires
        v <= 0x7F,
    ensures
        ((v & 0x7F) as u8) as u32 == v,
{
    assert(((v & 0x7F) as u8) as u32 == v) by (bit_vector)
        requires
            v <= 0x7F,
    ;
}

/// Only the character `%` encodes to the byte `%`: every byte of a longer
/// encoding has its high bit set.
proof fn lemma_no_percent_byte(chars: Seq<char>)
    requires
        !chars.contains('%'),
    ensures
        forall|i: int| 0 <= i < encode_utf8(chars).len() ==> encode_utf8(chars)[i] != 37,
    decreases chars.len(),
{
    if chars.len() > 0 {
        let rest = chars.drop_first();
        assert forall|k: int| 0 <= k < rest.len() implies rest[k] != '%' by {
            assert(rest[k] == chars[k + 1]);
        }
        lemma_no_percent_byte(rest);
        let c = chars[0];
        let v = c as u32;
        vstd::utf8::char_is_scalar(c);
        assert(c != '%') by {
            assert(chars[0] == c);
        }
        let head = encode_scalar(v);
        if has_width_1_encoding(v) {
            lemma_ascii_byte(v);
            if v == 37 {
                vstd::utf8::char_u32_cast(c, v);
                vstd::utf8::char_u32_cast('%', 37);
            }
            assert(head[0] != 37);
        } else if has_width_2_encoding(v) {
            lemma_high_bit_survives(0xC0, ((v >> 6) & 0x1F) as u8);
            lemma_high_bit_survives(0x80, (v & 0x3F) as u8);
        } else if has_width_3_encoding(v) {
            lemma_high_bit_survives(0xE0, ((v >> 12) & 0x0F) as u8);
            lemma_high_bit_survives(0x80, ((v >> 6) & 0x3F) as u8);
            lemma_high_bit_survives(0x80, (v & 0x3F) as u8);
        } else {
            lemma_high_bit_survives(0xF0, ((v >> 18) & 0x7) as u8);
            lemma_high_bit_survives(0x80, ((v >> 12) & 0x3F) as u8);
            lemma_high_bit_survives(0x80, ((v >> 6) & 0x3F) as u8);
            lemma_high_bit_survives(0x80, (v & 0x3F) as u8);
        }
        assert(forall|i: int| 0 <= i < head.len() ==> head[i] != 37);
        let all = encode_utf8(chars);
        assert(all == head + encode_utf8(rest));
        assert forall|i: int| 0 <= i < all.len() implies all[i] != 37 by {
            if i < head.len() {
                assert(all[i] == head[i]);
            } else {
                assert(all[i] == encode_utf8(rest)[i - head.len()]);
            }
        }
    }
}

/// Bytes with no `%` in them decode to themselves.
proof fn lemma_no_escape_unchanged(bytes: Seq<u8>)
    requires
        forall|i: int| 0 <= i < bytes.len() ==> bytes[i] != 37,
    ensures
        percent_decoded(bytes) == bytes,
    decreases bytes.len(),
{
    if bytes.len() > 0 {
        let rest = bytes.drop_first();
        assert forall|i: int| 0 <= i < rest.len() implies rest[i] != 37 by {
            assert(rest[i] == bytes[i + 1]);
        }
        lemma_no_escape_unchanged(rest);
        assert(bytes[0] != 37);
        assert(seq![bytes[0]] + rest =~= bytes);
    }
}

/// glTF uris are percent-encoded: `base%20colour.png` names
/// `base colour.png`. Decoded bytes that are not UTF-8 come back through
/// the lossy conversion; a text with no `%` in it comes back unchanged.
pub fn percent_decode(s: &str) -> (r: String)
    ensures
        r@ == lossy_text(percent_decoded(encode_utf8(s@))),
        valid_utf8(percent_decoded(encode_utf8(s@))) ==> r@ == decode_utf8(
            percent_decoded(encode_utf8(s@)),
        ),
        !s@.contains('%') ==> r@ == s@,
{
    let out = percent_decode_bytes(s.as_bytes());
    proof {
        if !s@.contains('%') {
            lemma_no_percent_byte(s@);
            lemma_no_escape_unchanged(encode_utf8(s@));
            encode_utf8_valid_utf8(s@);
            vstd::utf8::encode_utf8_decode_utf8(s@);
        }
    }
    utf8_lossy(out.as_slice())
}

} // verus!

verus! {

// ── kinds, references and where they live ─────────────────────────────

/// What an asset's bytes are.
#[derive(Debug, Clone, Copy, PartialEq, Eq, Structural)]
pub enum AssetKind {
    Image,
    Gltf,
    Font,
}

/// A project's record of one stored asset.
#[derive(Debug, Clone)]
pub struct AssetRef {
    pub id: AssetId,
    /// Lowercase hex SHA-256 of the bytes: the asset's address.
    pub sha256: String,
    pub kind: AssetKind,
    /// The file name it was imported from.
    pub original_name: String,
    pub byte_len: u64,
    pub width: Option<u32>,
    pub height: Option<u32>,
}

/// A location inside a project directory: the project root and the path
/// components below it, outermost first.
///
/// Kept as components so the library states exactly where a file goes; the
/// caller joins them with the platform's separator.
#[derive(Debug, Clone)]
pub struct StorePath {
    pub root: String,
    pub parts: Vec<String>,
}

/// The texts of a path's components.
pub open spec fn parts_of(p: StorePath) -> Seq<Seq<char>> {
    p.parts@.map_values(|s: String| s@)
}

/// A content-addressed asset store rooted at a project directory.
///
/// The store does not allocate `AssetId`s: a project's ids come from one
/// sequence shared by every kind of entity, so the caller allocates the id
/// and passes it in. Importing the same bytes twice stores one file; two
/// references to it are the caller's to avoid.
pub struct AssetStore {
    root: String,
}

impl View for AssetStore {
    /// The project directory the store is rooted at.
    type V = Seq<char>;

    closed spec fn view(&self) -> Seq<char> {
        self.root@
    }
}

/// The file extension a stored asset gets, from its kind alone, so that
/// storing and finding an `AssetRef` always agree on where it lives.
pub open spec fn kind_extension(kind: AssetKind) -> Seq<char> {
    match kind {
        AssetKind::Image => "png"@,
        AssetKind::Gltf => "glb"@,
        AssetKind::Font => "ttf"@,
    }
}

/// How many bytes of a hash name its bucket directory: two, or all of a
/// shorter one.
pub open spec fn prefix_len(sha: Seq<char>) -> int {
    if encode_utf8(sha).len() < 2 {
        encode_utf8(sha).len() as int
    } else {
        2
    }
}

/// Whether the bucket prefix of `sha` ends on a character boundary (slicing
/// it anywhere else would panic), for a hash whose length fits in memory.
pub open spec fn prefix_ok(sha: Seq<char>) -> bool {
    &&& encode_utf8(sha).len() <= usize::MAX
    &&& is_char_boundary(encode_utf8(sha), prefix_len(sha))
}

/// The text of a bucket directory: the characters encoded by the first
/// `prefix_len` bytes of the hash.
pub open spec fn is_bucket_of(bucket: Seq<char>, sha: Seq<char>) -> bool {
    encode_utf8(bucket) == encode_utf8(sha).subrange(0, prefix_len(sha))
}

/// `assets/<prefix>/<sha>.<ext>`.
pub open spec fn is_asset_location(parts: Seq<Seq<char>>, sha: Seq<char>, kind: AssetKind) -> bool {
    &&& parts.len() == 3
    &&& parts[0] == "assets"@
    &&& is_bucket_of(parts[1], sha)
    &&& parts[2] == sha + "."@ + kind_extension(kind)
}

/// `assets/<prefix>/<sha>`, a model's own directory.
pub open spec fn is_model_location(parts: Seq<Seq<char>>, sha: Seq<char>) -> bool {
    &&& parts.len() == 3
    &&& parts[0] == "assets"@
    &&& is_bucket_of(parts[1], sha)
    &&& parts[2] == sha
}

/// The extension used for a stored asset's file name.
pub fn ext_for_kind(kind: AssetKind) -> (r: &'static str)
    ensures
        r@ == kind_extension(kind),
{
    match kind {
        AssetKind::Image => "png",
        AssetKind::Gltf => "glb",
        AssetKind::Font => "ttf",
    }
}

/// The bucket directory of a hash: its first two bytes.
fn bucket(sha256: &str) -> (r: String)
    requires
        prefix_ok(sha256@),
    ensures
        is_bucket_of(r@, sha256@),
{
    let mid: usize = if sha256.len() < 2 {
        sha256.len()
    } else {
        2
    };
    assert(mid == prefix_len(sha256@));
    let (head, _) = sha256.split_at(mid);
    String::from_str(head)
}

/// Where an asset's bytes live.
pub fn asset_path(root: &str, sha256: &str, kind: AssetKind) -> (p: StorePath)
    requires
        prefix_ok(sha256@),
    ensures
        p.root@ == root@,
        is_asset_location(parts_of(p), sha256@, kind),
{
    let mut parts: Vec<String> = Vec::new();
    parts.push(String::from_str("assets"));
    parts.push(bucket(sha256));
    let name = String::from_str(sha256).concat(".").concat(ext_for_kind(kind));
    parts.push(name);
    StorePath { root: String::from_str(root), parts }
}

/// Where a model's own directory lives.
///
/// A `.gltf` is not one file: it names its geometry and textures by relative
/// path. A `.glb` is one file, and gets a directory anyway so that both
/// spellings of the same format sit in the same shape.
pub fn model_dir(root: &str, sha256: &str) -> (p: StorePath)
    requires
        prefix_ok(sha256@),
    ensures
        p.root@ == root@,
        is_model_location(parts_of(p), sha256@),
{
    let mut parts: Vec<String> = Vec::new();
    parts.push(String::from_str("assets"));
    parts.push(bucket(sha256));
    parts.push(String::from_str(sha256));
    StorePath { root: String::from_str(root), parts }
}

} // verus!

verus! {

// ── content hashing ───────────────────────────────────────────────────

/// The SHA-256 digest of `data`.
pub uninterp spec fn sha256(data: Seq<u8>) -> Seq<u8>;

/// `sha2::Sha256::digest`.
///
/// Trusted: the digest is `sha256` of the bytes, 32 bytes long. The hash
/// function itself is `sha2`'s and is named, not restated.
#[verifier::external_body]
fn sha256_digest(data: &[u8]) -> (d: Vec<u8>)
    ensures
        d@ == sha256(data@),
        d@.len() == 32,
{
    <sha2::Sha256 as sha2::Digest>::digest(data).to_vec()
}

/// A hex text is ASCII, two characters per byte.
pub proof fn lemma_lower_hex_ascii(bytes: Seq<u8>)
    ensures
        lower_hex(bytes).len() == 2 * bytes.len(),
        is_ascii_chars(lower_hex(bytes)),
    decreases bytes.len(),
{
    if bytes.len() > 0 {
        lemma_lower_hex_ascii(bytes.drop_last());
        let h = lower_hex(bytes);
        let prev = lower_hex(bytes.drop_last());
        let b = bytes.last();
        assert(h == prev + seq![hex_char((b / 16) as nat), hex_char((b % 16) as nat)]);
        assert forall|i: int| 0 <= i < h.len() implies '\0' <= #[trigger] h[i] <= '\u{7f}' by {
            if i < prev.len() {
                assert(h[i] == prev[i]);
            }
        }
    }
}

/// A hash text from `hex_sha256` can be bucketed.
pub proof fn lemma_hash_prefix_ok(sha: Seq<char>)
    requires
        is_ascii_chars(sha),
        sha.len() == 64,
    ensures
        prefix_ok(sha),
{
    is_ascii_chars_encode_utf8(sha);
    encode_utf8_valid_utf8(sha);
    let bytes = encode_utf8(sha);
    assert((sha[2] as u32) < 128);
    assert(bytes[2] == sha[2] as u8);
    is_char_boundary_iff_not_is_continuation_byte(bytes, 2);
}

/// The lowercase hex SHA-256 of `bytes`: an asset's address.
pub fn hex_sha256(bytes: &[u8]) -> (s: String)
    ensures
        s@ == lower_hex(sha256(bytes@)),
        s@.len() == 64,
        prefix_ok(s@),
{
    let digest = sha256_digest(bytes);
    let s = lower_hex_text(digest.as_slice());
    proof {
        lemma_lower_hex_ascii(digest@);
        lemma_hash_prefix_ok(s@);
    }
    s
}

} // verus!

verus! {

// ── what a glTF refers to ─────────────────────────────────────────────

/// Whether a uri names a file beside the model: not embedded data
/// (`data:`) and not remote (`://`). Remote files are not ours to fetch: a
/// bundle that reached the network to open would stop working in a venue
/// with no wifi.
pub open spec fn is_local_uri(uri: Seq<char>) -> bool {
    !starts_with(uri, "data:"@) && !contains_text(uri, "://"@)
}

/// A local uri as the relative path it names.
pub open spec fn uri_path(uri: Seq<char>) -> Seq<char> {
    lossy_text(percent_decoded(encode_utf8(uri)))
}

/// The string `uri` member of an item, if it has one.
pub open spec fn item_uri(item: JsonValue) -> Option<Seq<char>> {
    match field(item, "uri"@) {
        Some(v) => text_of_value(v),
        None => None,
    }
}

/// The decoded local uris of a list of items, in order.
pub open spec fn local_uris(items: Seq<JsonValue>) -> Seq<Seq<char>>
    decreases items.len(),
{
    if items.len() == 0 {
        seq![]
    } else {
        let before = local_uris(items.drop_last());
        match item_uri(items.last()) {
            Some(u) => if is_local_uri(u) {
                before.push(uri_path(u))
            } else {
                before
            },
            None => before,
        }
    }
}

/// The decoded local uris of one top-level section (`buffers`, `images`).
pub open spec fn section_uris(doc: JsonValue, section: Seq<char>) -> Seq<Seq<char>> {
    match field(doc, section) {
        Some(JsonValue::Array(items)) => local_uris(items@),
        _ => seq![],
    }
}

/// Every relative file a glTF document names, buffers first, then images,
/// in document order. A document that is not JSON names nothing, and a
/// `.glb` (which carries its buffers inside itself) names nothing either.
pub open spec fn model_uris(bytes: Seq<u8>) -> Seq<Seq<char>> {
    match json_document(bytes) {
        Some(doc) => doc_uris(doc),
        None => seq![],
    }
}

/// Every relative file a parsed glTF document names, buffers first, then
/// images, in document order.
pub open spec fn doc_uris(doc: JsonValue) -> Seq<Seq<char>> {
    section_uris(doc, "buffers"@) + section_uris(doc, "images"@)
}

/// The texts of a list of strings.
pub open spec fn texts(v: Seq<String>) -> Seq<Seq<char>> {
    v.map_values(|s: String| s@)
}

fn is_local(uri: &str) -> (b: bool)
    ensures
        b == is_local_uri(uri@),
{
    let chars = chars_of(uri);
    let data = chars_of("data:");
    let remote = chars_of("://");
    !text_starts_with(&chars, &data) && !text_contains(&chars, &remote)
}

/// Append the decoded local uris of one section.
fn push_section_uris(doc: &JsonValue, section: &str, out: &mut Vec<String>)
    ensures
        texts(final(out)@) == texts(old(out)@) + section_uris(*doc, section@),
{
    let items = match doc.get(section) {
        Some(v) => match v.as_array() {
            Some(items) => items,
            None => {
                assert(texts(out@) =~= texts(out@) + section_uris(*doc, section@));
                return;
            },
        },
        None => {
            assert(texts(out@) =~= texts(out@) + section_uris(*doc, section@));
            return;
        },
    };
    let ghost start = texts(out@);
    let mut i: usize = 0;
    assert(local_uris(items@.subrange(0, 0)) =~= seq![]);
    assert(start =~= start + local_uris(items@.subrange(0, 0)));
    while i < items.len()
        invariant
            i <= items.len(),
            texts(out@) == start + local_uris(items@.subrange(0, i as int)),
        decreases items.len() - i,
    {
        let ghost prefix = items@.subrange(0, i + 1);
        assert(prefix.drop_last() == items@.subrange(0, i as int));
        assert(prefix.last() == items@[i as int]);
        let item = &items[i];
        if let Some(uri_value) = item.get("uri") {
            if let Some(uri) = uri_value.as_str() {
                if is_local(uri) {
                    assert(item_uri(prefix.last()) == Some(uri@));
                    assert(local_uris(prefix) == local_uris(items@.subrange(0, i as int)).push(
                        uri_path(uri@),
                    ));
                    let decoded = percent_decode(uri);
                    let ghost before = out@;
                    out.push(decoded);
                    assert(texts(out@) =~= texts(before).push(uri_path(uri@)));
                    assert(texts(out@) =~= start + local_uris(prefix));
                }
            }
        }
        i = i + 1;
    }
    assert(items@.subrange(0, items.len() as int) == items@);
}

/// Every relative file a parsed glTF document names, decoded, before any
/// check of where it points: see [`doc_uris`].
pub fn document_uris(doc: &JsonValue) -> (out: Vec<String>)
    ensures
        texts(out@) == doc_uris(*doc),
{
    let mut out: Vec<String> = Vec::new();
    assert(texts(out@) =~= seq![]);
    push_section_uris(doc, "buffers", &mut out);
    push_section_uris(doc, "images", &mut out);
    out
}

/// Every relative file a glTF's JSON names, decoded, before any check of
/// where it points: see [`model_uris`].
pub fn reference_candidates(bytes: &[u8]) -> (out: Vec<String>)
    ensures
        texts(out@) == model_uris(bytes@),
{
    match parse_json(bytes) {
        Ok(doc) => document_uris(&doc),
        Err(_) => {
            let out: Vec<String> = Vec::new();
            assert(texts(out@) =~= model_uris(bytes@));
            out
        },
    }
}

/// Whether position `i` of `p` starts a `/`-separated segment.
pub open spec fn segment_starts(p: Seq<char>, i: int) -> bool {
    i == 0 || p[i - 1] == '/'
}

/// Whether position `i` of `p` ends a `/`-separated segment.
pub open spec fn segment_ends(p: Seq<char>, i: int) -> bool {
    i == p.len() - 1 || p[i + 1] == '/'
}

/// The `/`-separated segments of a path, empty ones included: `a//b/` is
/// `a`, ``, `b`, ``.
pub open spec fn segments(p: Seq<char>) -> Seq<Seq<char>>
    decreases p.len(),
{
    if p.len() == 0 {
        seq![seq![]]
    } else {
        let before = segments(p.drop_last());
        if p.last() == '/' {
            before.push(seq![])
        } else {
            before.update(before.len() - 1, before.last().push(p.last()))
        }
    }
}

/// One component of a path, as `std::path::Component` names them.
#[derive(Debug, Clone)]
pub enum PathPart {
    /// A Windows prefix such as `C:` or `\\server\share`, as text.
    Prefix(String),
    RootDir,
    CurDir,
    ParentDir,
    Normal(String),
}

/// A path component by its text.
pub enum PartView {
    Prefix(Seq<char>),
    RootDir,
    CurDir,
    ParentDir,
    Normal(Seq<char>),
}

/// The texts of a list of components.
pub open spec fn part_views(v: Seq<PathPart>) -> Seq<PartView> {
    v.map_values(
        |c: PathPart|
            match c {
                PathPart::Prefix(s) => PartView::Prefix(s@),
                PathPart::RootDir => PartView::RootDir,
                PathPart::CurDir => PartView::CurDir,
                PathPart::ParentDir => PartView::ParentDir,
                PathPart::Normal(s) => PartView::Normal(s@),
            },
    )
}

/// The components of the first segments of a relative path: empty segments
/// and `.` segments dropped, except a `.` that begins the path, which is the
/// current directory; `..` is the parent directory; anything else a name.
pub open spec fn segment_parts(segs: Seq<Seq<char>>) -> Seq<PartView>
    decreases segs.len(),
{
    if segs.len() == 0 {
        seq![]
    } else {
        let before = segment_parts(segs.drop_last());
        let seg = segs.last();
        if seg.len() == 0 {
            before
        } else if seg == "."@ {
            if segs.len() == 1 {
                before.push(PartView::CurDir)
            } else {
                before
            }
        } else if seg == ".."@ {
            before.push(PartView::ParentDir)
        } else {
            before.push(PartView::Normal(seg))
        }
    }
}

/// A path that every platform reads the same way, as a relative path split
/// at `/`: no `\` (a separator, and the start of some prefixes, on
/// Windows), no `:` (which a drive prefix needs), and no leading `/`.
pub open spec fn reads_alike(p: Seq<char>) -> bool {
    &&& forall|i: int| 0 <= i < p.len() ==> #[trigger] p[i] != '\\' && p[i] != ':'
    &&& !(p.len() > 0 && p[0] == '/')
}

/// The components of a path that reads alike everywhere, as std's
/// `Path::components` gives them: repeated separators, a trailing separator
/// and `.` segments inside the path are dropped.
pub open spec fn relative_parts(p: Seq<char>) -> Seq<PartView> {
    segment_parts(segments(p))
}

/// Whether a path that reads alike everywhere climbs out of its folder: it
/// has a `..` segment.
pub open spec fn climbs(p: Seq<char>) -> bool {
    relative_parts(p).contains(PartView::ParentDir)
}

/// Whether some `/`-separated segment of `p` is exactly `..`.
pub open spec fn has_parent_segment(p: Seq<char>) -> bool {
    exists|i: int|
        0 <= i && i + 1 < p.len() && #[trigger] p[i] == '.' && p[i + 1] == '.' && segment_starts(p, i)
            && segment_ends(p, i + 1)
}

/// A path that climbs out on every platform, whatever else it holds: a `..`
/// segment between `/`s, with no `\` anywhere and no leading `//` (which
/// Windows reads as the start of a `//server/share` prefix).
pub open spec fn climbs_plainly(p: Seq<char>) -> bool {
    &&& forall|i: int| 0 <= i < p.len() ==> #[trigger] p[i] != '\\'
    &&& !starts_with(p, "//"@)
    &&& has_parent_segment(p)
}

/// `Path::is_absolute`. What counts as absolute is the platform's; on every
/// platform a path needs a leading separator or a prefix to be absolute, so
/// a path that reads alike everywhere is not.
#[verifier::external_body]
fn path_is_absolute(p: &str) -> (r: bool)
    ensures
        reads_alike(p@) ==> !r,
{
    std::path::Path::new(p).is_absolute()
}

/// `Path::components`, each component moved into a [`PathPart`].
///
/// What separates components is the platform's; `/` separates them on every
/// platform. So a path that reads alike everywhere has exactly the
/// components [`relative_parts`] names, and a path that climbs plainly has a
/// parent step. Of other paths nothing is promised.
#[verifier::external_body]
fn path_components(p: &str) -> (r: Vec<PathPart>)
    ensures
        reads_alike(p@) ==> part_views(r@) == relative_parts(p@),
        climbs_plainly(p@) ==> part_views(r@).contains(PartView::ParentDir),
{
    std::path::Path::new(p).components().map(|c| match c {
        std::path::Component::Prefix(x) => PathPart::Prefix(x.as_os_str().to_string_lossy().into_owned()),
        std::path::Component::RootDir => PathPart::RootDir,
        std::path::Component::CurDir => PathPart::CurDir,
        std::path::Component::ParentDir => PathPart::ParentDir,
        std::path::Component::Normal(s) => PathPart::Normal(s.to_string_lossy().into_owned()),
    }).collect()
}

/// Whether a list of components takes a step up.
pub fn has_parent_step(parts: &Vec<PathPart>) -> (b: bool)
    ensures
        b == part_views(parts@).contains(PartView::ParentDir),
{
    let mut i: usize = 0;
    while i < parts.len()
        invariant
            i <= parts.len(),
            forall|k: int| 0 <= k < i ==> part_views(parts@)[k] != PartView::ParentDir,
        decreases parts.len() - i,
    {
        if let PathPart::ParentDir = parts[i] {
            assert(part_views(parts@)[i as int] == PartView::ParentDir);
            return true;
        }
        i = i + 1;
    }
    false
}

/// `Path::new(a) == Path::new(b)`: paths compare by component, so equal
/// texts are equal paths, and two paths that read alike everywhere are equal
/// exactly when their components are.
#[verifier::external_body]
fn same_path(a: &str, b: &str) -> (r: bool)
    ensures
        a@ == b@ ==> r,
        reads_alike(a@) && reads_alike(b@) ==> (r <==> relative_parts(a@) == relative_parts(b@)),
{
    std::path::Path::new(a) == std::path::Path::new(b)
}

/// The last segment of a path that names something: not empty (a trailing
/// `/` is dropped) and not `.` (which a path's components drop).
pub open spec fn last_name(segs: Seq<Seq<char>>) -> Option<Seq<char>>
    decreases segs.len(),
{
    if segs.len() == 0 {
        None
    } else if segs.last().len() > 0 && segs.last() != "."@ {
        Some(segs.last())
    } else {
        last_name(segs.drop_last())
    }
}

/// A path's file name as its last component gives it: the last segment that
/// names something, unless that is `..`, when there is none.
pub open spec fn file_name_of(p: Seq<char>) -> Option<Seq<char>> {
    match last_name(segments(p)) {
        Some(n) => if n == ".."@ {
            None
        } else {
            Some(n)
        },
        None => None,
    }
}

/// A path whose last component every platform reads the same way: no `\`
/// anywhere (a separator, and the start of some prefixes, on Windows), no
/// leading `//` (a `//server/share` prefix there), and no `:` in the segment
/// that [`file_name_of`] looks at (a drive prefix there).
pub open spec fn file_name_reads_alike(p: Seq<char>) -> bool {
    &&& forall|i: int| 0 <= i < p.len() ==> #[trigger] p[i] != '\\'
    &&& !starts_with(p, "//"@)
    &&& match last_name(segments(p)) {
        Some(n) => forall|i: int| 0 <= i < n.len() ==> #[trigger] n[i] != ':',
        None => true,
    }
}

/// `Path::file_name`, as text: the path's last component when it is a name.
///
/// Where one component ends and the next begins is the platform's rule; `/`
/// separates components on every platform, repeated and trailing separators
/// and inner `.` segments are dropped, and a final `..` is no name. So for a
/// path whose last component reads alike everywhere the answer is
/// [`file_name_of`]; of other paths nothing is promised.
#[verifier::external_body]
pub(crate) fn path_file_name(path: &str) -> (r: Option<String>)
    ensures
        file_name_reads_alike(path@) ==> (r is Some <==> file_name_of(path@) is Some),
        file_name_reads_alike(path@) && r is Some ==> file_name_of(path@) == Some(r->0@),
{
    std::path::Path::new(path).file_name().map(|n| n.to_string_lossy().into_owned())
}

/// The uris that do not climb out, in order.
pub open spec fn staying(s: Seq<Seq<char>>) -> Seq<Seq<char>>
    decreases s.len(),
{
    if s.len() == 0 {
        seq![]
    } else if climbs(s.last()) {
        staying(s.drop_last())
    } else {
        staying(s.drop_last()).push(s.last())
    }
}

/// Whether some path in `s` has the same components as `x`.
pub open spec fn has_same_path(s: Seq<Seq<char>>, x: Seq<char>) -> bool {
    exists|k: int| 0 <= k < s.len() && relative_parts(#[trigger] s[k]) == relative_parts(x)
}

/// Each path once, at its first occurrence, in order: a later text with the
/// same components as an earlier one is dropped.
pub open spec fn first_paths(s: Seq<Seq<char>>) -> Seq<Seq<char>>
    decreases s.len(),
{
    if s.len() == 0 {
        seq![]
    } else if has_same_path(s.drop_last(), s.last()) {
        first_paths(s.drop_last())
    } else {
        first_paths(s.drop_last()).push(s.last())
    }
}

proof fn lemma_staying(s: Seq<Seq<char>>, x: Seq<char>)
    ensures
        staying(s).contains(x) ==> s.contains(x) && !climbs(x),
        has_same_path(staying(s), x) <==> exists|k: int|
            0 <= k < s.len() && !climbs(#[trigger] s[k]) && relative_parts(s[k]) == relative_parts(x),
    decreases s.len(),
{
    if s.len() > 0 {
        let d = s.drop_last();
        lemma_staying(d, x);
        let sd = staying(d);
        let st = staying(s);
        assert(s[s.len() - 1] == s.last());
        assert forall|k: int| 0 <= k < d.len() implies #[trigger] d[k] == s[k] by {}
        if !climbs(s.last()) {
            assert(st.drop_last() =~= sd);
            assert(st[st.len() - 1] == s.last());
        } else {
            assert(st == sd);
        }
        assert forall|k: int| 0 <= k < sd.len() implies #[trigger] st[k] == sd[k] by {}
        if st.contains(x) {
            let k = choose|k: int| 0 <= k < st.len() && st[k] == x;
            if k < sd.len() {
                assert(sd[k] == x);
                let m = choose|m: int| 0 <= m < d.len() && d[m] == x;
                assert(s[m] == x);
            }
        }
        if has_same_path(st, x) {
            let k = choose|k: int| 0 <= k < st.len() && relative_parts(#[trigger] st[k]) == relative_parts(x);
            if k < sd.len() {
                assert(has_same_path(sd, x));
                let m = choose|m: int|
                    0 <= m < d.len() && !climbs(#[trigger] d[m]) && relative_parts(d[m]) == relative_parts(x);
                assert(s[m] == d[m]);
            } else {
                assert(!climbs(s[s.len() - 1]));
            }
        }
        if exists|k: int|
            0 <= k < s.len() && !climbs(#[trigger] s[k]) && relative_parts(s[k]) == relative_parts(x) {
            let k = choose|k: int|
                0 <= k < s.len() && !climbs(#[trigger] s[k]) && relative_parts(s[k]) == relative_parts(x);
            if k < d.len() {
                assert(d[k] == s[k]);
                assert(has_same_path(sd, x));
                let m = choose|m: int| 0 <= m < sd.len() && relative_parts(#[trigger] sd[m]) == relative_parts(x);
                assert(st[m] == sd[m]);
            } else {
                assert(relative_parts(st[st.len() - 1]) == relative_parts(x));
            }
        }
    }
}

proof fn lemma_first_paths(s: Seq<Seq<char>>, x: Seq<char>)
    ensures
        has_same_path(first_paths(s), x) <==> has_same_path(s, x),
        first_paths(s).contains(x) ==> s.contains(x),
    decreases s.len(),
{
    if s.len() > 0 {
        let d = s.drop_last();
        lemma_first_paths(d, x);
        let f = first_paths(s);
        assert(s[s.len() - 1] == s.last());
        assert forall|k: int| 0 <= k < d.len() implies #[trigger] d[k] == s[k] by {}
        if has_same_path(d, x) {
            let k = choose|k: int| 0 <= k < d.len() && relative_parts(#[trigger] d[k]) == relative_parts(x);
            assert(relative_parts(s[k]) == relative_parts(x));
        }
        if first_paths(d).contains(x) {
            let k = choose|k: int| 0 <= k < d.len() && d[k] == x;
            assert(s[k] == x);
        }
        if has_same_path(s, x) && !has_same_path(d, x) {
            let k = choose|k: int| 0 <= k < s.len() && relative_parts(#[trigger] s[k]) == relative_parts(x);
            if k < d.len() {
                assert(relative_parts(d[k]) == relative_parts(x));
            }
            assert(relative_parts(s.last()) == relative_parts(x));
        }
        if has_same_path(d, s.last()) {
            lemma_first_paths(d, s.last());
            if relative_parts(s.last()) == relative_parts(x) {
                let k = choose|k: int|
                    0 <= k < first_paths(d).len() && relative_parts(#[trigger] first_paths(d)[k])
                        == relative_parts(s.last());
                assert(relative_parts(first_paths(d)[k]) == relative_parts(x));
            }
        } else {
            assert(f.drop_last() =~= first_paths(d));
            if has_same_path(f, x) {
                let k = choose|k: int| 0 <= k < f.len() && relative_parts(#[trigger] f[k]) == relative_parts(x);
                if k < f.len() - 1 {
                    assert(first_paths(d)[k] == f[k]);
                }
            }
            if has_same_path(first_paths(d), x) {
                let k = choose|k: int|
                    0 <= k < first_paths(d).len() && relative_parts(#[trigger] first_paths(d)[k])
                        == relative_parts(x);
                assert(f[k] == first_paths(d)[k]);
            }
            if relative_parts(s.last()) == relative_parts(x) {
                assert(f[f.len() - 1] == s.last());
            }
            if f.contains(x) && x != s.last() {
                let k = choose|k: int| 0 <= k < f.len() && f[k] == x;
                assert(first_paths(d)[k] == x);
            }
        }
    }
}

/// Whether every uri reads alike on every platform.
pub open spec fn all_read_alike(uris: Seq<Seq<char>>) -> bool {
    forall|k: int| 0 <= k < uris.len() ==> reads_alike(#[trigger] uris[k])
}

/// The witness that the kept uris stand in the order the uris give them:
/// `idx[k]` is where `out[k]` stands among `uris`, rising with `k`.
pub open spec fn order_witness(out: Seq<Seq<char>>, uris: Seq<Seq<char>>, idx: Seq<int>) -> bool {
    &&& idx.len() == out.len()
    &&& forall|k: int| 0 <= k < idx.len() ==> 0 <= #[trigger] idx[k] < uris.len() && uris[idx[k]] == out[k]
    &&& forall|k: int, l: int| 0 <= k < l < idx.len() ==> #[trigger] idx[k] < #[trigger] idx[l]
}

/// Whether the kept uris stand in document order.
pub open spec fn in_document_order(out: Seq<Seq<char>>, uris: Seq<Seq<char>>) -> bool {
    exists|idx: Seq<int>| order_witness(out, uris, idx)
}

/// Nothing plain is lost: every uri that reads alike everywhere and does not
/// climb out is kept, or a uri no later than it was kept that is the same
/// path — or one whose sameness only the platform can tell.
pub open spec fn nothing_plain_lost(out: Seq<Seq<char>>, uris: Seq<Seq<char>>) -> bool {
    forall|i: int|
        0 <= i < uris.len() && reads_alike(#[trigger] uris[i]) && !climbs(uris[i]) ==> exists|j: int|
            0 <= j <= i && out.contains(#[trigger] uris[j]) && (!reads_alike(uris[j]) || relative_parts(
                uris[j],
            ) == relative_parts(uris[i]))
}

/// No two kept uris that read alike everywhere are the same path.
pub open spec fn no_path_twice(out: Seq<Seq<char>>) -> bool {
    forall|k: int, l: int|
        0 <= k < l < out.len() && reads_alike(#[trigger] out[k]) && reads_alike(#[trigger] out[l])
            ==> relative_parts(out[k]) != relative_parts(out[l])
}

/// What the files a model brings along are, out of the uris it names: some
/// of the uris, in document order, each text once and no path twice, none
/// that climbs out; every uri that reads alike everywhere and stays inside
/// is kept unless an earlier kept uri is the same path; and where every uri
/// reads alike everywhere, exactly those with no `..` segment, each path
/// once at its first occurrence.
pub open spec fn kept_files(out: Seq<Seq<char>>, uris: Seq<Seq<char>>) -> bool {
    &&& forall|i: int| 0 <= i < out.len() ==> uris.contains(#[trigger] out[i])
    &&& in_document_order(out, uris)
    &&& forall|i: int, j: int| 0 <= i < j < out.len() ==> out[i] != out[j]
    &&& no_path_twice(out)
    &&& forall|i: int| 0 <= i < out.len() ==> !climbs_plainly(#[trigger] out[i])
    &&& forall|i: int| 0 <= i < out.len() && reads_alike(#[trigger] out[i]) ==> !climbs(out[i])
    &&& nothing_plain_lost(out, uris)
    &&& all_read_alike(uris) ==> out == first_paths(staying(uris))
}

/// Whether `Path::new(p)` takes a step up.
fn climbs_out(p: &str) -> (b: bool)
    ensures
        reads_alike(p@) ==> (b == climbs(p@)),
        climbs_plainly(p@) ==> b,
{
    has_parent_step(&path_components(p))
}

/// The candidates that stay inside the model's folder, each path once.
#[verifier::spinoff_prover]
#[verifier::rlimit(60)]
fn keep_files(candidates: &Vec<String>) -> (out: Vec<String>)
    ensures
        kept_files(texts(out@), texts(candidates@)),
{
    let ghost uris = texts(candidates@);
    let ghost alike = all_read_alike(uris);
    let mut out: Vec<String> = Vec::new();
    let mut i: usize = 0;
    let ghost mut idx: Seq<int> = seq![];
    assert(texts(out@) =~= first_paths(staying(uris.subrange(0, 0))));
    while i < candidates.len()
        invariant
            i <= candidates.len(),
            uris == texts(candidates@),
            alike == all_read_alike(uris),
            order_witness(texts(out@), uris, idx),
            forall|k: int| 0 <= k < idx.len() ==> #[trigger] idx[k] < i,
            no_path_twice(texts(out@)),
            forall|m: int|
                0 <= m < i && reads_alike(#[trigger] uris[m]) && !climbs(uris[m]) ==> exists|j: int|
                    0 <= j <= m && texts(out@).contains(#[trigger] uris[j]) && (!reads_alike(uris[j])
                        || relative_parts(uris[j]) == relative_parts(uris[m])),
            forall|k: int| 0 <= k < out@.len() ==> uris.contains(#[trigger] out@[k]@),
            forall|k: int, l: int| 0 <= k < l < out@.len() ==> out@[k]@ != out@[l]@,
            forall|k: int| 0 <= k < out@.len() ==> !climbs_plainly(#[trigger] out@[k]@),
            forall|k: int| 0 <= k < out@.len() && reads_alike(#[trigger] out@[k]@) ==> !climbs(out@[k]@),
            alike ==> texts(out@) == first_paths(staying(uris.subrange(0, i as int))),
        decreases candidates.len() - i,
    {
        let rel = &candidates[i];
        assert(uris[i as int] == rel@);
        let ghost prefix = uris.subrange(0, i + 1);
        let ghost earlier = uris.subrange(0, i as int);
        assert(prefix.drop_last() =~= earlier);
        assert(prefix.last() == rel@);
        assert(alike ==> reads_alike(rel@));
        assert(alike ==> forall|k: int| 0 <= k < out@.len() ==> reads_alike(#[trigger] out@[k]@)) by {
            if alike {
                assert forall|k: int| 0 <= k < out@.len() implies reads_alike(#[trigger] out@[k]@) by {
                    let m = choose|m: int| 0 <= m < uris.len() && uris[m] == out@[k]@;
                }
            }
        }
        let ghost out_before = texts(out@);
        let ghost idx_before = idx;
        let mut seen = false;
        let ghost mut seen_at: int = 0;
        if !path_is_absolute(rel.as_str()) && !climbs_out(rel.as_str()) {
            let mut k: usize = 0;
            while k < out.len()
                invariant
                    k <= out.len(),
                    !seen ==> forall|m: int| 0 <= m < k ==> out@[m]@ != rel@,
                    !seen ==> forall|m: int|
                        0 <= m < k && reads_alike(#[trigger] out@[m]@) && reads_alike(rel@)
                            ==> relative_parts(out@[m]@) != relative_parts(rel@),
                    seen ==> 0 <= seen_at < out@.len() && (reads_alike(out@[seen_at]@) && reads_alike(
                        rel@,
                    ) ==> relative_parts(out@[seen_at]@) == relative_parts(rel@)),
                    alike ==> reads_alike(rel@),
                    alike ==> forall|m: int| 0 <= m < out@.len() ==> reads_alike(#[trigger] out@[m]@),
                    alike ==> (seen <==> exists|m: int|
                        0 <= m < k && relative_parts(#[trigger] out@[m]@) == relative_parts(rel@)),
                decreases out.len() - k,
            {
                if same_path(out[k].as_str(), rel.as_str()) {
                    if !seen {
                        proof {
                            seen_at = k as int;
                        }
                    }
                    seen = true;
                }
                proof {
                    if alike && relative_parts(out@[k as int]@) == relative_parts(rel@) {
                        assert(seen);
                    }
                }
                k = k + 1;
            }
            proof {
                if alike {
                    lemma_staying(earlier, rel@);
                    lemma_first_paths(staying(earlier), rel@);
                    assert(has_same_path(texts(out@), rel@) <==> seen) by {
                        if seen {
                            let m = choose|m: int|
                                0 <= m < out@.len() && relative_parts(#[trigger] out@[m]@) == relative_parts(rel@);
                            assert(texts(out@)[m] == out@[m]@);
                        }
                        if has_same_path(texts(out@), rel@) {
                            let m = choose|m: int|
                                0 <= m < texts(out@).len() && relative_parts(#[trigger] texts(out@)[m])
                                    == relative_parts(rel@);
                            assert(texts(out@)[m] == out@[m]@);
                        }
                    }
                    let st = staying(prefix);
                    assert(!climbs(rel@));
                    assert(st == staying(earlier).push(rel@));
                    assert(st.drop_last() =~= staying(earlier));
                    assert(st.last() == rel@);
                }
            }
            if !seen {
                let ghost before = out@;
                out.push(rel.clone());
                proof {
                    let old_idx = idx;
                    idx = idx.push(i as int);
                    assert(texts(out@) =~= texts(before).push(rel@));
                    assert(order_witness(texts(out@), uris, idx)) by {
                        assert forall|k: int| 0 <= k < idx.len() implies 0 <= #[trigger] idx[k] < uris.len()
                            && uris[idx[k]] == texts(out@)[k] by {
                            if k < old_idx.len() {
                                assert(idx[k] == old_idx[k]);
                                assert(texts(out@)[k] == texts(before)[k]);
                            }
                        }
                        assert forall|k: int, l: int| 0 <= k < l < idx.len() implies #[trigger] idx[k]
                            < #[trigger] idx[l] by {
                            assert(idx[k] == old_idx[k]);
                            if l < old_idx.len() {
                                assert(idx[l] == old_idx[l]);
                            }
                        }
                    }
                    assert(no_path_twice(texts(out@))) by {
                        assert forall|k: int, l: int|
                            0 <= k < l < texts(out@).len() && reads_alike(#[trigger] texts(out@)[k])
                                && reads_alike(#[trigger] texts(out@)[l]) implies relative_parts(
                            texts(out@)[k],
                        ) != relative_parts(texts(out@)[l]) by {
                            assert(texts(out@)[k] == texts(before)[k]);
                            assert(texts(before)[k] == before[k]@);
                            if l < before.len() {
                                assert(texts(out@)[l] == texts(before)[l]);
                            }
                        }
                    }
                }
                assert(out@[out@.len() - 1]@ == rel@);
                assert forall|k: int, l: int| 0 <= k < l < out@.len() implies out@[k]@ != out@[l]@ by {
                    if l < before.len() {
                        assert(out@[k] == before[k] && out@[l] == before[l]);
                    } else {
                        assert(out@[k] == before[k]);
                    }
                }
                assert forall|k: int| 0 <= k < out@.len() implies !climbs_plainly(#[trigger] out@[k]@) by {
                    if k < before.len() {
                        assert(out@[k] == before[k]);
                    }
                }
                assert forall|k: int| 0 <= k < out@.len() && reads_alike(#[trigger] out@[k]@) implies !climbs(out@[k]@) by {
                    if k < before.len() {
                        assert(out@[k] == before[k]);
                    }
                }
                assert(uris.contains(rel@));
                proof {
                    if alike {
                        assert(texts(out@) =~= texts(before).push(rel@));
                    }
                }
            }
        } else {
            proof {
                if alike {
                    assert(climbs(rel@));
                    assert(staying(prefix) == staying(earlier));
                }
            }
        }
        proof {
            assert forall|x: Seq<char>| out_before.contains(x) implies texts(out@).contains(x) by {
                let m = choose|m: int| 0 <= m < out_before.len() && out_before[m] == x;
                assert(texts(out@)[m] == x);
            }
            assert forall|m: int|
                0 <= m < i + 1 && reads_alike(#[trigger] uris[m]) && !climbs(uris[m]) implies exists|j: int|
                0 <= j <= m && texts(out@).contains(#[trigger] uris[j]) && (!reads_alike(uris[j])
                    || relative_parts(uris[j]) == relative_parts(uris[m])) by {
                if m < i {
                    let j = choose|j: int|
                        0 <= j <= m && out_before.contains(#[trigger] uris[j]) && (!reads_alike(uris[j])
                            || relative_parts(uris[j]) == relative_parts(uris[m]));
                    assert(texts(out@).contains(uris[j]));
                } else {
                    assert(uris[m] == rel@);
                    if seen {
                        let j = idx_before[seen_at];
                        assert(out_before[seen_at] == out@[seen_at]@);
                        assert(uris[j] == out_before[seen_at]);
                        assert(texts(out@).contains(uris[j]));
                    } else {
                        assert(texts(out@)[texts(out@).len() - 1] == rel@);
                        assert(texts(out@).contains(uris[m]));
                    }
                }
            }
        }
        i = i + 1;
    }
    assert(uris.subrange(0, candidates.len() as int) =~= uris);
    assert(order_witness(texts(out@), uris, idx));
    out
}

/// The files a parsed glTF document brings along: see [`kept_files`].
pub fn model_files(doc: &JsonValue) -> (out: Vec<String>)
    ensures
        kept_files(texts(out@), doc_uris(*doc)),
{
    let candidates = document_uris(doc);
    keep_files(&candidates)
}

/// Every relative file a glTF refers to — its buffers and its images — that
/// stays inside the model's folder, each path once.
///
/// Read from the JSON directly rather than through a glTF library, so a
/// model that fails to validate still has its pieces gathered. **Paths that
/// climb out are refused**: a uri of `../../secrets` in a downloaded model
/// would otherwise write wherever it pleased. What is absolute, what climbs
/// and which paths are the same are decided by the platform's path rules;
/// a uri that climbs out by a `..` segment between `/`s is refused on every
/// platform, and for a model whose uris are all plain relative paths or such
/// climbing ones the result is every plain one, once, in document order.
pub fn referenced_files(bytes: &[u8]) -> (out: Vec<String>)
    ensures
        kept_files(texts(out@), model_uris(bytes@)),
{
    match parse_json(bytes) {
        Ok(doc) => model_files(&doc),
        Err(_) => {
            let out: Vec<String> = Vec::new();
            assert(texts(out@) =~= seq![]);
            assert(staying(model_uris(bytes@)) =~= seq![]);
            assert(order_witness(texts(out@), model_uris(bytes@), seq![]));
            out
        },
    }
}

} // verus!

verus! {

// ── the store ─────────────────────────────────────────────────────────

/// `assets/<prefix>/<sha>/<name>`: a model's main file inside its directory.
pub open spec fn is_model_file_location(parts: Seq<Seq<char>>, sha: Seq<char>, name: Seq<char>) -> bool {
    &&& parts.len() == 4
    &&& is_model_location(parts.subrange(0, 3), sha)
    &&& parts[3] == name
}

/// The record an import produces for these bytes.
pub open spec fn is_imported_ref(
    a: AssetRef,
    bytes: Seq<u8>,
    name: Seq<char>,
    kind: AssetKind,
    id: AssetId,
) -> bool {
    &&& a.id == id
    &&& a.sha256@ == lower_hex(sha256(bytes))
    &&& a.kind == kind
    &&& a.original_name@ == name
    &&& a.byte_len == bytes.len()
    &&& a.width is None
    &&& a.height is None
}

/// An asset ready to be written: its record and where its bytes go.
///
/// If a file already exists at `dest` it holds these very bytes (the path is
/// their hash), and nothing needs writing.
#[derive(Debug)]
pub struct StoredAsset {
    pub asset: AssetRef,
    pub dest: StorePath,
}

/// A model ready to be written: its record, its directory, where its main
/// file goes, and the relative files beside it to copy along.
#[derive(Debug)]
pub struct StoredModel {
    pub asset: AssetRef,
    pub dir: StorePath,
    pub dest: StorePath,
    pub references: Vec<String>,
}

impl AssetStore {
    /// Open (or prepare) the store rooted at a project directory such as
    /// `MyShow.animus/`. Neither it nor its `assets/` needs to exist yet.
    pub fn new(root: &str) -> (s: Self)
        ensures
            s@ == root@,
    {
        AssetStore { root: String::from_str(root) }
    }

    /// Where an `AssetRef`'s bytes live (or would live), from its hash and
    /// kind alone — and, for a model, the name it was imported under.
    pub fn path_for(&self, r: &AssetRef) -> (p: StorePath)
        requires
            prefix_ok(r.sha256@),
        ensures
            p.root@ == self@,
            r.kind == AssetKind::Gltf ==> is_model_file_location(
                parts_of(p),
                r.sha256@,
                r.original_name@,
            ),
            r.kind != AssetKind::Gltf ==> is_asset_location(parts_of(p), r.sha256@, r.kind),
    {
        match r.kind {
            AssetKind::Gltf => {
                let mut p = model_dir(self.root.as_str(), r.sha256.as_str());
                let ghost before = parts_of(p);
                p.parts.push(r.original_name.clone());
                assert(parts_of(p).subrange(0, 3) =~= before);
                p
            },
            _ => asset_path(self.root.as_str(), r.sha256.as_str(), r.kind),
        }
    }

    /// Store `bytes` under `id`: the `AssetRef` for them and where they go.
    ///
    /// Bytes already stored are not written again; a fresh `AssetRef`
    /// carrying `id` is still built. Deduplicating *references* is the
    /// caller's job.
    pub fn import(&self, bytes: &[u8], original_name: &str, kind: AssetKind, id: AssetId) -> (s:
        StoredAsset)
        ensures
            is_imported_ref(s.asset, bytes@, original_name@, kind, id),
            s.asset.sha256@.len() == 64,
            prefix_ok(s.asset.sha256@),
            s.dest.root@ == self@,
            is_asset_location(parts_of(s.dest), s.asset.sha256@, kind),
    {
        let sha256 = hex_sha256(bytes);
        let dest = asset_path(self.root.as_str(), sha256.as_str(), kind);
        let asset = AssetRef {
            id,
            sha256,
            kind,
            original_name: String::from_str(original_name),
            byte_len: bytes.len() as u64,
            width: None,
            height: None,
        };
        StoredAsset { asset, dest }
    }

    /// Store a model and everything it refers to.
    ///
    /// The main file keeps its own name inside a directory named for its
    /// hash, and every relative file it mentions is copied beside it at the
    /// same relative path, so the bundle resolves its own references exactly
    /// as the folder it came from did.
    pub fn import_model(&self, bytes: &[u8], original_name: &str, id: AssetId) -> (s: StoredModel)
        ensures
            is_imported_ref(s.asset, bytes@, original_name@, AssetKind::Gltf, id),
            s.asset.sha256@.len() == 64,
            prefix_ok(s.asset.sha256@),
            s.dir.root@ == self@,
            is_model_location(parts_of(s.dir), s.asset.sha256@),
            s.dest.root@ == self@,
            is_model_file_location(parts_of(s.dest), s.asset.sha256@, original_name@),
            kept_files(texts(s.references@), model_uris(bytes@)),
    {
        let sha256 = hex_sha256(bytes);
        let dir = model_dir(self.root.as_str(), sha256.as_str());
        let mut dest = model_dir(self.root.as_str(), sha256.as_str());
        let ghost before = parts_of(dest);
        dest.parts.push(String::from_str(original_name));
        assert(parts_of(dest).subrange(0, 3) =~= before);
        let references = referenced_files(bytes);
        let asset = AssetRef {
            id,
            sha256,
            kind: AssetKind::Gltf,
            original_name: String::from_str(original_name),
            byte_len: bytes.len() as u64,
            width: None,
            height: None,
        };
        StoredModel { asset, dir, dest, references }
    }
}

} // verus!

verus! {

// ── laws ──────────────────────────────────────────────────────────────

/// A hash has one bucket.
pub proof fn lemma_bucket_unique(p: Seq<char>, q: Seq<char>, sha: Seq<char>)
    requires
        is_bucket_of(p, sha),
        is_bucket_of(q, sha),
    ensures
        p == q,
{
    vstd::utf8::encode_utf8_decode_utf8(p);
    vstd::utf8::encode_utf8_decode_utf8(q);
}

/// **Content addressing.** Identical bytes imported twice, under any names
/// and ids, are stored at one and the same place: one file on disk.
pub proof fn law_identical_bytes_share_one_file(
    first: Seq<u8>,
    second: Seq<u8>,
    kind: AssetKind,
    p: Seq<Seq<char>>,
    q: Seq<Seq<char>>,
)
    requires
        first == second,
        is_asset_location(p, lower_hex(sha256(first)), kind),
        is_asset_location(q, lower_hex(sha256(second)), kind),
    ensures
        p == q,
{
    lemma_bucket_unique(p[1], q[1], lower_hex(sha256(first)));
    assert(p =~= q);
}

/// **The path is the hash.** Where `path_for` looks for an imported asset is
/// exactly where the import put its bytes: for a model, its main file inside
/// its own directory; for anything else, the hashed file.
pub proof fn law_path_for_finds_what_import_stored(
    a: AssetRef,
    stored: Seq<Seq<char>>,
    found: Seq<Seq<char>>,
)
    requires
        a.kind != AssetKind::Gltf ==> is_asset_location(stored, a.sha256@, a.kind)
            && is_asset_location(found, a.sha256@, a.kind),
        a.kind == AssetKind::Gltf ==> is_model_file_location(stored, a.sha256@, a.original_name@)
            && is_model_file_location(found, a.sha256@, a.original_name@),
    ensures
        stored == found,
{
    lemma_bucket_unique(stored[1], found[1], a.sha256@);
    assert(stored =~= found);
}

} // verus!
