use vstd::prelude::*;
use vstd::utf8::is_continuation_byte;

use crate::lines::{spec_trimmed_lines, str_views, trimmed_lines};
use crate::text::{all_ascii, ascii_string, decode_lossy, opt_view, string_from_utf8_lossy, utf8};

verus! {

/// Bytes that stand for themselves in a file URI.
pub open spec fn is_uri_safe(b: u8) -> bool {
    ||| 0x30 <= b <= 0x39
    ||| 0x41 <= b <= 0x5a
    ||| 0x61 <= b <= 0x7a
    ||| b == 0x2f
    ||| b == 0x2d
    ||| b == 0x5f
    ||| b == 0x2e
    ||| b == 0x7e
}

/// The upper-case hex digit of a value below 16.
pub open spec fn hex_digit(v: u8) -> u8 {
    if v < 10 {
        (0x30 + v) as u8
    } else {
        (0x41 + v - 10) as u8
    }
}

/// A path's bytes with every byte that is not safe written as `%XX`.
pub open spec fn spec_percent_encode(b: Seq<u8>) -> Seq<u8>
    decreases b.len(),
{
    if b.len() == 0 {
        seq![]
    } else {
        (if is_uri_safe(b[0]) {
            seq![b[0]]
        } else {
            seq![0x25u8, hex_digit(b[0] / 16), hex_digit(b[0] % 16)]
        }) + spec_percent_encode(b.drop_first())
    }
}

/// The value of a hex digit, if the byte is one.
pub open spec fn hex_value(b: u8) -> Option<u8> {
    if 0x30 <= b <= 0x39 {
        Some((b - 0x30) as u8)
    } else if 0x41 <= b <= 0x46 {
        Some((b - 0x41 + 10) as u8)
    } else if 0x61 <= b <= 0x66 {
        Some((b - 0x61 + 10) as u8)
    } else {
        None
    }
}

/// The value of the two bytes after a `%`, read as Rust reads a base-16
/// number (an optional `+` sign, then digits).
pub open spec fn escape_value(b1: u8, b2: u8) -> Option<u8> {
    match (hex_value(b1), hex_value(b2)) {
        (Some(h), Some(l)) => Some((h * 16 + l) as u8),
        (None, Some(l)) => if b1 == 0x2b {
            Some(l)
        } else {
            None
        },
        _ => None,
    }
}

/// Whether an escape starts at `i`: a `%` with two more bytes after it that
/// read as a value.
pub open spec fn escape_at(b: Seq<u8>, i: int) -> bool {
    &&& b[i] == 0x25
    &&& i + 2 < b.len()
    &&& escape_value(b[i + 1], b[i + 2]) is Some
}

/// `%XX` escapes from position `i` on replaced by the bytes they stand for.
pub open spec fn spec_percent_decode_from(b: Seq<u8>, i: int) -> Seq<u8>
    decreases b.len() - i,
{
    if i < 0 || i >= b.len() {
        seq![]
    } else if escape_at(b, i) {
        seq![escape_value(b[i + 1], b[i + 2]).unwrap()] + spec_percent_decode_from(b, i + 3)
    } else {
        seq![b[i]] + spec_percent_decode_from(b, i + 1)
    }
}

pub open spec fn spec_percent_decode(b: Seq<u8>) -> Seq<u8> {
    spec_percent_decode_from(b, 0)
}

/// Whether decoding reads each pair after a `%` on character boundaries:
/// the text is cut after the pair to read it, which fails when a
/// multi-byte character goes on there.
pub open spec fn decodable(b: Seq<u8>) -> bool {
    forall|i: int| 0 <= i && i + 3 < b.len() && b[i] == 0x25 ==> !is_continuation_byte(
        #[trigger] b[i + 3],
    )
}

fn is_safe_byte(b: u8) -> (r: bool)
    ensures
        r == is_uri_safe(b),
{
    (0x30 <= b && b <= 0x39) || (0x41 <= b && b <= 0x5a) || (0x61 <= b && b <= 0x7a) || b == 0x2f
        || b == 0x2d || b == 0x5f || b == 0x2e || b == 0x7e
}

fn hex_digit_of(v: u8) -> (r: u8)
    requires
        v < 16,
    ensures
        r == hex_digit(v),
        r < 0x80,
{
    if v < 10 {
        0x30 + v
    } else {
        0x41 + v - 10
    }
}

fn hex_value_of(b: u8) -> (r: Option<u8>)
    ensures
        r == hex_value(b),
{
    if 0x30 <= b && b <= 0x39 {
        Some(b - 0x30)
    } else if 0x41 <= b && b <= 0x46 {
        Some(b - 0x41 + 10)
    } else if 0x61 <= b && b <= 0x66 {
        Some(b - 0x61 + 10)
    } else {
        None
    }
}

fn escape_value_of(b1: u8, b2: u8) -> (r: Option<u8>)
    ensures
        r == escape_value(b1, b2),
{
    match (hex_value_of(b1), hex_value_of(b2)) {
        (Some(h), Some(l)) => Some(h * 16 + l),
        (None, Some(l)) => if b1 == 0x2b {
            Some(l)
        } else {
            None
        },
        _ => None,
    }
}

proof fn lemma_percent_encode_ascii(b: Seq<u8>)
    ensures
        all_ascii(spec_percent_encode(b)),
    decreases b.len(),
{
    if b.len() > 0 {
        lemma_percent_encode_ascii(b.drop_first());
    }
}

proof fn lemma_percent_encode_push(b: Seq<u8>, x: u8)
    ensures
        spec_percent_encode(b.push(x)) == spec_percent_encode(b) + spec_percent_encode(seq![x]),
    decreases b.len(),
{
    if b.len() == 0 {
        assert(b.push(x) =~= seq![x]);
        assert(spec_percent_encode(b) == Seq::<u8>::empty());
        assert(spec_percent_encode(b.push(x)) =~= spec_percent_encode(b) + spec_percent_encode(
            seq![x],
        ));
    } else {
        assert(b.push(x).drop_first() =~= b.drop_first().push(x));
        lemma_percent_encode_push(b.drop_first(), x);
        assert(spec_percent_encode(b.push(x)) =~= spec_percent_encode(b) + spec_percent_encode(
            seq![x],
        ));
    }
}

proof fn lemma_percent_encode_single(x: u8)
    ensures
        spec_percent_encode(seq![x]) == (if is_uri_safe(x) {
            seq![x]
        } else {
            seq![0x25u8, hex_digit(x / 16), hex_digit(x % 16)]
        }),
{
    let s = seq![x];
    assert(s.drop_first() =~= Seq::<u8>::empty());
    assert(spec_percent_encode(s.drop_first()) =~= Seq::<u8>::empty());
    assert(s[0] == x);
    if is_uri_safe(x) {
        assert(spec_percent_encode(s) =~= seq![x]);
    } else {
        assert(spec_percent_encode(s) =~= seq![0x25u8, hex_digit(x / 16), hex_digit(x % 16)]);
    }
}

/// A path's bytes percent-encoded for a file URI.
pub fn percent_encode_bytes(bytes: &[u8]) -> (r: Vec<u8>)
    ensures
        r@ == spec_percent_encode(bytes@),
{
    let mut out: Vec<u8> = Vec::new();
    let mut i: usize = 0;
    while i < bytes.len()
        invariant
            i <= bytes@.len(),
            out@ == spec_percent_encode(bytes@.take(i as int)),
        decreases bytes@.len() - i,
    {
        let b = bytes[i];
        proof {
            lemma_percent_encode_push(bytes@.take(i as int), b);
            assert(bytes@.take(i as int).push(b) =~= bytes@.take(i + 1));
            assert(seq![b].drop_first() =~= Seq::<u8>::empty());
        }
        if is_safe_byte(b) {
            out.push(b);
        } else {
            out.push(0x25);
            out.push(hex_digit_of(b / 16));
            out.push(hex_digit_of(b % 16));
        }
        proof {
            lemma_percent_encode_single(b);
        }
        i = i + 1;
    }
    assert(bytes@.take(i as int) =~= bytes@);
    out
}

/// A path percent-encoded for a file URI.
pub fn percent_encode_path(path: &str) -> (r: String)
    ensures
        utf8(r@) == spec_percent_encode(utf8(path@)),
{
    let encoded = percent_encode_bytes(path.as_bytes());
    proof {
        lemma_percent_encode_ascii(utf8(path@));
    }
    ascii_string(encoded.as_slice())
}

/// The bytes of "file://".
pub open spec fn file_scheme() -> Seq<u8> {
    seq![0x66u8, 0x69, 0x6c, 0x65, 0x3a, 0x2f, 0x2f]
}

/// The bytes of "file://localhost".
pub open spec fn file_localhost() -> Seq<u8> {
    file_scheme() + seq![0x6cu8, 0x6f, 0x63, 0x61, 0x6c, 0x68, 0x6f, 0x73, 0x74]
}

/// A path as a file URI: "file://" and the percent-encoded path.
pub open spec fn spec_path_to_file_uri(path: Seq<char>) -> Seq<u8> {
    file_scheme() + spec_percent_encode(utf8(path))
}

/// The file URI of a path.
pub fn path_to_file_uri(path: &str) -> (r: String)
    ensures
        utf8(r@) == spec_path_to_file_uri(path@),
{
    let mut out: Vec<u8> = Vec::new();
    out.push(0x66);
    out.push(0x69);
    out.push(0x6c);
    out.push(0x65);
    out.push(0x3a);
    out.push(0x2f);
    out.push(0x2f);
    let encoded = percent_encode_bytes(path.as_bytes());
    crate::wire::push_bytes(&mut out, encoded.as_slice());
    proof {
        lemma_percent_encode_ascii(utf8(path@));
        assert(out@ =~= spec_path_to_file_uri(path@));
        assert(all_ascii(out@));
    }
    ascii_string(out.as_slice())
}

/// The bytes of a percent-encoded text decoded.
pub fn percent_decode_bytes(bytes: &[u8]) -> (r: Vec<u8>)
    ensures
        r@ == spec_percent_decode(bytes@),
{
    let mut out: Vec<u8> = Vec::new();
    let mut i: usize = 0;
    while i < bytes.len()
        invariant
            i <= bytes@.len(),
            spec_percent_decode(bytes@) == out@ + spec_percent_decode_from(bytes@, i as int),
        decreases bytes@.len() - i,
    {
        if bytes[i] == 0x25 && bytes.len() - i > 2 {
            match escape_value_of(bytes[i + 1], bytes[i + 2]) {
                Some(v) => {
                    let ghost before = out@;
                    out.push(v);
                    i = i + 3;
                    proof {
                        assert(before + spec_percent_decode_from(bytes@, i - 3) =~= out@
                            + spec_percent_decode_from(bytes@, i as int));
                    }
                    continue;
                },
                None => {},
            }
        }
        let ghost before = out@;
        out.push(bytes[i]);
        i = i + 1;
        proof {
            assert(before + spec_percent_decode_from(bytes@, i - 1) =~= out@
                + spec_percent_decode_from(bytes@, i as int));
        }
    }
    assert(out@ + spec_percent_decode_from(bytes@, i as int) =~= out@);
    out
}

fn decode_path_bytes(bytes: &[u8]) -> (r: String)
    ensures
        r@ == decode_lossy(spec_percent_decode(bytes@)),
{
    let decoded = percent_decode_bytes(bytes);
    string_from_utf8_lossy(decoded.as_slice())
}

/// A percent-encoded path decoded; bytes that are not UTF-8 come out as
/// U+FFFD.
pub fn percent_decode_path(path: &str) -> (r: String)
    requires
        decodable(utf8(path@)),
    ensures
        r@ == decode_lossy(spec_percent_decode(utf8(path@))),
{
    decode_path_bytes(path.as_bytes())
}

/// Whether `b` starts with `p`.
pub open spec fn has_prefix(b: Seq<u8>, p: Seq<u8>) -> bool {
    p.len() <= b.len() && b.take(p.len() as int) == p
}

fn has_prefix_bytes(b: &[u8], p: &[u8]) -> (r: bool)
    ensures
        r == has_prefix(b@, p@),
{
    if p.len() > b.len() {
        return false;
    }
    let mut i: usize = 0;
    while i < p.len()
        invariant
            p@.len() <= b@.len(),
            i <= p@.len(),
            forall|j: int| 0 <= j < i ==> b@[j] == p@[j],
        decreases p@.len() - i,
    {
        if b[i] != p[i] {
            assert(b@.take(p@.len() as int)[i as int] != p@[i as int]);
            return false;
        }
        i = i + 1;
    }
    assert(b@.take(p@.len() as int) =~= p@);
    true
}

fn file_scheme_bytes() -> (r: Vec<u8>)
    ensures
        r@ == file_scheme(),
{
    let mut r: Vec<u8> = Vec::new();
    r.push(0x66);
    r.push(0x69);
    r.push(0x6c);
    r.push(0x65);
    r.push(0x3a);
    r.push(0x2f);
    r.push(0x2f);
    assert(r@ =~= file_scheme());
    r
}

fn file_localhost_bytes() -> (r: Vec<u8>)
    ensures
        r@ == file_localhost(),
{
    let mut r = file_scheme_bytes();
    r.push(0x6c);
    r.push(0x6f);
    r.push(0x63);
    r.push(0x61);
    r.push(0x6c);
    r.push(0x68);
    r.push(0x6f);
    r.push(0x73);
    r.push(0x74);
    assert(r@ =~= file_localhost());
    r
}

/// Whether the bytes start with "file://".
pub fn starts_with_file_scheme(b: &[u8]) -> (r: bool)
    ensures
        r == has_prefix(b@, file_scheme()),
{
    let scheme = file_scheme_bytes();
    has_prefix_bytes(b, scheme.as_slice())
}

/// The encoded path of a file URI: what follows "file://localhost", or else
/// what follows "file://".
pub open spec fn uri_path_bytes(uri: Seq<u8>) -> Option<Seq<u8>> {
    if has_prefix(uri, file_localhost()) {
        Some(uri.skip(file_localhost().len() as int))
    } else if has_prefix(uri, file_scheme()) {
        Some(uri.skip(file_scheme().len() as int))
    } else {
        None
    }
}

/// The path a file URI names, decoded.
pub open spec fn spec_file_uri_to_path(uri: Seq<char>) -> Option<Seq<char>> {
    match uri_path_bytes(utf8(uri)) {
        Some(rest) => Some(decode_lossy(spec_percent_decode(rest))),
        None => None,
    }
}

/// Whether the path of a file URI can be decoded (see `decodable`).
pub open spec fn uri_decodable(uri: Seq<char>) -> bool {
    match uri_path_bytes(utf8(uri)) {
        Some(rest) => decodable(rest),
        None => true,
    }
}

/// The path a file URI names; `None` for text that is no file URI.
pub fn file_uri_to_path(uri: &str) -> (r: Option<String>)
    requires
        uri_decodable(uri@),
    ensures
        opt_view(r) == spec_file_uri_to_path(uri@),
{
    let bytes = uri.as_bytes();
    let localhost = file_localhost_bytes();
    if has_prefix_bytes(bytes, localhost.as_slice()) {
        let rest = vstd::slice::slice_subrange(bytes, 16, bytes.len());
        assert(rest@ =~= bytes@.skip(16));
        return Some(decode_path_bytes(rest));
    }
    let scheme = file_scheme_bytes();
    if has_prefix_bytes(bytes, scheme.as_slice()) {
        let rest = vstd::slice::slice_subrange(bytes, 7, bytes.len());
        assert(rest@ =~= bytes@.skip(7));
        return Some(decode_path_bytes(rest));
    }
    None
}

fn bytes_decodable(b: &[u8]) -> (r: bool)
    ensures
        r == decodable(b@),
{
    if b.len() < 4 {
        return true;
    }
    let end: usize = b.len() - 3;
    let mut i: usize = 0;
    while i < end
        invariant
            end == b@.len() - 3,
            forall|j: int| 0 <= j < i && j + 3 < b@.len() && b@[j] == 0x25 ==> !is_continuation_byte(
                #[trigger] b@[j + 3],
            ),
        decreases b@.len() - i,
    {
        if b[i] == 0x25 && 0x80 <= b[i + 3] && b[i + 3] <= 0xbf {
            return false;
        }
        i = i + 1;
    }
    true
}

/// Whether the path of a file URI can be decoded (see `uri_decodable`).
pub fn uri_is_decodable(uri: &str) -> (r: bool)
    ensures
        r == uri_decodable(uri@),
{
    let bytes = uri.as_bytes();
    let localhost = file_localhost_bytes();
    if has_prefix_bytes(bytes, localhost.as_slice()) {
        let rest = vstd::slice::slice_subrange(bytes, 16, bytes.len());
        assert(rest@ =~= bytes@.skip(16));
        return bytes_decodable(rest);
    }
    let scheme = file_scheme_bytes();
    if has_prefix_bytes(bytes, scheme.as_slice()) {
        let rest = vstd::slice::slice_subrange(bytes, 7, bytes.len());
        assert(rest@ =~= bytes@.skip(7));
        return bytes_decodable(rest);
    }
    true
}

/// The bytes of "localhost".
pub open spec fn localhost_name() -> Seq<u8> {
    seq![0x6cu8, 0x6f, 0x63, 0x61, 0x6c, 0x68, 0x6f, 0x73, 0x74]
}

proof fn lemma_encode_keeps_safe_prefix(b: Seq<u8>, w: Seq<u8>)
    requires
        forall|i: int| 0 <= i < w.len() ==> is_uri_safe(#[trigger] w[i]),
        has_prefix(spec_percent_encode(b), w),
    ensures
        has_prefix(b, w),
    decreases w.len(),
{
    if w.len() > 0 {
        let e = spec_percent_encode(b);
        assert(e.take(w.len() as int)[0] == w[0]);
        if b.len() == 0 {
            assert(e.len() == 0);
        } else {
            let head = if is_uri_safe(b[0]) {
                seq![b[0]]
            } else {
                seq![0x25u8, hex_digit(b[0] / 16), hex_digit(b[0] % 16)]
            };
            let rest = spec_percent_encode(b.drop_first());
            assert(e == head + rest);
            assert(is_uri_safe(w[0]));
            assert(is_uri_safe(b[0]));
            assert(e[0] == b[0]);
            let w2 = w.drop_first();
            assert forall|i: int| 0 <= i < w2.len() implies is_uri_safe(#[trigger] w2[i]) by {
                assert(w2[i] == w[i + 1]);
            }
            assert(rest.take(w2.len() as int) =~= e.take(w.len() as int).drop_first());
            lemma_encode_keeps_safe_prefix(b.drop_first(), w2);
            assert(b.take(w.len() as int) =~= seq![b[0]] + b.drop_first().take(w2.len() as int));
            assert(w =~= seq![w[0]] + w2);
        }
    } else {
        assert(b.take(0) =~= w);
    }
}

/// A path made into a file URI reads back as the same path, unless its
/// first bytes spell "localhost": the URI then reads as one that names the
/// local host.
pub proof fn law_file_uri_roundtrip(path: Seq<char>, uri: Seq<char>)
    requires
        utf8(uri) == spec_path_to_file_uri(path),
        !has_prefix(utf8(path), localhost_name()),
    ensures
        uri_decodable(uri),
        spec_file_uri_to_path(uri) == Some(path),
{
    let b = utf8(path);
    let e = spec_percent_encode(b);
    let x = utf8(uri);
    assert(x == file_scheme() + e);
    assert forall|i: int| 0 <= i < localhost_name().len() implies is_uri_safe(
        #[trigger] localhost_name()[i],
    ) by {}
    if has_prefix(e, localhost_name()) {
        lemma_encode_keeps_safe_prefix(b, localhost_name());
    }
    if has_prefix(x, file_localhost()) {
        assert(e.take(9) =~= x.take(16).skip(7));
        assert(file_localhost().skip(7) =~= localhost_name());
        assert(false);
    }
    assert(x.take(7) =~= file_scheme());
    assert(x.skip(7) =~= e);
    law_percent_roundtrip(b);
    vstd::utf8::encode_utf8_valid_utf8(path);
    vstd::utf8::encode_utf8_decode_utf8(path);
}

/// Decoding an encoded path gives the path's bytes back.
pub proof fn law_percent_roundtrip(b: Seq<u8>)
    ensures
        spec_percent_decode(spec_percent_encode(b)) == b,
        decodable(spec_percent_encode(b)),
{
    lemma_percent_roundtrip_from(b);
    lemma_percent_encode_ascii(b);
}

proof fn lemma_decode_from_shift(prefix: Seq<u8>, rest: Seq<u8>, i: int)
    requires
        0 <= i <= rest.len(),
    ensures
        spec_percent_decode_from(prefix + rest, prefix.len() + i) == spec_percent_decode_from(
            rest,
            i,
        ),
    decreases rest.len() - i,
{
    let b = prefix + rest;
    let j = prefix.len() + i;
    if i < rest.len() {
        assert(b[j] == rest[i]);
        if i + 2 < rest.len() {
            assert(b[j + 1] == rest[i + 1]);
            assert(b[j + 2] == rest[i + 2]);
        }
        if escape_at(rest, i) {
            if i + 3 <= rest.len() {
                lemma_decode_from_shift(prefix, rest, i + 3);
            }
        } else {
            lemma_decode_from_shift(prefix, rest, i + 1);
        }
        if i + 3 > rest.len() && escape_at(rest, i) {
            assert(false);
        }
    }
}

proof fn lemma_percent_roundtrip_from(b: Seq<u8>)
    ensures
        spec_percent_decode(spec_percent_encode(b)) == b,
    decreases b.len(),
{
    if b.len() > 0 {
        let head = if is_uri_safe(b[0]) {
            seq![b[0]]
        } else {
            seq![0x25u8, hex_digit(b[0] / 16), hex_digit(b[0] % 16)]
        };
        let rest = spec_percent_encode(b.drop_first());
        let e = head + rest;
        assert(e == spec_percent_encode(b));
        lemma_percent_roundtrip_from(b.drop_first());
        lemma_decode_from_shift(head, rest, 0);
        if is_uri_safe(b[0]) {
            assert(!escape_at(e, 0));
        } else {
            assert(escape_at(e, 0));
            assert(escape_value(e[1], e[2]) == Some(b[0]));
        }
        assert(b =~= seq![b[0]] + b.drop_first());
    }
}

} // verus!
