//! The persistence adapter contract and the byte format durable component
//! state is stored in: a component serializes its durable fields under a
//! globally unique tag, and restoring the stored blob reproduces exactly
//! those fields.
//!
//! The format is a plain concatenation of fields. A `bool` is one byte, 0 or
//! 1; an optional byte is a presence byte followed by the value; an optional
//! string is a presence byte followed by an 8-byte little-endian length and
//! the string's UTF-8 bytes.

use vstd::bytes::{lemma_auto_spec_u64_to_from_le_bytes, spec_u64_from_le_bytes, spec_u64_to_le_bytes, u64_from_le_bytes, u64_to_le_bytes};
use vstd::prelude::*;
use vstd::slice::{slice_subrange, slice_to_vec};
use vstd::utf8::{decode_utf8, encode_utf8, valid_utf8};

verus! {

/// Cap on one stored blob in the shared storage namespace.
pub const MAX_BLOB_LEN: usize = 1024;

/// A string is storable when its UTF-8 length fits the 8-byte length prefix.
/// Every string a program can actually hold does.
pub open spec fn str_storable(s: Seq<char>) -> bool {
    encode_utf8(s).len() <= u64::MAX
}

/// An optional string is storable when a present value is.
pub open spec fn opt_str_storable(o: Option<Seq<char>>) -> bool {
    o is Some ==> str_storable(o->0)
}

/// Encoding of a `bool`: one byte, 0 or 1.
pub open spec fn spec_enc_bool(b: bool) -> Seq<u8> {
    seq![if b { 1u8 } else { 0u8 }]
}

/// Encoding of an optional byte: a presence byte, then the value if present.
pub open spec fn spec_enc_opt_u8(o: Option<u8>) -> Seq<u8> {
    match o {
        None => seq![0u8],
        Some(v) => seq![1u8, v],
    }
}

/// Encoding of an optional string: a presence byte, then the 8-byte
/// little-endian UTF-8 length and the UTF-8 bytes if present.
pub open spec fn spec_enc_opt_str(o: Option<Seq<char>>) -> Seq<u8> {
    match o {
        None => seq![0u8],
        Some(s) => seq![1u8] + spec_u64_to_le_bytes(encode_utf8(s).len() as u64) + encode_utf8(s),
    }
}

/// Encoding of a plain byte: itself.
pub open spec fn spec_enc_u8(v: u8) -> Seq<u8> {
    seq![v]
}

/// Decoding of a plain byte at the front of `data`.
pub open spec fn spec_dec_u8(data: Seq<u8>) -> Option<(u8, int)> {
    if data.len() < 1 {
        None
    } else {
        Some((data[0], 1))
    }
}

/// Decoding of a `bool` at the front of `data`: the value and the bytes
/// consumed, or nothing if the front is not an encoded `bool`.
pub open spec fn spec_dec_bool(data: Seq<u8>) -> Option<(bool, int)> {
    if data.len() < 1 {
        None
    } else if data[0] == 0u8 {
        Some((false, 1))
    } else if data[0] == 1u8 {
        Some((true, 1))
    } else {
        None
    }
}

/// Decoding of an optional byte at the front of `data`.
pub open spec fn spec_dec_opt_u8(data: Seq<u8>) -> Option<(Option<u8>, int)> {
    if data.len() < 1 {
        None
    } else if data[0] == 0u8 {
        Some((None, 1))
    } else if data[0] == 1u8 {
        if data.len() < 2 {
            None
        } else {
            Some((Some(data[1]), 2))
        }
    } else {
        None
    }
}

/// Decoding of an optional string at the front of `data`.
pub open spec fn spec_dec_opt_str(data: Seq<u8>) -> Option<(Option<Seq<char>>, int)> {
    if data.len() < 1 {
        None
    } else if data[0] == 0u8 {
        Some((None, 1))
    } else if data[0] == 1u8 {
        if data.len() < 9 {
            None
        } else {
            let n = spec_u64_from_le_bytes(data.subrange(1, 9)) as int;
            if data.len() < 9 + n {
                None
            } else {
                let sb = data.subrange(9, 9 + n);
                if valid_utf8(sb) {
                    Some((Some(decode_utf8(sb)), 9 + n))
                } else {
                    None
                }
            }
        }
    } else {
        None
    }
}

/// Decoding undoes encoding for a plain byte, whatever bytes follow.
pub proof fn lemma_dec_enc_u8(v: u8, rest: Seq<u8>)
    ensures
        spec_dec_u8(spec_enc_u8(v) + rest) == Some((v, 1int)),
{
    assert((spec_enc_u8(v) + rest)[0] == v);
}

/// Decoding undoes encoding for a `bool`, whatever bytes follow.
pub proof fn lemma_dec_enc_bool(b: bool, rest: Seq<u8>)
    ensures
        spec_dec_bool(spec_enc_bool(b) + rest) == Some((b, 1int)),
{
    assert((spec_enc_bool(b) + rest)[0] == spec_enc_bool(b)[0]);
}

/// Decoding undoes encoding for an optional byte, whatever bytes follow.
pub proof fn lemma_dec_enc_opt_u8(o: Option<u8>, rest: Seq<u8>)
    ensures
        spec_dec_opt_u8(spec_enc_opt_u8(o) + rest) == Some((o, spec_enc_opt_u8(o).len() as int)),
{
    let full = spec_enc_opt_u8(o) + rest;
    match o {
        None => {
            assert(full[0] == 0u8);
        },
        Some(v) => {
            assert(full[0] == 1u8);
            assert(full[1] == v);
        },
    }
}

/// Decoding undoes encoding for an optional string, whatever bytes follow.
pub proof fn lemma_dec_enc_opt_str(o: Option<Seq<char>>, rest: Seq<u8>)
    requires
        opt_str_storable(o),
    ensures
        spec_dec_opt_str(spec_enc_opt_str(o) + rest) == Some((o, spec_enc_opt_str(o).len() as int)),
{
    let full = spec_enc_opt_str(o) + rest;
    match o {
        None => {
            assert(full[0] == 0u8);
        },
        Some(s) => {
            let sb = encode_utf8(s);
            let lenb = spec_u64_to_le_bytes(sb.len() as u64);
            lemma_auto_spec_u64_to_from_le_bytes();
            assert(lenb.len() == 8);
            assert(full[0] == 1u8);
            assert(full.subrange(1, 9) =~= lenb);
            assert(spec_u64_from_le_bytes(lenb) == sb.len() as u64);
            assert(full.subrange(9, 9 + sb.len() as int) =~= sb);
            vstd::utf8::encode_utf8_valid_utf8(s);
            vstd::utf8::encode_utf8_decode_utf8(s);
        },
    }
}

/// Appends a plain byte to `out`.
pub fn write_u8(out: &mut Vec<u8>, v: u8)
    ensures
        final(out)@ == old(out)@ + spec_enc_u8(v),
{
    out.push(v);
    proof {
        assert(out@ =~= old(out)@ + spec_enc_u8(v));
    }
}

/// Appends the encoding of a `bool` to `out`.
pub fn write_bool(out: &mut Vec<u8>, b: bool)
    ensures
        final(out)@ == old(out)@ + spec_enc_bool(b),
{
    out.push(if b { 1u8 } else { 0u8 });
    proof {
        assert(out@ =~= old(out)@ + spec_enc_bool(b));
    }
}

/// Appends the encoding of an optional byte to `out`.
pub fn write_opt_u8(out: &mut Vec<u8>, o: &Option<u8>)
    ensures
        final(out)@ == old(out)@ + spec_enc_opt_u8(*o),
{
    match o {
        None => {
            out.push(0u8);
        },
        Some(v) => {
            out.push(1u8);
            out.push(*v);
        },
    }
    proof {
        assert(out@ =~= old(out)@ + spec_enc_opt_u8(*o));
    }
}

/// Appends the encoding of an optional string to `out`.
pub fn write_opt_str(out: &mut Vec<u8>, o: &Option<String>)
    ensures
        final(out)@ == old(out)@ + spec_enc_opt_str(o.deep_view()),
        opt_str_storable(o.deep_view()),
{
    match o {
        None => {
            out.push(0u8);
        },
        Some(s) => {
            out.push(1u8);
            let sb: Vec<u8> = s.as_str().as_bytes_vec();
            let mut lenb: Vec<u8> = u64_to_le_bytes(sb.len() as u64);
            out.append(&mut lenb);
            out.extend_from_slice(sb.as_slice());
        },
    }
    proof {
        assert(out@ =~= old(out)@ + spec_enc_opt_str(o.deep_view()));
    }
}

/// Relies on `String::from_utf8`: it accepts exactly the byte sequences that
/// are valid UTF-8 and returns the string those bytes encode.
#[verifier::external_body]
fn string_from_utf8(v: Vec<u8>) -> (r: Option<String>)
    ensures
        r is Some <==> valid_utf8(v@),
        r is Some ==> r->0@ == decode_utf8(v@),
{
    String::from_utf8(v).ok()
}

/// Reads an encoded `bool` at offset `pos` of `data`; returns the value and
/// the offset after it.
pub fn read_bool(data: &[u8], pos: usize) -> (r: Option<(bool, usize)>)
    requires
        pos <= data@.len(),
    ensures
        match spec_dec_bool(data@.skip(pos as int)) {
            Some(v) => r is Some && (r->0).0 == v.0 && (r->0).1 == pos + v.1,
            None => r is None,
        },
{
    proof {
        assert(data@.skip(pos as int).len() == data@.len() - pos);
    }
    if pos >= data.len() {
        return None;
    }
    proof {
        assert(data@.skip(pos as int)[0] == data@[pos as int]);
    }
    let b = data[pos];
    if b == 0 {
        Some((false, pos + 1))
    } else if b == 1 {
        Some((true, pos + 1))
    } else {
        None
    }
}

/// Reads an encoded optional byte at offset `pos` of `data`.
pub fn read_opt_u8(data: &[u8], pos: usize) -> (r: Option<(Option<u8>, usize)>)
    requires
        pos <= data@.len(),
    ensures
        match spec_dec_opt_u8(data@.skip(pos as int)) {
            Some(v) => r is Some && (r->0).0 == v.0 && (r->0).1 == pos + v.1,
            None => r is None,
        },
{
    proof {
        assert(data@.skip(pos as int).len() == data@.len() - pos);
    }
    if pos >= data.len() {
        return None;
    }
    proof {
        assert(data@.skip(pos as int)[0] == data@[pos as int]);
    }
    let b = data[pos];
    if b == 0 {
        Some((None, pos + 1))
    } else if b == 1 {
        if pos + 1 >= data.len() {
            return None;
        }
        proof {
            assert(data@.skip(pos as int)[1] == data@[pos as int + 1]);
        }
        Some((Some(data[pos + 1]), pos + 2))
    } else {
        None
    }
}

/// Reads an encoded optional string at offset `pos` of `data`.
pub fn read_opt_str(data: &[u8], pos: usize) -> (r: Option<(Option<String>, usize)>)
    requires
        pos <= data@.len(),
    ensures
        match spec_dec_opt_str(data@.skip(pos as int)) {
            Some(v) => r is Some && (r->0).0.deep_view() == v.0 && (r->0).1 == pos + v.1,
            None => r is None,
        },
{
    let ghost tail = data@.skip(pos as int);
    proof {
        assert(tail.len() == data@.len() - pos);
    }
    if pos >= data.len() {
        return None;
    }
    proof {
        assert(tail[0] == data@[pos as int]);
    }
    let b = data[pos];
    if b == 0 {
        Some((None, pos + 1))
    } else if b == 1 {
        if data.len() - pos < 9 {
            return None;
        }
        let lenb: &[u8] = slice_subrange(data, pos + 1, pos + 9);
        proof {
            assert(lenb@ =~= tail.subrange(1, 9));
        }
        let n64: u64 = u64_from_le_bytes(lenb);
        let remaining: usize = data.len() - pos - 9;
        if n64 > remaining as u64 {
            proof {
                assert(tail.len() < 9 + n64 as int);
            }
            return None;
        }
        let n: usize = n64 as usize;
        let sb: &[u8] = slice_subrange(data, pos + 9, pos + 9 + n);
        proof {
            assert(sb@ =~= tail.subrange(9, 9 + n as int));
        }
        let sv: Vec<u8> = slice_to_vec(sb);
        match string_from_utf8(sv) {
            Some(s) => Some((Some(s), pos + 9 + n)),
            None => None,
        }
    } else {
        None
    }
}

/// Reads a plain byte at offset `pos` of `data`.
pub fn read_u8(data: &[u8], pos: usize) -> (r: Option<(u8, usize)>)
    requires
        pos <= data@.len(),
    ensures
        match spec_dec_u8(data@.skip(pos as int)) {
            Some(v) => r is Some && (r->0).0 == v.0 && (r->0).1 == pos + v.1,
            None => r is None,
        },
{
    proof {
        assert(data@.skip(pos as int).len() == data@.len() - pos);
    }
    if pos >= data.len() {
        return None;
    }
    proof {
        assert(data@.skip(pos as int)[0] == data@[pos as int]);
    }
    Some((data[pos], pos + 1))
}

/// The stored image of a credential pair: two optional strings, the
/// identity first, the secret second.
pub open spec fn spec_enc_str_pair(a: Option<Seq<char>>, b: Option<Seq<char>>) -> Seq<u8> {
    spec_enc_opt_str(a) + spec_enc_opt_str(b)
}

/// The credential pair a blob decodes to, if it is a stored image.
pub open spec fn spec_dec_str_pair(data: Seq<u8>) -> Option<(Option<Seq<char>>, Option<Seq<char>>)> {
    match spec_dec_opt_str(data) {
        None => None,
        Some((a, p1)) => match spec_dec_opt_str(data.skip(p1)) {
            None => None,
            Some((b, p2)) => if p1 + p2 == data.len() {
                Some((a, b))
            } else {
                None
            },
        },
    }
}

/// Decoding a stored credential pair reproduces the pair it was made from.
pub proof fn lemma_str_pair_round_trip(a: Option<Seq<char>>, b: Option<Seq<char>>)
    requires
        opt_str_storable(a),
        opt_str_storable(b),
    ensures
        spec_dec_str_pair(spec_enc_str_pair(a, b)) == Some((a, b)),
{
    let ea = spec_enc_opt_str(a);
    let eb = spec_enc_opt_str(b);
    let full = spec_enc_str_pair(a, b);
    lemma_dec_enc_opt_str(a, eb);
    assert(full.skip(ea.len() as int) =~= eb + Seq::<u8>::empty());
    lemma_dec_enc_opt_str(b, Seq::<u8>::empty());
}

/// Parses a stored image of a credential pair.
pub fn decode_str_pair(data: &[u8]) -> (r: Option<(Option<String>, Option<String>)>)
    ensures
        match spec_dec_str_pair(data@) {
            Some(v) => r is Some && (r->0).0.deep_view() == v.0 && (r->0).1.deep_view() == v.1,
            None => r is None,
        },
{
    proof {
        assert(data@.skip(0) =~= data@);
    }
    let Some((a, p1)) = read_opt_str(data, 0) else { return None };
    let Some((b, p2)) = read_opt_str(data, p1) else { return None };
    if p2 != data.len() {
        return None;
    }
    Some((a, b))
}

/// The capability of a component that survives a restart: it serializes its
/// durable fields under a fixed, globally unique tag, and restoring a stored
/// blob reproduces exactly those fields. Restoration happens at most once,
/// at startup, before the component is exposed to the broker or the
/// coordinator; a component with no stored blob keeps its compiled-in
/// default.
pub trait Storable: Sized {
    /// The byte blob the component's durable fields serialize to.
    spec fn spec_store_data(&self) -> Seq<u8>;

    /// Whether the durable fields fit the storage format (every string's
    /// UTF-8 length fits the length prefix; always true of values a program
    /// can hold).
    spec fn spec_storable(&self) -> bool;

    /// Whether two component values agree on every durable field.
    spec fn same_durable(&self, other: &Self) -> bool;

    /// The component's fixed storage tag, as the characters it consists of.
    spec fn spec_store_tag(&self) -> Seq<char>;

    /// The component's fixed storage tag.
    fn store_tag(&self) -> (t: &'static str)
        ensures
            t@ == self.spec_store_tag(),
    ;

    /// Serializes the durable fields.
    fn store_data(&self) -> (d: Vec<u8>)
        ensures
            d@ == self.spec_store_data(),
            self.spec_storable(),
    ;

    /// Restores the durable fields from a stored blob: any component value
    /// whose serialization is `data` agrees with the restored state on every
    /// durable field. Reports whether the blob was recognised; an
    /// unrecognised blob leaves the component on its current state.
    fn recall_data(&mut self, data: &[u8]) -> (ok: bool)
        ensures
            forall|x: Self|
                x.spec_storable() && data@ == #[trigger] x.spec_store_data()
                    ==> final(self).same_durable(&x),
            !ok ==> *final(self) == *old(self),
    ;
}

} // verus!
