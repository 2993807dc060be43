//! The binary wire layer of the command envelope: base-128 varints and
//! tagged fields, the two building blocks every command message and the
//! type-tagged envelope are made of.
//!
//! Encoding is specified by [`spec_varint`] and [`spec_enc_fields`];
//! decoding by [`spec_dec_varint`] and [`spec_dec_fields`].  The central
//! fact, proved in [`lemma_fields_round_trip`], is that decoding inverts
//! encoding for every well-formed field list.

use vstd::prelude::*;

verus! {

// ---------------------------------------------------------------------------
// varints
// ---------------------------------------------------------------------------

/// Little-endian base-128 encoding: seven value bits per byte, high bit set
/// on every byte but the last.
pub open spec fn spec_varint(n: u64) -> Seq<u8>
    decreases n,
{
    if n < 128 {
        seq![n as u8]
    } else {
        seq![(n % 128 + 128) as u8] + spec_varint(n / 128)
    }
}

/// Reads one varint off the front of `s`; returns the value and the rest.
/// `None` on an empty or truncated input, or when the value overflows 64 bits.
pub open spec fn spec_dec_varint(s: Seq<u8>) -> Option<(u64, Seq<u8>)>
    decreases s.len(),
{
    if s.len() == 0 {
        None
    } else if s[0] < 128 {
        Some((s[0] as u64, s.drop_first()))
    } else {
        match spec_dec_varint(s.drop_first()) {
            None => None,
            Some((hi, rest)) => {
                let v: int = hi * 128 + (s[0] - 128);
                if v <= u64::MAX {
                    Some((v as u64, rest))
                } else {
                    None
                }
            },
        }
    }
}

/// What `spec_dec_varint` hands back is a strict suffix of its input.
pub proof fn lemma_dec_varint_suffix(s: Seq<u8>)
    ensures
        match spec_dec_varint(s) {
            Some((_, rest)) => rest.len() < s.len() && rest =~= s.skip(s.len() - rest.len()),
            None => true,
        },
    decreases s.len(),
{
    if s.len() != 0 && s[0] >= 128 {
        lemma_dec_varint_suffix(s.drop_first());
        if let Some((_, rest)) = spec_dec_varint(s.drop_first()) {
            assert(s.drop_first() =~= s.skip(1));
            assert(s.skip(1).skip(s.skip(1).len() - rest.len()) =~= s.skip(s.len() - rest.len()));
        }
    }
}

/// Decoding inverts encoding, whatever follows the varint.
pub proof fn lemma_varint_round_trip(n: u64, rest: Seq<u8>)
    ensures
        spec_dec_varint(spec_varint(n) + rest) == Some((n, rest)),
    decreases n,
{
    if n < 128 {
        assert((seq![n as u8] + rest).drop_first() =~= rest);
        assert(spec_varint(n) + rest =~= seq![n as u8] + rest);
    } else {
        let b: u8 = (n % 128 + 128) as u8;
        lemma_varint_round_trip(n / 128, rest);
        assert((spec_varint(n) + rest).drop_first() =~= spec_varint(n / 128) + rest);
        assert(n / 128 * 128 + (b - 128) == n) by {
            assert(n / 128 * 128 + n % 128 == n);
        }
    }
}

/// Appends the varint encoding of `n` to `out`.
pub fn encode_varint(out: &mut Vec<u8>, n: u64)
    ensures
        final(out)@ == old(out)@ + spec_varint(n),
{
    let mut m: u64 = n;
    while m >= 128
        invariant
            old(out)@ + spec_varint(n) =~= out@ + spec_varint(m),
        decreases m,
    {
        let ghost pre = out@;
        out.push((m % 128 + 128) as u8);
        assert(pre + spec_varint(m) =~= out@ + spec_varint(m / 128));
        m = m / 128;
    }
    out.push(m as u8);
    assert(spec_varint(m) =~= seq![m as u8]);
}

/// Reads one varint from `s` starting at `i`; returns the value and the
/// index just past it.  Mirrors [`spec_dec_varint`] on the suffix at `i`.
pub fn decode_varint(s: &[u8], i: usize) -> (r: Option<(u64, usize)>)
    requires
        i <= s.len(),
    ensures
        match r {
            Some((v, j)) => i < j <= s@.len() && spec_dec_varint(s@.skip(i as int)) == Some(
                (v, s@.skip(j as int)),
            ),
            None => spec_dec_varint(s@.skip(i as int)) is None,
        },
    decreases s.len() - i,
{
    let ghost suf = s@.skip(i as int);
    if i == s.len() {
        None
    } else {
        let b = s[i];
        assert(suf[0] == s@[i as int]);
        assert(suf.drop_first() =~= s@.skip(i as int + 1));
        if b < 128 {
            Some((b as u64, i + 1))
        } else {
            match decode_varint(s, i + 1) {
                None => None,
                Some((hi, j)) => {
                    let low: u64 = (b - 128) as u64;
                    if hi <= (u64::MAX - low) / 128 {
                        Some((hi * 128 + low, j))
                    } else {
                        assert(hi * 128 + low > u64::MAX) by {
                            assert(hi >= (u64::MAX - low) / 128 + 1);
                        }
                        None
                    }
                },
            }
        }
    }
}

// ---------------------------------------------------------------------------
// fields
// ---------------------------------------------------------------------------

/// A protobuf field value.  The messages of the Flight SQL protocol only
/// carry varints and length-delimited byte strings; the two fixed-width
/// shapes are parsed as raw bytes so that a field number this client does
/// not know can be skipped whatever its shape, as the wire format asks.
pub enum FieldData {
    Int(u64),
    Bytes(Vec<u8>),
    Fixed64(Vec<u8>),
    Fixed32(Vec<u8>),
}

/// The mathematical shadow of [`FieldData`].
pub enum SpecField {
    Int(u64),
    Bytes(Seq<u8>),
    Fixed64(Seq<u8>),
    Fixed32(Seq<u8>),
}

impl View for FieldData {
    type V = SpecField;

    open spec fn view(&self) -> SpecField {
        match self {
            FieldData::Int(v) => SpecField::Int(*v),
            FieldData::Bytes(b) => SpecField::Bytes(b@),
            FieldData::Fixed64(b) => SpecField::Fixed64(b@),
            FieldData::Fixed32(b) => SpecField::Fixed32(b@),
        }
    }
}

/// A field a message of this protocol may carry on encode: its number
/// must fit the single-key format and a byte string must be encodable
/// with a 64-bit length.  The fixed-width shapes exist only so a decoder
/// can step over fields it does not know; no message here encodes one.
pub open spec fn field_valid(f: (u64, SpecField)) -> bool {
    &&& 1 <= f.0 <= 0x1000_0000
    &&& match f.1 {
        SpecField::Int(_) => true,
        SpecField::Bytes(b) => b.len() <= u64::MAX,
        SpecField::Fixed64(_) => false,
        SpecField::Fixed32(_) => false,
    }
}

/// The key byte(s) of a field: number and wire type packed in one varint.
pub open spec fn spec_field_key(tag: u64, wire: u64) -> Seq<u8> {
    spec_varint((tag * 8 + wire) as u64)
}

/// One encoded field.
pub open spec fn spec_enc_field(f: (u64, SpecField)) -> Seq<u8> {
    match f.1 {
        SpecField::Int(v) => spec_field_key(f.0, 0) + spec_varint(v),
        SpecField::Bytes(b) => spec_field_key(f.0, 2) + spec_varint(b.len() as u64) + b,
        SpecField::Fixed64(b) => spec_field_key(f.0, 1) + b,
        SpecField::Fixed32(b) => spec_field_key(f.0, 5) + b,
    }
}

/// An encoded field list: the concatenation of its fields, in order.
pub open spec fn spec_enc_fields(fs: Seq<(u64, SpecField)>) -> Seq<u8>
    decreases fs.len(),
{
    if fs.len() == 0 {
        Seq::empty()
    } else {
        spec_enc_field(fs[0]) + spec_enc_fields(fs.drop_first())
    }
}

/// Parses a whole buffer as a field list.  `None` on a truncated field,
/// a group wire type (which this protocol's proto3 messages never carry),
/// or a field number of zero: a message holding any of those is
/// malformed.  Fixed-width fields are carried as their raw bytes.
pub open spec fn spec_dec_fields(s: Seq<u8>) -> Option<Seq<(u64, SpecField)>>
    decreases s.len(),
    via spec_dec_fields_decreases
{
    if s.len() == 0 {
        Some(Seq::empty())
    } else {
        match spec_dec_varint(s) {
            None => None,
            Some((key, r1)) => {
                let tag = key / 8;
                let wire = key % 8;
                if tag == 0 {
                    None
                } else if wire == 0 {
                    match spec_dec_varint(r1) {
                        None => None,
                        Some((v, r2)) => match spec_dec_fields(r2) {
                            None => None,
                            Some(fs) => Some(seq![(tag, SpecField::Int(v))] + fs),
                        },
                    }
                } else if wire == 2 {
                    match spec_dec_varint(r1) {
                        None => None,
                        Some((len, r2)) => {
                            if len <= r2.len() {
                                match spec_dec_fields(r2.skip(len as int)) {
                                    None => None,
                                    Some(fs) => Some(
                                        seq![(tag, SpecField::Bytes(r2.take(len as int)))] + fs,
                                    ),
                                }
                            } else {
                                None
                            }
                        },
                    }
                } else if wire == 1 {
                    if r1.len() >= 8 {
                        match spec_dec_fields(r1.skip(8)) {
                            None => None,
                            Some(fs) => Some(seq![(tag, SpecField::Fixed64(r1.take(8)))] + fs),
                        }
                    } else {
                        None
                    }
                } else if wire == 5 {
                    if r1.len() >= 4 {
                        match spec_dec_fields(r1.skip(4)) {
                            None => None,
                            Some(fs) => Some(seq![(tag, SpecField::Fixed32(r1.take(4)))] + fs),
                        }
                    } else {
                        None
                    }
                } else {
                    None
                }
            },
        }
    }
}

#[via_fn]
proof fn spec_dec_fields_decreases(s: Seq<u8>) {
    lemma_dec_varint_suffix(s);
    if let Some((_, r1)) = spec_dec_varint(s) {
        lemma_dec_varint_suffix(r1);
    }
}

/// Decoding one varint field off the front of a buffer.
proof fn lemma_dec_int_field(tag: u64, v: u64, rest: Seq<u8>)
    requires
        1 <= tag <= 0x1000_0000,
    ensures
        spec_dec_fields(spec_enc_field((tag, SpecField::Int(v))) + rest) == match spec_dec_fields(
            rest,
        ) {
            Some(fs) => Some(seq![(tag, SpecField::Int(v))] + fs),
            None => None::<Seq<(u64, SpecField)>>,
        },
{
    let key: u64 = (tag * 8) as u64;
    let whole = spec_enc_field((tag, SpecField::Int(v))) + rest;
    lemma_varint_round_trip(key, spec_varint(v) + rest);
    lemma_varint_round_trip(v, rest);
    assert(whole =~= spec_varint(key) + (spec_varint(v) + rest));
    assert(spec_dec_varint(whole) == Some((key, spec_varint(v) + rest)));
    assert(whole.len() != 0) by {
        reveal_with_fuel(spec_dec_varint, 1);
    }
    assert(key / 8 == tag && key % 8 == 0);
}

/// Decoding one length-delimited field off the front of a buffer.
proof fn lemma_dec_bytes_field(tag: u64, b: Seq<u8>, rest: Seq<u8>)
    requires
        1 <= tag <= 0x1000_0000,
        b.len() <= u64::MAX,
    ensures
        spec_dec_fields(spec_enc_field((tag, SpecField::Bytes(b))) + rest) == match spec_dec_fields(
            rest,
        ) {
            Some(fs) => Some(seq![(tag, SpecField::Bytes(b))] + fs),
            None => None::<Seq<(u64, SpecField)>>,
        },
{
    let key: u64 = (tag * 8 + 2) as u64;
    let len: u64 = b.len() as u64;
    let whole = spec_enc_field((tag, SpecField::Bytes(b))) + rest;
    lemma_varint_round_trip(key, spec_varint(len) + (b + rest));
    lemma_varint_round_trip(len, b + rest);
    assert(whole =~= spec_varint(key) + (spec_varint(len) + (b + rest)));
    assert(spec_dec_varint(whole) == Some((key, spec_varint(len) + (b + rest))));
    assert(whole.len() != 0) by {
        reveal_with_fuel(spec_dec_varint, 1);
    }
    assert(key / 8 == tag && key % 8 == 2);
    let r2 = b + rest;
    assert(len <= r2.len());
    assert(r2.take(len as int) =~= b);
    assert(r2.skip(len as int) =~= rest);
}

/// Decoding a field list inverts encoding it.
pub proof fn lemma_fields_round_trip(fs: Seq<(u64, SpecField)>)
    requires
        forall|i: int| 0 <= i < fs.len() ==> field_valid(#[trigger] fs[i]),
    ensures
        spec_dec_fields(spec_enc_fields(fs)) == Some(fs),
    decreases fs.len(),
{
    if fs.len() == 0 {
        assert(spec_enc_fields(fs) =~= Seq::<u8>::empty());
    } else {
        let f = fs[0];
        let tail = fs.drop_first();
        lemma_fields_round_trip(tail);
        let enc_tail = spec_enc_fields(tail);
        assert(field_valid(f));
        match f.1 {
            SpecField::Int(v) => {
                lemma_dec_int_field(f.0, v, enc_tail);
                assert(seq![(f.0, SpecField::Int(v))] + tail =~= fs);
            },
            SpecField::Bytes(b) => {
                lemma_dec_bytes_field(f.0, b, enc_tail);
                assert(seq![(f.0, SpecField::Bytes(b))] + tail =~= fs);
            },
            SpecField::Fixed64(_) => {
                assert(false);
            },
            SpecField::Fixed32(_) => {
                assert(false);
            },
        }
    }
}

/// Appends every byte of `data` to `out`.
pub fn push_bytes(out: &mut Vec<u8>, data: &[u8])
    ensures
        final(out)@ == old(out)@ + data@,
{
    let mut k: usize = 0;
    while k < data.len()
        invariant
            k <= data@.len(),
            out@ =~= old(out)@ + data@.take(k as int),
        decreases data@.len() - k,
    {
        out.push(data[k]);
        assert(out@ =~= old(out)@ + data@.take(k as int + 1));
        k = k + 1;
    }
    assert(data@.take(data@.len() as int) =~= data@);
}

/// Appends one varint-valued field.
pub fn encode_int_field(out: &mut Vec<u8>, tag: u64, v: u64)
    requires
        1 <= tag <= 0x1000_0000,
    ensures
        final(out)@ == old(out)@ + spec_enc_field((tag, SpecField::Int(v))),
{
    encode_varint(out, tag * 8);
    encode_varint(out, v);
}

/// Appends one length-delimited field.
pub fn encode_bytes_field(out: &mut Vec<u8>, tag: u64, data: &[u8])
    requires
        1 <= tag <= 0x1000_0000,
    ensures
        final(out)@ == old(out)@ + spec_enc_field((tag, SpecField::Bytes(data@))),
{
    encode_varint(out, tag * 8 + 2);
    encode_varint(out, data.len() as u64);
    push_bytes(out, data);
}

/// Copies `s[from..to]` into a fresh vector.
pub fn bytes_of_range(s: &[u8], from: usize, to: usize) -> (r: Vec<u8>)
    requires
        from <= to <= s.len(),
    ensures
        r@ == s@.subrange(from as int, to as int),
{
    let mut r: Vec<u8> = Vec::new();
    let mut k: usize = from;
    while k < to
        invariant
            from <= k <= to <= s@.len(),
            r@ =~= s@.subrange(from as int, k as int),
        decreases to - k,
    {
        r.push(s[k]);
        assert(r@ =~= s@.subrange(from as int, k as int + 1));
        k = k + 1;
    }
    r
}

/// The view of a parsed field vector.
pub open spec fn fields_view(v: Seq<(u64, FieldData)>) -> Seq<(u64, SpecField)> {
    v.map_values(|p: (u64, FieldData)| (p.0, p.1@))
}

/// Parses a whole buffer as a field list; mirrors [`spec_dec_fields`].
#[verifier::rlimit(80)]
pub fn parse_fields(s: &[u8]) -> (r: Option<Vec<(u64, FieldData)>>)
    ensures
        match r {
            Some(v) => spec_dec_fields(s@) == Some(fields_view(v@)),
            None => spec_dec_fields(s@) is None,
        },
{
    let mut acc: Vec<(u64, FieldData)> = Vec::new();
    let mut i: usize = 0;
    proof {
        assert(s@.skip(0) =~= s@);
        if let Some(fs) = spec_dec_fields(s@) {
            assert(fields_view(acc@) + fs =~= fs);
        }
    }
    loop
        invariant
            i <= s@.len(),
            spec_dec_fields(s@) == match spec_dec_fields(s@.skip(i as int)) {
                Some(fs) => Some(fields_view(acc@) + fs),
                None => None::<Seq<(u64, SpecField)>>,
            },
        decreases s@.len() - i,
    {
        let ghost suf = s@.skip(i as int);
        if i == s.len() {
            assert(fields_view(acc@) + Seq::<(u64, SpecField)>::empty() =~= fields_view(acc@));
            return Some(acc);
        }
        let (key, j) = match decode_varint(s, i) {
            None => {
                return None;
            },
            Some(kj) => kj,
        };
        let tag = key / 8;
        let wire = key % 8;
        if tag == 0 {
            return None;
        } else if wire == 0 {
            let (v, j2) = match decode_varint(s, j) {
                None => {
                    return None;
                },
                Some(vj) => vj,
            };
            let ghost pre = acc@;
            acc.push((tag, FieldData::Int(v)));
            proof {
                assert(fields_view(acc@) =~= fields_view(pre) + seq![(tag, SpecField::Int(v))]);
                if let Some(fs) = spec_dec_fields(s@.skip(j2 as int)) {
                    assert(spec_dec_fields(suf) == Some(seq![(tag, SpecField::Int(v))] + fs));
                    assert(fields_view(pre) + (seq![(tag, SpecField::Int(v))] + fs) =~= fields_view(
                        acc@,
                    ) + fs);
                }
            }
            i = j2;
        } else if wire == 2 {
            let (len, j2) = match decode_varint(s, j) {
                None => {
                    return None;
                },
                Some(vj) => vj,
            };
            if len > (s.len() - j2) as u64 {
                return None;
            }
            let end = j2 + len as usize;
            let data = bytes_of_range(s, j2, end);
            let ghost r2 = s@.skip(j2 as int);
            proof {
                assert(r2.take(len as int) =~= s@.subrange(j2 as int, end as int));
                assert(r2.skip(len as int) =~= s@.skip(end as int));
            }
            let ghost pre = acc@;
            acc.push((tag, FieldData::Bytes(data)));
            proof {
                assert(fields_view(acc@) =~= fields_view(pre) + seq![
                    (tag, SpecField::Bytes(data@)),
                ]);
                if let Some(fs) = spec_dec_fields(s@.skip(end as int)) {
                    assert(spec_dec_fields(suf) == Some(seq![(tag, SpecField::Bytes(data@))] + fs));
                    assert(fields_view(pre) + (seq![(tag, SpecField::Bytes(data@))] + fs)
                        =~= fields_view(acc@) + fs);
                }
            }
            i = end;
        } else if wire == 1 {
            if s.len() - j < 8 {
                return None;
            }
            let end = j + 8;
            let data = bytes_of_range(s, j, end);
            let ghost r1 = s@.skip(j as int);
            proof {
                assert(r1.take(8) =~= s@.subrange(j as int, end as int));
                assert(r1.skip(8) =~= s@.skip(end as int));
            }
            let ghost pre = acc@;
            acc.push((tag, FieldData::Fixed64(data)));
            proof {
                assert(fields_view(acc@) =~= fields_view(pre) + seq![
                    (tag, SpecField::Fixed64(data@)),
                ]);
                if let Some(fs) = spec_dec_fields(s@.skip(end as int)) {
                    assert(spec_dec_fields(suf) == Some(
                        seq![(tag, SpecField::Fixed64(data@))] + fs,
                    ));
                    assert(fields_view(pre) + (seq![(tag, SpecField::Fixed64(data@))] + fs)
                        =~= fields_view(acc@) + fs);
                }
            }
            i = end;
        } else if wire == 5 {
            if s.len() - j < 4 {
                return None;
            }
            let end = j + 4;
            let data = bytes_of_range(s, j, end);
            let ghost r1 = s@.skip(j as int);
            proof {
                assert(r1.take(4) =~= s@.subrange(j as int, end as int));
                assert(r1.skip(4) =~= s@.skip(end as int));
            }
            let ghost pre = acc@;
            acc.push((tag, FieldData::Fixed32(data)));
            proof {
                assert(fields_view(acc@) =~= fields_view(pre) + seq![
                    (tag, SpecField::Fixed32(data@)),
                ]);
                if let Some(fs) = spec_dec_fields(s@.skip(end as int)) {
                    assert(spec_dec_fields(suf) == Some(
                        seq![(tag, SpecField::Fixed32(data@))] + fs,
                    ));
                    assert(fields_view(pre) + (seq![(tag, SpecField::Fixed32(data@))] + fs)
                        =~= fields_view(acc@) + fs);
                }
            }
            i = end;
        } else {
            return None;
        }
    }
}

/// Whether two byte strings hold the same bytes.
pub fn bytes_eq(a: &[u8], b: &[u8]) -> (r: bool)
    ensures
        r <==> a@ == b@,
{
    if a.len() != b.len() {
        assert(a@.len() != b@.len());
        return false;
    }
    let mut k: usize = 0;
    while k < a.len()
        invariant
            k <= a@.len(),
            a@.len() == b@.len(),
            forall|i: int| 0 <= i < k ==> a@[i] == b@[i],
        decreases a@.len() - k,
    {
        if a[k] != b[k] {
            return false;
        }
        k = k + 1;
    }
    proof {
        assert(a@ =~= b@);
    }
    true
}

} // verus!
