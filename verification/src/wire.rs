//! The wire encoding shared by the registration RPC surface and the
//! heartbeat protocol: base-128 variable-length integers, tagged fields,
//! and the 4-byte big-endian length prefix that frames every message.

use vstd::prelude::*;

verus! {

/// 128 raised to `k`; bounds the value a `k`-byte varint can carry.
pub open spec fn pow128(k: nat) -> nat
    decreases k,
{
    if k == 0 {
        1
    } else {
        128 * pow128((k - 1) as nat)
    }
}

/// The base-128 little-endian encoding of `n`: seven value bits per byte,
/// the high bit set on every byte but the last.
pub open spec fn varint_enc(n: nat) -> Seq<u8>
    decreases n,
{
    if n < 128 {
        seq![n as u8]
    } else {
        seq![(128 + n % 128) as u8] + varint_enc(n / 128)
    }
}

/// Decodes one varint of at most `k` bytes from the front of `s`,
/// yielding the value and the remaining bytes.
pub open spec fn dec_varint(s: Seq<u8>, k: nat) -> Option<(nat, Seq<u8>)>
    decreases k,
{
    if k == 0 || s.len() == 0 {
        None
    } else if s[0] < 128 {
        Some((s[0] as nat, s.skip(1)))
    } else {
        match dec_varint(s.skip(1), (k - 1) as nat) {
            None => None,
            Some((m, r)) => Some((((s[0] - 128) + 128 * m) as nat, r)),
        }
    }
}

/// At most ten bytes encode a `u64`.
pub const MAX_VARINT_BYTES: usize = 10;

/// Decodes one varint from the front of `s` as this codec reads it:
/// at most ten bytes, and a value that fits in a `u64`.
pub open spec fn dec_u64(s: Seq<u8>) -> Option<(u64, Seq<u8>)> {
    match dec_varint(s, MAX_VARINT_BYTES as nat) {
        None => None,
        Some((v, r)) => if v <= u64::MAX {
            Some((v as u64, r))
        } else {
            None
        },
    }
}

/// A value below `pow128(k)` encodes in at most `k` bytes.
pub proof fn lemma_varint_enc_len(n: nat, k: nat)
    requires
        k >= 1,
        n < pow128(k),
    ensures
        1 <= varint_enc(n).len() <= k,
    decreases n,
{
    if n >= 128 {
        assert(pow128(k) == 128 * pow128((k - 1) as nat));
        lemma_varint_enc_len(n / 128, (k - 1) as nat);
    }
}

/// A decoded value is below `pow128(k)`, and the rest is strictly shorter.
pub proof fn lemma_dec_varint_bound(s: Seq<u8>, k: nat)
    ensures
        match dec_varint(s, k) {
            None => true,
            Some((v, r)) => v < pow128(k) && r.len() < s.len(),
        },
    decreases k,
{
    if k > 0 && s.len() > 0 {
        let p = pow128((k - 1) as nat);
        assert(pow128(k) == 128 * p);
        lemma_pow128_pos((k - 1) as nat);
        if s[0] >= 128 {
            lemma_dec_varint_bound(s.skip(1), (k - 1) as nat);
            match dec_varint(s.skip(1), (k - 1) as nat) {
                None => {},
                Some((m, r)) => {
                    assert(128 * m <= 128 * p - 128) by (nonlinear_arith)
                        requires
                            m < p,
                    ;
                },
            }
        }
    }
}

/// `pow128` is never zero.
proof fn lemma_pow128_pos(k: nat)
    ensures
        pow128(k) >= 1,
    decreases k,
{
    if k > 0 {
        lemma_pow128_pos((k - 1) as nat);
    }
}

/// Decoding undoes encoding: the varint of `n` followed by anything
/// decodes to `n` with that remainder, as long as `k` bytes suffice.
pub proof fn lemma_dec_enc_varint(n: nat, rest: Seq<u8>, k: nat)
    requires
        k >= 1,
        n < pow128(k),
    ensures
        dec_varint(varint_enc(n) + rest, k) == Some((n, rest)),
    decreases n,
{
    let s = varint_enc(n) + rest;
    if n < 128 {
        assert(s[0] == n as u8);
        assert(s.skip(1) =~= rest);
    } else {
        assert(pow128(k) == 128 * pow128((k - 1) as nat));
        lemma_dec_enc_varint(n / 128, rest, (k - 1) as nat);
        assert(s[0] == (128 + n % 128) as u8);
        assert(s.skip(1) =~= varint_enc(n / 128) + rest);
        assert((s[0] - 128) + 128 * (n / 128) == n);
    }
}

/// `pow128(10)` exceeds every `u64`, so ten bytes always suffice.
pub proof fn lemma_u64_fits_ten_bytes()
    ensures
        u64::MAX < pow128(MAX_VARINT_BYTES as nat),
{
    reveal_with_fuel(pow128, 11);
}

/// Decoding undoes encoding at the `u64` level.
pub proof fn lemma_dec_enc_u64(n: u64, rest: Seq<u8>)
    ensures
        dec_u64(varint_enc(n as nat) + rest) == Some((n, rest)),
{
    lemma_u64_fits_ten_bytes();
    lemma_dec_enc_varint(n as nat, rest, MAX_VARINT_BYTES as nat);
}

/// Appends the varint encoding of `n` to `out`.
pub fn write_varint(out: &mut Vec<u8>, n: u64)
    ensures
        final(out)@ == old(out)@ + varint_enc(n as nat),
    decreases n,
{
    if n < 128 {
        out.push(n as u8);
        assert(out@ =~= old(out)@ + varint_enc(n as nat));
    } else {
        let b: u8 = (128 + n % 128) as u8;
        out.push(b);
        write_varint(out, n / 128);
        assert(out@ =~= old(out)@ + varint_enc(n as nat));
    }
}

/// Reads one varint of at most `k` bytes starting at `pos`, returning the
/// value and the position just past it.
fn read_varint_rec(bytes: &[u8], pos: usize, k: usize) -> (r: Option<(u128, usize)>)
    requires
        pos <= bytes@.len(),
        k <= MAX_VARINT_BYTES,
    ensures
        match r {
            None => dec_varint(bytes@.skip(pos as int), k as nat) is None,
            Some((v, end)) => {
                &&& pos < end <= bytes@.len()
                &&& dec_varint(bytes@.skip(pos as int), k as nat) == Some(
                    (v as nat, bytes@.skip(end as int)),
                )
            },
        },
    decreases k,
{
    let ghost s = bytes@.skip(pos as int);
    if k == 0 || pos == bytes.len() {
        None
    } else {
        let b: u8 = bytes[pos];
        assert(s[0] == b);
        assert(s.skip(1) =~= bytes@.skip(pos + 1));
        if b < 128 {
            Some((b as u128, pos + 1))
        } else {
            match read_varint_rec(bytes, pos + 1, k - 1) {
                None => None,
                Some((m, end)) => {
                    proof {
                        lemma_dec_varint_bound(bytes@.skip(pos + 1), (k - 1) as nat);
                        lemma_pow128_le((k - 1) as nat, 9);
                        reveal_with_fuel(pow128, 10);
                    }
                    Some((((b - 128) as u128) + 128 * m, end))
                },
            }
        }
    }
}

/// `pow128` is monotone in its exponent.
proof fn lemma_pow128_le(j: nat, k: nat)
    requires
        j <= k,
    ensures
        pow128(j) <= pow128(k),
    decreases k,
{
    if j < k {
        lemma_pow128_le(j, (k - 1) as nat);
        assert(pow128(k) == 128 * pow128((k - 1) as nat));
    }
}

/// Reads one varint as a `u64`, rejecting values that do not fit.
pub fn read_u64_varint(bytes: &[u8], pos: usize) -> (r: Option<(u64, usize)>)
    requires
        pos <= bytes@.len(),
    ensures
        match r {
            None => dec_u64(bytes@.skip(pos as int)) is None,
            Some((v, end)) => {
                &&& pos < end <= bytes@.len()
                &&& dec_u64(bytes@.skip(pos as int)) == Some((v, bytes@.skip(end as int)))
            },
        },
{
    match read_varint_rec(bytes, pos, MAX_VARINT_BYTES) {
        None => None,
        Some((v, end)) => {
            if v <= u64::MAX as u128 {
                Some((v as u64, end))
            } else {
                None
            }
        },
    }
}

/// The 4-byte big-endian encoding of a frame length.
pub open spec fn be32_enc(n: u32) -> Seq<u8> {
    seq![
        (n / 0x1000000) as u8,
        ((n / 0x10000) % 0x100) as u8,
        ((n / 0x100) % 0x100) as u8,
        (n % 0x100) as u8,
    ]
}

/// The value of four big-endian bytes.
pub open spec fn be32_val(s: Seq<u8>) -> nat
    recommends
        s.len() == 4,
{
    (s[0] * 0x1000000 + s[1] * 0x10000 + s[2] * 0x100 + s[3]) as nat
}

/// Reading four big-endian bytes undoes writing them.
pub proof fn lemma_be32_round_trip(n: u32)
    ensures
        be32_val(be32_enc(n)) == n,
{
}

/// One frame: a 4-byte big-endian length prefix, then that many payload bytes.
pub open spec fn frame_enc(payload: Seq<u8>) -> Seq<u8>
    recommends
        payload.len() <= u32::MAX,
{
    be32_enc(payload.len() as u32) + payload
}

/// The payload of the frame at the front of `s`, if one is complete.
pub open spec fn frame_dec(s: Seq<u8>) -> Option<(Seq<u8>, Seq<u8>)> {
    if s.len() < 4 {
        None
    } else {
        let n: nat = be32_val(s.take(4));
        if s.len() - 4 < n {
            None
        } else {
            Some((s.subrange(4, 4 + n as int), s.skip(4 + n as int)))
        }
    }
}

/// Frames `payload` for the wire.
pub fn encode_frame(payload: &[u8]) -> (r: Vec<u8>)
    requires
        payload@.len() <= u32::MAX,
    ensures
        r@ == frame_enc(payload@),
{
    let n: u32 = payload.len() as u32;
    let mut out: Vec<u8> = Vec::new();
    out.push((n / 0x1000000) as u8);
    out.push(((n / 0x10000) % 0x100) as u8);
    out.push(((n / 0x100) % 0x100) as u8);
    out.push((n % 0x100) as u8);
    let mut i: usize = 0;
    while i < payload.len()
        invariant
            i <= payload@.len(),
            payload@.len() <= u32::MAX,
            n == payload@.len(),
            out@ == be32_enc(n) + payload@.take(i as int),
        decreases payload@.len() - i,
    {
        out.push(payload[i]);
        assert(out@ =~= be32_enc(n) + payload@.take(i + 1));
        i = i + 1;
    }
    assert(out@ =~= frame_enc(payload@));
    out
}

/// Extracts the first complete frame of `bytes`, returning its payload and
/// the index where the rest begins.
pub fn decode_frame(bytes: &[u8]) -> (r: Option<(Vec<u8>, usize)>)
    ensures
        match r {
            None => frame_dec(bytes@) is None,
            Some((payload, end)) => {
                &&& end <= bytes@.len()
                &&& frame_dec(bytes@) == Some((payload@, bytes@.skip(end as int)))
            },
        },
{
    if bytes.len() < 4 {
        return None;
    }
    let n: u64 = (bytes[0] as u64) * 0x1000000 + (bytes[1] as u64) * 0x10000 + (bytes[2] as u64)
        * 0x100 + (bytes[3] as u64);
    assert(bytes@.take(4)[0] == bytes@[0]);
    assert(bytes@.take(4)[1] == bytes@[1]);
    assert(bytes@.take(4)[2] == bytes@[2]);
    assert(bytes@.take(4)[3] == bytes@[3]);
    if n <= (bytes.len() - 4) as u64 {
        let nn: usize = n as usize;
        let payload = vstd::slice::slice_to_vec(vstd::slice::slice_subrange(bytes, 4, 4 + nn));
        Some((payload, 4 + nn))
    } else {
        None
    }
}

/// A decoded field, at the specification level: a field number together
/// with either a numeric value or a byte payload.
pub enum SpecField {
    Varint(u64, u64),
    Bytes(u64, Seq<u8>),
}

/// A decoded field as executable data.
pub enum WireField {
    Varint(u64, u64),
    Bytes(u64, Vec<u8>),
}

impl View for WireField {
    type V = SpecField;

    open spec fn view(&self) -> SpecField {
        match self {
            WireField::Varint(num, v) => SpecField::Varint(*num, *v),
            WireField::Bytes(num, b) => SpecField::Bytes(*num, b@),
        }
    }
}

/// Field numbers this codec accepts: the range the tag byte layout allows.
pub open spec fn valid_field_num(num: u64) -> bool {
    1 <= num <= 0x1FFF_FFFF
}

/// A field that can be put on the wire: a valid number, and a payload
/// short enough for a frame.
pub open spec fn field_wf(f: SpecField) -> bool {
    match f {
        SpecField::Varint(num, _) => valid_field_num(num),
        SpecField::Bytes(num, b) => valid_field_num(num) && b.len() <= u32::MAX,
    }
}

/// The encoding of one field: its tag varint, then its value; byte fields
/// carry a length varint before the payload.
pub open spec fn field_enc(f: SpecField) -> Seq<u8> {
    match f {
        SpecField::Varint(num, v) => varint_enc((num * 8) as nat) + varint_enc(v as nat),
        SpecField::Bytes(num, b) => varint_enc((num * 8 + 2) as nat) + varint_enc(b.len()) + b,
    }
}

/// The concatenated encoding of a field list.
pub open spec fn fields_enc(fs: Seq<SpecField>) -> Seq<u8>
    decreases fs.len(),
{
    if fs.len() == 0 {
        Seq::empty()
    } else {
        field_enc(fs[0]) + fields_enc(fs.drop_first())
    }
}

/// Every field of the list can be put on the wire.
pub open spec fn fields_wf(fs: Seq<SpecField>) -> bool {
    forall|i: int| 0 <= i < fs.len() ==> field_wf(#[trigger] fs[i])
}

/// Decodes a byte sequence into its field list. The codec is strict: it
/// accepts the two wire shapes it emits, numeric and length-prefixed, and
/// rejects anything else.
pub open spec fn dec_fields(s: Seq<u8>) -> Option<Seq<SpecField>>
    decreases s.len(),
    via dec_fields_termination
{
    if s.len() == 0 {
        Some(Seq::empty())
    } else {
        match dec_u64(s) {
            None => None,
            Some((tag, r1)) => {
                let num = tag / 8;
                let wt = tag % 8;
                if !valid_field_num(num) {
                    None
                } else if wt == 0 {
                    match dec_u64(r1) {
                        None => None,
                        Some((v, r2)) => match dec_fields(r2) {
                            None => None,
                            Some(fs) => Some(seq![SpecField::Varint(num, v)] + fs),
                        },
                    }
                } else if wt == 2 {
                    match dec_u64(r1) {
                        None => None,
                        Some((len, r2)) => if len <= r2.len() {
                            match dec_fields(r2.skip(len as int)) {
                                None => None,
                                Some(fs) => Some(
                                    seq![SpecField::Bytes(num, r2.take(len as int))] + fs,
                                ),
                            }
                        } else {
                            None
                        },
                    }
                } else {
                    None
                }
            },
        }
    }
}

#[via_fn]
proof fn dec_fields_termination(s: Seq<u8>) {
    if s.len() != 0 {
        lemma_dec_varint_bound(s, MAX_VARINT_BYTES as nat);
        match dec_u64(s) {
            None => {},
            Some((tag, r1)) => {
                lemma_dec_varint_bound(r1, MAX_VARINT_BYTES as nat);
            },
        }
    }
}

/// Encodings of well-formed fields never collide with the empty input.
proof fn lemma_field_enc_nonempty(f: SpecField)
    ensures
        field_enc(f).len() >= 1,
{
    match f {
        SpecField::Varint(num, v) => {
            assert(varint_enc((num * 8) as nat).len() >= 1);
        },
        SpecField::Bytes(num, b) => {
            assert(varint_enc((num * 8 + 2) as nat).len() >= 1);
        },
    }
}

/// Decoding undoes encoding for a whole field list.
pub proof fn lemma_dec_enc_fields(fs: Seq<SpecField>)
    requires
        fields_wf(fs),
    ensures
        dec_fields(fields_enc(fs)) == Some(fs),
    decreases fs.len(),
{
    if fs.len() == 0 {
        assert(fields_enc(fs) =~= Seq::<u8>::empty());
    } else {
        let f0 = fs[0];
        let rest = fs.drop_first();
        let tail = fields_enc(rest);
        let s = fields_enc(fs);
        assert(field_wf(f0));
        lemma_field_enc_nonempty(f0);
        lemma_dec_enc_fields(rest);
        match f0 {
            SpecField::Varint(num, v) => {
                let tag: u64 = (num * 8) as u64;
                assert(s =~= varint_enc(tag as nat) + (varint_enc(v as nat) + tail));
                lemma_dec_enc_u64(tag, varint_enc(v as nat) + tail);
                assert(tag / 8 == num && tag % 8 == 0);
                lemma_dec_enc_u64(v, tail);
                assert(seq![f0] + rest =~= fs);
            },
            SpecField::Bytes(num, b) => {
                let tag: u64 = (num * 8 + 2) as u64;
                let blen: u64 = b.len() as u64;
                assert(s =~= varint_enc(tag as nat) + (varint_enc(blen as nat) + (b + tail)));
                lemma_dec_enc_u64(tag, varint_enc(blen as nat) + (b + tail));
                assert(tag / 8 == num && tag % 8 == 2);
                lemma_dec_enc_u64(blen, b + tail);
                let r2 = b + tail;
                assert(r2.take(blen as int) =~= b);
                assert(r2.skip(blen as int) =~= tail);
                assert(seq![SpecField::Bytes(num, r2.take(blen as int))] + rest =~= fs);
            },
        }
    }
}

/// The views of the accumulated executable fields.
pub open spec fn field_views(v: Seq<WireField>) -> Seq<SpecField> {
    v.map_values(|f: WireField| f@)
}

/// Appends the encoding of one field to `out`.
pub fn write_field(out: &mut Vec<u8>, f: &WireField)
    requires
        field_wf(f@),
    ensures
        final(out)@ == old(out)@ + field_enc(f@),
{
    match f {
        WireField::Varint(num, v) => {
            write_varint(out, *num * 8);
            write_varint(out, *v);
            assert(out@ =~= old(out)@ + field_enc(f@));
        },
        WireField::Bytes(num, b) => {
            write_varint(out, *num * 8 + 2);
            write_varint(out, b.len() as u64);
            let mut i: usize = 0;
            let ghost before = out@;
            while i < b.len()
                invariant
                    i <= b@.len(),
                    out@ == before + b@.take(i as int),
                decreases b@.len() - i,
            {
                out.push(b[i]);
                assert(out@ =~= before + b@.take(i + 1));
                i = i + 1;
            }
            assert(b@.take(b@.len() as int) =~= b@);
            assert(out@ =~= old(out)@ + field_enc(f@));
        },
    }
}

/// Parses a byte slice into its field list, exactly as `dec_fields` reads it.
pub fn parse_fields(bytes: &[u8]) -> (r: Option<Vec<WireField>>)
    ensures
        match r {
            None => dec_fields(bytes@) is None,
            Some(v) => dec_fields(bytes@) == Some(field_views(v@)),
        },
{
    let mut pos: usize = 0;
    let mut acc: Vec<WireField> = Vec::new();
    proof {
        assert(bytes@.skip(0) =~= bytes@);
        match dec_fields(bytes@) {
            None => {},
            Some(fs) => {
                assert(field_views(acc@) + fs =~= fs);
            },
        }
    }
    loop
        invariant
            pos <= bytes@.len(),
            dec_fields(bytes@) == match dec_fields(bytes@.skip(pos as int)) {
                None => None::<Seq<SpecField>>,
                Some(fs) => Some(field_views(acc@) + fs),
            },
        decreases bytes@.len() - pos,
    {
        if pos == bytes.len() {
            assert(bytes@.skip(pos as int) =~= Seq::<u8>::empty());
            assert(field_views(acc@) + Seq::<SpecField>::empty() =~= field_views(acc@));
            return Some(acc);
        }
        let ghost s = bytes@.skip(pos as int);
        let (tag, p1) = match read_u64_varint(bytes, pos) {
            None => {
                return None;
            },
            Some(t) => t,
        };
        let num: u64 = tag / 8;
        let wt: u64 = tag % 8;
        if num == 0 || num > 0x1FFF_FFFF {
            return None;
        }
        if wt == 0 {
            let (v, p2) = match read_u64_varint(bytes, p1) {
                None => {
                    return None;
                },
                Some(t) => t,
            };
            let f = WireField::Varint(num, v);
            proof {
                match dec_fields(bytes@.skip(p2 as int)) {
                    None => {},
                    Some(fs) => {
                        assert(field_views(acc@.push(f)) =~= field_views(acc@).push(f@));
                        assert(field_views(acc@).push(f@) + fs =~= field_views(acc@) + (
                        seq![f@] + fs));
                    },
                }
            }
            acc.push(f);
            pos = p2;
        } else if wt == 2 {
            let (blen, p2) = match read_u64_varint(bytes, p1) {
                None => {
                    return None;
                },
                Some(t) => t,
            };
            if blen <= (bytes.len() - p2) as u64 {
                let nn: usize = blen as usize;
                let b = vstd::slice::slice_to_vec(
                    vstd::slice::slice_subrange(bytes, p2, p2 + nn),
                );
                let ghost r2 = bytes@.skip(p2 as int);
                assert(r2.take(blen as int) =~= b@);
                assert(r2.skip(blen as int) =~= bytes@.skip(p2 + nn));
                let f = WireField::Bytes(num, b);
                proof {
                    match dec_fields(bytes@.skip(p2 + nn)) {
                        None => {},
                        Some(fs) => {
                            assert(field_views(acc@.push(f)) =~= field_views(acc@).push(f@));
                            assert(field_views(acc@).push(f@) + fs =~= field_views(acc@) + (
                            seq![f@] + fs));
                        },
                    }
                }
                acc.push(f);
                pos = p2 + nn;
            } else {
                return None;
            }
        } else {
            return None;
        }
    }
}

/// A message that travels over this codec. Its mathematical model is its
/// view; decoding folds fields onto the default model, and encoding lays
/// out the model's canonical field list.
pub trait WireMessage: View + Sized {
    /// The model of the message with every field at its default.
    spec fn initial() -> Self::V;

    /// Folds one decoded field into the model; `None` rejects the field.
    spec fn apply_field(prev: Self::V, f: SpecField) -> Option<Self::V>;

    /// The fields the model puts on the wire, defaults omitted.
    spec fn field_list(m: Self::V) -> Seq<SpecField>;

    /// When the model can be laid out on the wire at all.
    spec fn enc_wf(m: Self::V) -> bool;

    /// Builds the default message.
    fn initial_msg() -> (r: Self)
        ensures
            r@ == Self::initial(),
    ;

    /// Folds one decoded field into the message.
    fn apply(self, f: &WireField) -> (r: Option<Self>)
        ensures
            match r {
                None => Self::apply_field(self@, f@) is None,
                Some(m2) => Self::apply_field(self@, f@) == Some(m2@),
            },
    ;

    /// The fields this message puts on the wire, as executable data.
    fn fields_vec(&self) -> (r: Vec<WireField>)
        requires
            Self::enc_wf(self@),
        ensures
            field_views(r@) == Self::field_list(self@),
            fields_wf(Self::field_list(self@)),
    ;
}

/// Folds a list of decoded fields onto the model `m`, left to right.
pub open spec fn from_fields_rec<M: WireMessage>(m: M::V, fs: Seq<SpecField>) -> Option<M::V>
    decreases fs.len(),
{
    if fs.len() == 0 {
        Some(m)
    } else {
        match M::apply_field(m, fs[0]) {
            None => None,
            Some(m2) => from_fields_rec::<M>(m2, fs.drop_first()),
        }
    }
}

/// The byte encoding of a message model.
pub open spec fn msg_enc<M: WireMessage>(m: M::V) -> Seq<u8> {
    fields_enc(M::field_list(m))
}

/// The message model a byte sequence decodes to, if any.
pub open spec fn msg_dec<M: WireMessage>(bytes: Seq<u8>) -> Option<M::V> {
    match dec_fields(bytes) {
        None => None,
        Some(fs) => from_fields_rec::<M>(M::initial(), fs),
    }
}

/// Field lists encode piecewise.
pub proof fn lemma_fields_enc_concat(a: Seq<SpecField>, b: Seq<SpecField>)
    ensures
        fields_enc(a + b) == fields_enc(a) + fields_enc(b),
    decreases a.len(),
{
    if a.len() == 0 {
        assert(a + b =~= b);
        assert(fields_enc(a) + fields_enc(b) =~= fields_enc(b));
    } else {
        assert((a + b)[0] == a[0]);
        assert((a + b).drop_first() =~= a.drop_first() + b);
        lemma_fields_enc_concat(a.drop_first(), b);
        assert(fields_enc(a + b) =~= fields_enc(a) + fields_enc(b));
    }
}

/// Folding distributes over concatenation of field lists.
pub proof fn lemma_from_fields_concat<M: WireMessage>(m: M::V, a: Seq<SpecField>, b: Seq<
    SpecField,
>)
    ensures
        from_fields_rec::<M>(m, a + b) == match from_fields_rec::<M>(m, a) {
            None => None::<M::V>,
            Some(m2) => from_fields_rec::<M>(m2, b),
        },
    decreases a.len(),
{
    if a.len() == 0 {
        assert(a + b =~= b);
    } else {
        assert((a + b)[0] == a[0]);
        assert((a + b).drop_first() =~= a.drop_first() + b);
        match M::apply_field(m, a[0]) {
            None => {},
            Some(m2) => {
                lemma_from_fields_concat::<M>(m2, a.drop_first(), b);
            },
        }
    }
}

/// Folding a single field is one application.
pub proof fn lemma_from_fields_singleton<M: WireMessage>(m: M::V, f: SpecField)
    ensures
        from_fields_rec::<M>(m, seq![f]) == M::apply_field(m, f),
{
    let fs = seq![f];
    assert(fs.drop_first() =~= Seq::<SpecField>::empty());
    match M::apply_field(m, f) {
        None => {},
        Some(m2) => {
            assert(from_fields_rec::<M>(m2, fs.drop_first()) == Some(m2));
        },
    }
}

/// A message whose own fields fold back to itself decodes from its encoding.
pub proof fn lemma_msg_round_trip<M: WireMessage>(m: M::V)
    requires
        fields_wf(M::field_list(m)),
        from_fields_rec::<M>(M::initial(), M::field_list(m)) == Some(m),
    ensures
        msg_dec::<M>(msg_enc::<M>(m)) == Some(m),
{
    lemma_dec_enc_fields(M::field_list(m));
}

/// Serializes a message: its canonical fields, in order.
pub fn encode_message<M: WireMessage>(m: &M) -> (r: Vec<u8>)
    requires
        M::enc_wf(m@),
    ensures
        r@ == msg_enc::<M>(m@),
{
    let fields = m.fields_vec();
    let ghost views = field_views(fields@);
    let mut out: Vec<u8> = Vec::new();
    let mut i: usize = 0;
    proof {
        assert(views.take(0) =~= Seq::<SpecField>::empty());
        assert(out@ =~= fields_enc(views.take(0)));
    }
    while i < fields.len()
        invariant
            i <= fields@.len(),
            views == field_views(fields@),
            field_views(fields@) == M::field_list(m@),
            fields_wf(M::field_list(m@)),
            out@ == fields_enc(views.take(i as int)),
        decreases fields@.len() - i,
    {
        proof {
            assert(views[i as int] == fields@[i as int]@);
            assert(field_wf(views[i as int]));
            assert(views.take(i + 1) =~= views.take(i as int) + seq![views[i as int]]);
            lemma_fields_enc_concat(views.take(i as int), seq![views[i as int]]);
            assert(seq![views[i as int]].drop_first() =~= Seq::<SpecField>::empty());
            assert(fields_enc(Seq::<SpecField>::empty()) =~= Seq::<u8>::empty());
            assert(fields_enc(seq![views[i as int]]) =~= field_enc(views[i as int]));
        }
        write_field(&mut out, &fields[i]);
        i = i + 1;
    }
    proof {
        assert(views.take(views.len() as int) =~= views);
    }
    out
}

/// Parses a message: decodes the fields and folds them onto the default.
pub fn parse_message<M: WireMessage>(bytes: &[u8]) -> (r: Option<M>)
    ensures
        match r {
            None => msg_dec::<M>(bytes@) is None,
            Some(m) => msg_dec::<M>(bytes@) == Some(m@),
        },
{
    let fields = match parse_fields(bytes) {
        None => {
            return None;
        },
        Some(v) => v,
    };
    let ghost views = field_views(fields@);
    let mut m = M::initial_msg();
    let mut i: usize = 0;
    proof {
        assert(views.skip(0) =~= views);
    }
    while i < fields.len()
        invariant
            i <= fields@.len(),
            views == field_views(fields@),
            dec_fields(bytes@) == Some(views),
            from_fields_rec::<M>(M::initial(), views) == from_fields_rec::<M>(
                m@,
                views.skip(i as int),
            ),
        decreases fields@.len() - i,
    {
        proof {
            assert(views.skip(i as int)[0] == fields@[i as int]@);
            assert(views.skip(i as int).drop_first() =~= views.skip(i + 1));
        }
        m = match m.apply(&fields[i]) {
            None => {
                return None;
            },
            Some(m2) => m2,
        };
        i = i + 1;
    }
    proof {
        assert(views.skip(views.len() as int) =~= Seq::<SpecField>::empty());
    }
    Some(m)
}

/// Every byte is below 128.
pub open spec fn is_ascii_bytes(s: Seq<u8>) -> bool {
    forall|i: int| 0 <= i < s.len() ==> #[trigger] s[i] < 128
}

/// The characters whose code points are the given bytes.
pub open spec fn ascii_chars(s: Seq<u8>) -> Seq<char> {
    Seq::new(s.len(), |i: int| s[i] as char)
}

/// The code points of the given characters, as bytes.
pub open spec fn ascii_bytes_of(s: Seq<char>) -> Seq<u8> {
    Seq::new(s.len(), |i: int| s[i] as u8)
}

/// Checks that every byte is below 128.
pub fn bytes_all_ascii(bytes: &[u8]) -> (r: bool)
    ensures
        r == is_ascii_bytes(bytes@),
{
    let mut i: usize = 0;
    while i < bytes.len()
        invariant
            i <= bytes@.len(),
            forall|j: int| 0 <= j < i ==> #[trigger] bytes@[j] < 128,
        decreases bytes@.len() - i,
    {
        if bytes[i] >= 128 {
            return false;
        }
        i = i + 1;
    }
    true
}

/// Relies on `String::from_utf8`: it succeeds exactly on UTF-8 input, and
/// bytes below 128 decode one-to-one to the characters with those code
/// points.
#[verifier::external_body]
pub fn ascii_bytes_to_string(bytes: &[u8]) -> (r: Option<String>)
    ensures
        r matches Some(s) ==> is_ascii_bytes(bytes@) ==> s@ == ascii_chars(bytes@),
        r is None ==> !is_ascii_bytes(bytes@),
{
    String::from_utf8(bytes.to_vec()).ok()
}

/// Decoding a frame undoes framing, whatever follows it on the wire.
pub proof fn lemma_frame_round_trip(payload: Seq<u8>, rest: Seq<u8>)
    requires
        payload.len() <= u32::MAX,
    ensures
        frame_dec(frame_enc(payload) + rest) == Some((payload, rest)),
{
    let s = frame_enc(payload) + rest;
    assert(s.take(4) =~= be32_enc(payload.len() as u32));
    lemma_be32_round_trip(payload.len() as u32);
    assert(s.subrange(4, 4 + payload.len() as int) =~= payload);
    assert(s.skip(4 + payload.len() as int) =~= rest);
}

} // verus!
