//! Protobuf wire encoding of the protocol messages.
//!
//! Every message of the protocol is signed over its protobuf encoding, so the
//! encoding is stated here as spec functions and each message's encoder is
//! proved to write exactly those bytes. The two primitives that write bytes
//! (`encode_varint` and `encode_key`) are prost's own.
use vstd::prelude::*;
use vstd::utf8::encode_utf8;

verus! {

/// Smallest field tag that protobuf admits.
pub const MIN_TAG: u32 = 1;

/// Largest field tag that protobuf admits.
pub const MAX_TAG: u32 = 536870911;

/// The base-128 varint encoding of `v`: seven bits per byte, least
/// significant group first, high bit set on every byte but the last.
pub open spec fn varint(v: u64) -> Seq<u8>
    decreases v,
{
    if v < 128 {
        seq![v as u8]
    } else {
        seq![((v % 128) + 128) as u8] + varint(v / 128)
    }
}

/// The two wire types that the protocol's messages use.
#[derive(Clone, Copy, PartialEq, Eq, Debug)]
pub enum WireKind {
    Varint,
    LengthDelimited,
}

/// The number protobuf gives a wire type in a field key.
pub open spec fn wire_code(kind: WireKind) -> u64 {
    match kind {
        WireKind::Varint => 0,
        WireKind::LengthDelimited => 2,
    }
}

/// A field key: the tag shifted left by three bits, or-ed with the wire type.
pub open spec fn field_key(tag: u32, kind: WireKind) -> Seq<u8> {
    varint((tag * 8 + wire_code(kind)) as u64)
}

/// A tag that protobuf admits.
pub open spec fn valid_tag(tag: u32) -> bool {
    MIN_TAG <= tag <= MAX_TAG
}

/// `prost::encoding::encode_varint`: appends the varint encoding of `value`.
/// Claimed: it appends exactly `varint(value)` and nothing else.
#[verifier::external_body]
fn put_varint(value: u64, buf: &mut Vec<u8>)
    ensures
        final(buf)@ == old(buf)@ + varint(value),
{
    prost::encoding::encode_varint(value, buf);
}

/// `prost::encoding::encode_key`: appends the key of a field with this tag and
/// wire type. Claimed: it appends exactly `field_key(tag, kind)`.
#[verifier::external_body]
fn put_key(tag: u32, kind: WireKind, buf: &mut Vec<u8>)
    requires
        valid_tag(tag),
    ensures
        final(buf)@ == old(buf)@ + field_key(tag, kind),
{
    let wire_type = match kind {
        WireKind::Varint => prost::encoding::WireType::Varint,
        WireKind::LengthDelimited => prost::encoding::WireType::LengthDelimited,
    };
    prost::encoding::encode_key(tag, wire_type, buf);
}

/// An unsigned 64-bit field: omitted when zero, as proto3 does.
pub open spec fn u64_field(tag: u32, v: u64) -> Seq<u8> {
    if v == 0 {
        seq![]
    } else {
        field_key(tag, WireKind::Varint) + varint(v)
    }
}

/// An unsigned 32-bit field: omitted when zero.
pub open spec fn u32_field(tag: u32, v: u32) -> Seq<u8> {
    u64_field(tag, v as u64)
}

/// A signed 32-bit (or enumeration) field: omitted when zero; a negative value
/// is sign-extended to 64 bits before it is written.
pub open spec fn i32_field(tag: u32, v: i32) -> Seq<u8> {
    if v == 0 {
        seq![]
    } else {
        field_key(tag, WireKind::Varint) + varint(v as u64)
    }
}

/// A boolean field: omitted when false, written as the varint 1 otherwise.
pub open spec fn bool_field(tag: u32, v: bool) -> Seq<u8> {
    if v {
        field_key(tag, WireKind::Varint) + varint(1)
    } else {
        seq![]
    }
}

/// A length-delimited value, written whatever its length.
pub open spec fn delimited(tag: u32, b: Seq<u8>) -> Seq<u8> {
    field_key(tag, WireKind::LengthDelimited) + varint(b.len() as u64) + b
}

/// A bytes field: omitted when empty.
pub open spec fn bytes_field(tag: u32, b: Seq<u8>) -> Seq<u8> {
    if b.len() == 0 {
        seq![]
    } else {
        delimited(tag, b)
    }
}

/// A string field: its UTF-8 bytes, omitted when empty.
pub open spec fn string_field(tag: u32, s: Seq<char>) -> Seq<u8> {
    bytes_field(tag, encode_utf8(s))
}

/// A message whose fields are written in protobuf's wire format.
pub trait ProtoMessage: Sized {
    /// The message's encoding: its present fields in tag order.
    spec fn wire(&self) -> Seq<u8>;

    /// Appends the message's encoding to `buf`.
    fn encode_raw(&self, buf: &mut Vec<u8>)
        ensures
            final(buf)@ == old(buf)@ + self.wire(),
    ;
}

/// An optional message field: written, even when empty, when present.
pub open spec fn optional_field<M: ProtoMessage>(tag: u32, m: Option<M>) -> Seq<u8> {
    match m {
        Some(inner) => delimited(tag, inner.wire()),
        None => seq![],
    }
}

/// A repeated message field: one length-delimited entry per element, in order.
pub open spec fn repeated_field<M: ProtoMessage>(tag: u32, s: Seq<M>) -> Seq<u8>
    decreases s.len(),
{
    if s.len() == 0 {
        seq![]
    } else {
        repeated_field(tag, s.drop_last()) + delimited(tag, s.last().wire())
    }
}

/// Appends an unsigned 64-bit field.
pub fn put_u64(tag: u32, v: u64, buf: &mut Vec<u8>)
    requires
        valid_tag(tag),
    ensures
        final(buf)@ == old(buf)@ + u64_field(tag, v),
{
    if v != 0 {
        put_key(tag, WireKind::Varint, buf);
        put_varint(v, buf);
    } else {
        assert(old(buf)@ + u64_field(tag, v) =~= old(buf)@);
    }
}

/// Appends an unsigned 32-bit field.
pub fn put_u32(tag: u32, v: u32, buf: &mut Vec<u8>)
    requires
        valid_tag(tag),
    ensures
        final(buf)@ == old(buf)@ + u32_field(tag, v),
{
    put_u64(tag, v as u64, buf);
}

/// Appends a signed 32-bit or enumeration field.
pub fn put_i32(tag: u32, v: i32, buf: &mut Vec<u8>)
    requires
        valid_tag(tag),
    ensures
        final(buf)@ == old(buf)@ + i32_field(tag, v),
{
    if v != 0 {
        put_key(tag, WireKind::Varint, buf);
        put_varint(v as u64, buf);
    } else {
        assert(old(buf)@ + i32_field(tag, v) =~= old(buf)@);
    }
}

/// Appends a boolean field.
pub fn put_bool(tag: u32, v: bool, buf: &mut Vec<u8>)
    requires
        valid_tag(tag),
    ensures
        final(buf)@ == old(buf)@ + bool_field(tag, v),
{
    if v {
        put_key(tag, WireKind::Varint, buf);
        put_varint(1, buf);
    } else {
        assert(old(buf)@ + bool_field(tag, v) =~= old(buf)@);
    }
}

/// Appends a length-delimited value whatever its length.
fn put_delimited(tag: u32, b: &[u8], buf: &mut Vec<u8>)
    requires
        valid_tag(tag),
    ensures
        final(buf)@ == old(buf)@ + delimited(tag, b@),
{
    put_key(tag, WireKind::LengthDelimited, buf);
    put_varint(b.len() as u64, buf);
    let ghost mid = buf@;
    let mut i: usize = 0;
    while i < b.len()
        invariant
            0 <= i <= b@.len(),
            buf@ == mid + b@.subrange(0, i as int),
        decreases b@.len() - i,
    {
        buf.push(b[i]);
        i = i + 1;
        assert(buf@ =~= mid + b@.subrange(0, i as int));
    }
    assert(b@.subrange(0, b@.len() as int) =~= b@);
    assert(final(buf)@ =~= old(buf)@ + delimited(tag, b@));
}

/// Appends a bytes field.
pub fn put_bytes(tag: u32, b: &[u8], buf: &mut Vec<u8>)
    requires
        valid_tag(tag),
    ensures
        final(buf)@ == old(buf)@ + bytes_field(tag, b@),
{
    if b.len() != 0 {
        put_delimited(tag, b, buf);
    } else {
        assert(old(buf)@ + bytes_field(tag, b@) =~= old(buf)@);
    }
}

/// Appends a string field.
pub fn put_string(tag: u32, s: &String, buf: &mut Vec<u8>)
    requires
        valid_tag(tag),
    ensures
        final(buf)@ == old(buf)@ + string_field(tag, s@),
{
    let b = s.as_str().as_bytes();
    put_bytes(tag, b, buf);
}

/// Appends a nested message as a length-delimited field.
pub fn put_message<M: ProtoMessage>(tag: u32, m: &M, buf: &mut Vec<u8>)
    requires
        valid_tag(tag),
    ensures
        final(buf)@ == old(buf)@ + delimited(tag, m.wire()),
{
    let mut inner: Vec<u8> = Vec::new();
    m.encode_raw(&mut inner);
    assert(inner@ =~= m.wire());
    put_key(tag, WireKind::LengthDelimited, buf);
    put_varint(inner.len() as u64, buf);
    buf.append(&mut inner);
    assert(final(buf)@ =~= old(buf)@ + delimited(tag, m.wire()));
}

/// Appends an optional message field.
pub fn put_optional<M: ProtoMessage>(tag: u32, m: &Option<M>, buf: &mut Vec<u8>)
    requires
        valid_tag(tag),
    ensures
        final(buf)@ == old(buf)@ + optional_field(tag, *m),
{
    match m {
        Some(inner) => put_message(tag, inner, buf),
        None => {
            assert(old(buf)@ + optional_field(tag, *m) =~= old(buf)@);
        },
    }
}

/// Appends a repeated message field.
pub fn put_repeated<M: ProtoMessage>(tag: u32, v: &Vec<M>, buf: &mut Vec<u8>)
    requires
        valid_tag(tag),
    ensures
        final(buf)@ == old(buf)@ + repeated_field(tag, v@),
{
    let ghost start = buf@;
    let mut i: usize = 0;
    assert(start + repeated_field(tag, v@.subrange(0, 0)) =~= start);
    while i < v.len()
        invariant
            0 <= i <= v@.len(),
            valid_tag(tag),
            buf@ == start + repeated_field(tag, v@.subrange(0, i as int)),
        decreases v@.len() - i,
    {
        put_message(tag, &v[i], buf);
        proof {
            let next = v@.subrange(0, i + 1);
            assert(next.drop_last() =~= v@.subrange(0, i as int));
            assert(next.last() == v@[i as int]);
        }
        i = i + 1;
        assert(buf@ =~= start + repeated_field(tag, v@.subrange(0, i as int)));
    }
    assert(v@.subrange(0, v@.len() as int) =~= v@);
}

/// The encoding of a message, as a fresh buffer.
pub fn encode_to_vec<M: ProtoMessage>(m: &M) -> (r: Vec<u8>)
    ensures
        r@ == m.wire(),
{
    let mut buf: Vec<u8> = Vec::new();
    m.encode_raw(&mut buf);
    assert(buf@ =~= m.wire());
    buf
}

/// Varints are prefix-free: a varint followed by more bytes determines both
/// the number and the bytes that follow it.
pub proof fn lemma_varint_prefix_free(x: u64, y: u64, a: Seq<u8>, b: Seq<u8>)
    requires
        varint(x) + a == varint(y) + b,
    ensures
        x == y,
        a == b,
    decreases x,
{
    let vx = varint(x);
    let vy = varint(y);
    assert((vx + a)[0] == vx[0]);
    assert((vy + b)[0] == vy[0]);
    if x < 128 {
        if y >= 128 {
            assert(vy[0] == ((y % 128) + 128) as u8);
            assert(false);
        }
        assert(vx[0] == x as u8 && vy[0] == y as u8);
        assert(a =~= (vx + a).subrange(1, (vx + a).len() as int));
        assert(b =~= (vy + b).subrange(1, (vy + b).len() as int));
    } else {
        if y < 128 {
            assert(vx[0] == ((x % 128) + 128) as u8);
            assert(vy[0] == y as u8);
            assert(false);
        }
        let rx = varint(x / 128) + a;
        let ry = varint(y / 128) + b;
        assert(vx + a =~= seq![((x % 128) + 128) as u8] + rx);
        assert(vy + b =~= seq![((y % 128) + 128) as u8] + ry);
        assert(rx =~= (vx + a).subrange(1, (vx + a).len() as int));
        assert(ry =~= (vy + b).subrange(1, (vy + b).len() as int));
        lemma_varint_prefix_free(x / 128, y / 128, a, b);
        assert(x % 128 == y % 128);
    }
}

/// A varint is never empty.
pub proof fn lemma_varint_nonempty(v: u64)
    ensures
        varint(v).len() >= 1,
{
}

/// Equal sequences that share a prefix and a suffix agree in between.
pub proof fn lemma_middle_cancel(p: Seq<u8>, a: Seq<u8>, b: Seq<u8>, s: Seq<u8>)
    requires
        p + a + s == p + b + s,
    ensures
        a == b,
{
    let x = p + a + s;
    assert(x.len() == p.len() + a.len() + s.len());
    assert((p + b + s).len() == p.len() + b.len() + s.len());
    assert(a.len() == b.len());
    assert(a =~= x.subrange(p.len() as int, (p.len() + a.len()) as int));
    assert(b =~= (p + b + s).subrange(p.len() as int, (p.len() + b.len()) as int));
}

/// Sequences that share a prefix and a suffix differ where their middles do.
pub proof fn lemma_middle_cancel_contra(p: Seq<u8>, a: Seq<u8>, b: Seq<u8>, s: Seq<u8>)
    requires
        a != b,
    ensures
        p + a + s != p + b + s,
{
    if p + a + s == p + b + s {
        lemma_middle_cancel(p, a, b, s);
    }
}

/// An unsigned field's encoding determines its value.
pub proof fn lemma_u64_field_injective(tag: u32, a: u64, b: u64)
    requires
        u64_field(tag, a) == u64_field(tag, b),
    ensures
        a == b,
{
    let k = field_key(tag, WireKind::Varint);
    lemma_varint_nonempty(a);
    lemma_varint_nonempty(b);
    if a != 0 && b != 0 {
        lemma_middle_cancel(k, varint(a), varint(b), Seq::empty());
        assert(varint(a) + Seq::<u8>::empty() =~= varint(a));
        assert(varint(b) + Seq::<u8>::empty() =~= varint(b));
        lemma_varint_prefix_free(a, b, Seq::empty(), Seq::empty());
    } else if a != 0 || b != 0 {
        assert(u64_field(tag, a).len() != u64_field(tag, b).len());
    }
}

/// A 32-bit unsigned field's encoding determines its value.
pub proof fn lemma_u32_field_injective(tag: u32, a: u32, b: u32)
    requires
        u32_field(tag, a) == u32_field(tag, b),
    ensures
        a == b,
{
    lemma_u64_field_injective(tag, a as u64, b as u64);
}

/// A signed field's encoding determines its value.
pub proof fn lemma_i32_field_injective(tag: u32, a: i32, b: i32)
    requires
        i32_field(tag, a) == i32_field(tag, b),
    ensures
        a == b,
{
    let k = field_key(tag, WireKind::Varint);
    lemma_varint_nonempty(a as u64);
    lemma_varint_nonempty(b as u64);
    if a != 0 && b != 0 {
        lemma_middle_cancel(k, varint(a as u64), varint(b as u64), Seq::empty());
        assert(varint(a as u64) + Seq::<u8>::empty() =~= varint(a as u64));
        assert(varint(b as u64) + Seq::<u8>::empty() =~= varint(b as u64));
        lemma_varint_prefix_free(a as u64, b as u64, Seq::empty(), Seq::empty());
        assert(a as u64 == b as u64 ==> a == b) by (bit_vector);
    } else if a != 0 || b != 0 {
        assert(i32_field(tag, a).len() != i32_field(tag, b).len());
    }
}

/// A boolean field's encoding determines its value.
pub proof fn lemma_bool_field_injective(tag: u32, a: bool, b: bool)
    requires
        bool_field(tag, a) == bool_field(tag, b),
    ensures
        a == b,
{
    lemma_varint_nonempty(1);
    if a != b {
        assert(bool_field(tag, a).len() != bool_field(tag, b).len());
    }
}

/// A length-delimited value's encoding determines the value.
pub proof fn lemma_delimited_injective(tag: u32, a: Seq<u8>, b: Seq<u8>)
    requires
        delimited(tag, a) == delimited(tag, b),
    ensures
        a == b,
{
    let k = field_key(tag, WireKind::LengthDelimited);
    assert(delimited(tag, a) =~= k + (varint(a.len() as u64) + a) + Seq::empty());
    assert(delimited(tag, b) =~= k + (varint(b.len() as u64) + b) + Seq::empty());
    lemma_middle_cancel(k, varint(a.len() as u64) + a, varint(b.len() as u64) + b, Seq::empty());
    lemma_varint_prefix_free(a.len() as u64, b.len() as u64, a, b);
}

/// A string field's encoding determines its text.
pub proof fn lemma_string_field_injective(tag: u32, a: Seq<char>, b: Seq<char>)
    requires
        string_field(tag, a) == string_field(tag, b),
    ensures
        a == b,
{
    lemma_bytes_field_injective(tag, encode_utf8(a), encode_utf8(b));
    vstd::utf8::encode_utf8_decode_utf8(a);
    vstd::utf8::encode_utf8_decode_utf8(b);
}

/// The encoding of an optional message, where it is present.
pub open spec fn encoded<M: ProtoMessage>(m: Option<M>) -> Option<Seq<u8>> {
    match m {
        Some(inner) => Some(inner.wire()),
        None => None,
    }
}

/// An optional message field's encoding determines whether the message is
/// present, and its encoding where it is.
pub proof fn lemma_optional_field_injective<M: ProtoMessage>(tag: u32, a: Option<M>, b: Option<M>)
    requires
        optional_field(tag, a) == optional_field(tag, b),
    ensures
        encoded(a) == encoded(b),
{
    match (a, b) {
        (Some(x), Some(y)) => {
            lemma_delimited_injective(tag, x.wire(), y.wire());
        },
        (Some(x), None) => {
            lemma_varint_nonempty(x.wire().len() as u64);
            assert(optional_field(tag, a).len() > 0);
        },
        (None, Some(y)) => {
            lemma_varint_nonempty(y.wire().len() as u64);
            assert(optional_field(tag, b).len() > 0);
        },
        (None, None) => {},
    }
}

/// A bytes field's encoding determines its bytes.
pub proof fn lemma_bytes_field_injective(tag: u32, a: Seq<u8>, b: Seq<u8>)
    requires
        bytes_field(tag, a) == bytes_field(tag, b),
    ensures
        a == b,
{
    let k = field_key(tag, WireKind::LengthDelimited);
    lemma_varint_nonempty(a.len() as u64);
    lemma_varint_nonempty(b.len() as u64);
    if a.len() != 0 && b.len() != 0 {
        assert(delimited(tag, a) =~= k + (varint(a.len() as u64) + a) + Seq::empty());
        assert(delimited(tag, b) =~= k + (varint(b.len() as u64) + b) + Seq::empty());
        lemma_middle_cancel(k, varint(a.len() as u64) + a, varint(b.len() as u64) + b, Seq::empty());
        lemma_varint_prefix_free(a.len() as u64, b.len() as u64, a, b);
    } else if a.len() != 0 || b.len() != 0 {
        assert(bytes_field(tag, a).len() != bytes_field(tag, b).len());
    }
}

} // verus!
