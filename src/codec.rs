//! The byte layout of instruction data: the values it is built from, how
//! each is written and read back, and the discriminant that leads it.

use vstd::prelude::*;
use vstd::bytes::{
    lemma_auto_spec_u32_to_from_le_bytes, lemma_auto_spec_u64_to_from_le_bytes,
    spec_u32_from_le_bytes, spec_u32_to_le_bytes, spec_u64_from_le_bytes, spec_u64_to_le_bytes,
    u32_from_le_bytes, u32_to_le_bytes, u64_from_le_bytes, u64_to_le_bytes,
};
use vstd::slice::slice_subrange;

verus! {

/// Why a byte buffer could not be read as an instruction.
#[derive(Clone, Copy, Debug, PartialEq, Eq)]
pub enum DecodeError {
    /// The buffer ends before the value it should hold is complete.
    TruncatedInput,
    /// The first eight bytes are not the discriminant of the expected instruction.
    DiscriminantMismatch { expected: [u8; 8], actual: [u8; 8] },
    /// The first eight bytes are the discriminant of no instruction.
    UnknownDiscriminant { actual: [u8; 8] },
    /// An option or boolean tag byte is neither 0 nor 1.
    InvalidTag { tag: u8 },
}

/// A 32-byte public-key identifier.
#[derive(Clone, Copy, Debug, Eq)]
pub struct Pubkey(pub [u8; 32]);

impl PartialEq for Pubkey {
    fn eq(&self, other: &Pubkey) -> (r: bool)
        ensures
            r == (*self == *other),
    {
        let mut i: usize = 0;
        while i < 32
            invariant
                i <= 32,
                forall|j: int| 0 <= j < i ==> self.0@[j] == other.0@[j],
            decreases 32 - i,
        {
            if self.0[i] != other.0[i] {
                assert(self.0@[i as int] != other.0@[i as int]);
                return false;
            }
            i = i + 1;
        }
        assert(self.0 =~= other.0);
        true
    }
}

impl vstd::std_specs::cmp::PartialEqSpecImpl for Pubkey {
    open spec fn obeys_eq_spec() -> bool {
        true
    }

    open spec fn eq_spec(&self, other: &Pubkey) -> bool {
        *self == *other
    }
}

/// A value with a fixed little-endian byte layout: integers as their
/// little-endian bytes, keys as their raw 32 bytes, options and booleans
/// behind a tag byte, records as their fields in declared order.
pub trait WireFormat: Sized {
    /// The bytes that `self` is written as.
    spec fn spec_encode(&self) -> Seq<u8>;

    /// Reading a value from the front of `s`: the value and how many bytes it took.
    spec fn spec_parse(s: Seq<u8>) -> Result<(Self, nat), DecodeError>;

    /// Reading back what was written gives the value, whatever follows it.
    proof fn lemma_parse_encode(&self, rest: Seq<u8>)
        ensures
            Self::spec_parse(self.spec_encode() + rest) == Ok::<(Self, nat), DecodeError>(
                (*self, self.spec_encode().len()),
            ),
    ;

    /// Appends the bytes of `self` to `out`.
    fn encode(&self, out: &mut Vec<u8>)
        ensures
            final(out)@ == old(out)@ + self.spec_encode(),
    ;

    /// Reads a value starting at `pos`; on success also returns where it ends.
    fn decode(buf: &[u8], pos: usize) -> (r: Result<(Self, usize), DecodeError>)
        requires
            pos <= buf@.len(),
        ensures
            match Self::spec_parse(buf@.skip(pos as int)) {
                Ok((v, n)) => r matches Ok((w, end)) && w == v && end == pos + n,
                Err(e) => r == Err::<(Self, usize), DecodeError>(e),
            },
            r matches Ok((_, end)) ==> pos <= end <= buf@.len(),
    ;
}

/// Splitting `a + rest` after `a` gives back the two parts.
pub proof fn lemma_concat_take_skip(a: Seq<u8>, rest: Seq<u8>)
    ensures
        (a + rest).take(a.len() as int) == a,
        (a + rest).skip(a.len() as int) == rest,
{
    assert((a + rest).take(a.len() as int) =~= a);
    assert((a + rest).skip(a.len() as int) =~= rest);
}

/// Dropping `i` bytes and then `j` more drops `i + j`.
pub proof fn lemma_skip_skip(s: Seq<u8>, i: int, j: int)
    requires
        0 <= i,
        0 <= j,
        i + j <= s.len(),
    ensures
        s.skip(i).skip(j) == s.skip(i + j),
{
    assert(s.skip(i).skip(j) =~= s.skip(i + j));
}

impl WireFormat for u32 {
    open spec fn spec_encode(&self) -> Seq<u8> {
        spec_u32_to_le_bytes(*self)
    }

    open spec fn spec_parse(s: Seq<u8>) -> Result<(u32, nat), DecodeError> {
        if s.len() < 4 {
            Err(DecodeError::TruncatedInput)
        } else {
            Ok((spec_u32_from_le_bytes(s.take(4)), 4))
        }
    }

    proof fn lemma_parse_encode(&self, rest: Seq<u8>) {
        lemma_auto_spec_u32_to_from_le_bytes();
        lemma_concat_take_skip(self.spec_encode(), rest);
    }

    fn encode(&self, out: &mut Vec<u8>) {
        let mut bytes = u32_to_le_bytes(*self);
        out.append(&mut bytes);
    }

    fn decode(buf: &[u8], pos: usize) -> (r: Result<(u32, usize), DecodeError>) {
        if buf.len() - pos < 4 {
            Err(DecodeError::TruncatedInput)
        } else {
            let x = u32_from_le_bytes(slice_subrange(buf, pos, pos + 4));
            assert(buf@.subrange(pos as int, pos + 4) =~= buf@.skip(pos as int).take(4));
            Ok((x, pos + 4))
        }
    }
}

impl WireFormat for u64 {
    open spec fn spec_encode(&self) -> Seq<u8> {
        spec_u64_to_le_bytes(*self)
    }

    open spec fn spec_parse(s: Seq<u8>) -> Result<(u64, nat), DecodeError> {
        if s.len() < 8 {
            Err(DecodeError::TruncatedInput)
        } else {
            Ok((spec_u64_from_le_bytes(s.take(8)), 8))
        }
    }

    proof fn lemma_parse_encode(&self, rest: Seq<u8>) {
        lemma_auto_spec_u64_to_from_le_bytes();
        lemma_concat_take_skip(self.spec_encode(), rest);
    }

    fn encode(&self, out: &mut Vec<u8>) {
        let mut bytes = u64_to_le_bytes(*self);
        out.append(&mut bytes);
    }

    fn decode(buf: &[u8], pos: usize) -> (r: Result<(u64, usize), DecodeError>) {
        if buf.len() - pos < 8 {
            Err(DecodeError::TruncatedInput)
        } else {
            let x = u64_from_le_bytes(slice_subrange(buf, pos, pos + 8));
            assert(buf@.subrange(pos as int, pos + 8) =~= buf@.skip(pos as int).take(8));
            Ok((x, pos + 8))
        }
    }
}

impl WireFormat for bool {
    open spec fn spec_encode(&self) -> Seq<u8> {
        if *self {
            seq![1u8]
        } else {
            seq![0u8]
        }
    }

    open spec fn spec_parse(s: Seq<u8>) -> Result<(bool, nat), DecodeError> {
        if s.len() < 1 {
            Err(DecodeError::TruncatedInput)
        } else if s[0] == 0 {
            Ok((false, 1))
        } else if s[0] == 1 {
            Ok((true, 1))
        } else {
            Err(DecodeError::InvalidTag { tag: s[0] })
        }
    }

    proof fn lemma_parse_encode(&self, rest: Seq<u8>) {
    }

    fn encode(&self, out: &mut Vec<u8>) {
        if *self {
            out.push(1u8);
        } else {
            out.push(0u8);
        }
        assert(final(out)@ =~= old(out)@ + self.spec_encode());
    }

    fn decode(buf: &[u8], pos: usize) -> (r: Result<(bool, usize), DecodeError>) {
        if pos == buf.len() {
            Err(DecodeError::TruncatedInput)
        } else {
            let tag = buf[pos];
            if tag == 0 {
                Ok((false, pos + 1))
            } else if tag == 1 {
                Ok((true, pos + 1))
            } else {
                Err(DecodeError::InvalidTag { tag })
            }
        }
    }
}

impl WireFormat for Pubkey {
    open spec fn spec_encode(&self) -> Seq<u8> {
        self.0@
    }

    open spec fn spec_parse(s: Seq<u8>) -> Result<(Pubkey, nat), DecodeError> {
        if s.len() < 32 {
            Err(DecodeError::TruncatedInput)
        } else {
            Ok((Pubkey(choose|a: [u8; 32]| a@ == s.take(32)), 32))
        }
    }

    proof fn lemma_parse_encode(&self, rest: Seq<u8>) {
        let s = self.spec_encode() + rest;
        lemma_concat_take_skip(self.0@, rest);
        assert(self.0@ == s.take(32));
        let a = choose|a: [u8; 32]| a@ == s.take(32);
        assert(a =~= self.0);
    }

    fn encode(&self, out: &mut Vec<u8>) {
        let mut i: usize = 0;
        while i < 32
            invariant
                i <= 32,
                out@ == old(out)@ + self.0@.take(i as int),
            decreases 32 - i,
        {
            out.push(self.0[i]);
            assert(self.0@.take(i + 1) =~= self.0@.take(i as int).push(self.0@[i as int]));
            i = i + 1;
        }
        assert(self.0@.take(32) =~= self.0@);
    }

    fn decode(buf: &[u8], pos: usize) -> (r: Result<(Pubkey, usize), DecodeError>) {
        if buf.len() - pos < 32 {
            Err(DecodeError::TruncatedInput)
        } else {
            let mut a = [0u8; 32];
            let mut i: usize = 0;
            while i < 32
                invariant
                    i <= 32,
                    pos + 32 <= buf@.len(),
                    forall|j: int| 0 <= j < i ==> a@[j] == buf@[pos + j],
                decreases 32 - i,
            {
                a[i] = buf[pos + i];
                i = i + 1;
            }
            let ghost s = buf@.skip(pos as int);
            assert(a@ =~= s.take(32));
            let ghost c = choose|c: [u8; 32]| c@ == s.take(32);
            assert(c =~= a);
            Ok((Pubkey(a), pos + 32))
        }
    }
}

impl<T: WireFormat> WireFormat for Option<T> {
    open spec fn spec_encode(&self) -> Seq<u8> {
        match self {
            None => seq![0u8],
            Some(v) => seq![1u8] + v.spec_encode(),
        }
    }

    open spec fn spec_parse(s: Seq<u8>) -> Result<(Option<T>, nat), DecodeError> {
        if s.len() < 1 {
            Err(DecodeError::TruncatedInput)
        } else if s[0] == 0 {
            Ok((None, 1))
        } else if s[0] == 1 {
            match T::spec_parse(s.skip(1)) {
                Ok((v, n)) => Ok((Some(v), n + 1)),
                Err(e) => Err(e),
            }
        } else {
            Err(DecodeError::InvalidTag { tag: s[0] })
        }
    }

    proof fn lemma_parse_encode(&self, rest: Seq<u8>) {
        match self {
            None => {},
            Some(v) => {
                let s = self.spec_encode() + rest;
                assert(s.skip(1) =~= v.spec_encode() + rest);
                v.lemma_parse_encode(rest);
            },
        }
    }

    fn encode(&self, out: &mut Vec<u8>) {
        match self {
            None => {
                out.push(0u8);
                assert(final(out)@ =~= old(out)@ + self.spec_encode());
            },
            Some(v) => {
                out.push(1u8);
                v.encode(out);
                assert(final(out)@ =~= old(out)@ + self.spec_encode());
            },
        }
    }

    fn decode(buf: &[u8], pos: usize) -> (r: Result<(Option<T>, usize), DecodeError>) {
        if pos == buf.len() {
            Err(DecodeError::TruncatedInput)
        } else {
            let tag = buf[pos];
            if tag == 0 {
                Ok((None, pos + 1))
            } else if tag == 1 {
                proof {
                    lemma_skip_skip(buf@, pos as int, 1);
                }
                match T::decode(buf, pos + 1) {
                    Ok((v, end)) => Ok((Some(v), end)),
                    Err(e) => Err(e),
                }
            } else {
                Err(DecodeError::InvalidTag { tag })
            }
        }
    }
}

/// A pair is its first component followed by its second; records are laid
/// out as the nested pairs of their fields.
impl<A: WireFormat, B: WireFormat> WireFormat for (A, B) {
    open spec fn spec_encode(&self) -> Seq<u8> {
        self.0.spec_encode() + self.1.spec_encode()
    }

    open spec fn spec_parse(s: Seq<u8>) -> Result<((A, B), nat), DecodeError> {
        match A::spec_parse(s) {
            Ok((a, n)) => match B::spec_parse(s.skip(n as int)) {
                Ok((b, m)) => Ok(((a, b), n + m)),
                Err(e) => Err(e),
            },
            Err(e) => Err(e),
        }
    }

    proof fn lemma_parse_encode(&self, rest: Seq<u8>) {
        let ea = self.0.spec_encode();
        let eb = self.1.spec_encode();
        assert(ea + eb + rest =~= ea + (eb + rest));
        self.0.lemma_parse_encode(eb + rest);
        lemma_concat_take_skip(ea, eb + rest);
        self.1.lemma_parse_encode(rest);
    }

    fn encode(&self, out: &mut Vec<u8>) {
        self.0.encode(out);
        self.1.encode(out);
        assert(final(out)@ =~= old(out)@ + self.spec_encode());
    }

    fn decode(buf: &[u8], pos: usize) -> (r: Result<((A, B), usize), DecodeError>) {
        match A::decode(buf, pos) {
            Ok((a, mid)) => {
                proof {
                    lemma_skip_skip(buf@, pos as int, mid - pos);
                }
                match B::decode(buf, mid) {
                    Ok((b, end)) => Ok(((a, b), end)),
                    Err(e) => Err(e),
                }
            },
            Err(e) => Err(e),
        }
    }
}

/// The empty payload of an instruction that takes no arguments.
impl WireFormat for () {
    open spec fn spec_encode(&self) -> Seq<u8> {
        Seq::empty()
    }

    open spec fn spec_parse(s: Seq<u8>) -> Result<((), nat), DecodeError> {
        Ok(((), 0))
    }

    proof fn lemma_parse_encode(&self, rest: Seq<u8>) {
    }

    fn encode(&self, out: &mut Vec<u8>) {
        assert(old(out)@ + self.spec_encode() =~= old(out)@);
    }

    fn decode(buf: &[u8], pos: usize) -> (r: Result<((), usize), DecodeError>) {
        Ok(((), pos))
    }
}

/// The array of eight bytes that `s` holds.
pub open spec fn array8(s: Seq<u8>) -> [u8; 8] {
    choose|a: [u8; 8]| a@ == s
}

/// Reading an instruction whose discriminant must be `tag` and whose payload
/// is a `T`. Bytes after the payload are left unread.
pub open spec fn spec_parse_tagged<T: WireFormat>(tag: [u8; 8], s: Seq<u8>) -> Result<
    T,
    DecodeError,
> {
    if s.len() < 8 {
        Err(DecodeError::TruncatedInput)
    } else if s.take(8) != tag@ {
        Err(DecodeError::DiscriminantMismatch { expected: tag, actual: array8(s.take(8)) })
    } else {
        match T::spec_parse(s.skip(8)) {
            Ok((v, _)) => Ok(v),
            Err(e) => Err(e),
        }
    }
}

/// Whether two discriminants are equal.
pub fn discm_eq(a: &[u8; 8], b: &[u8; 8]) -> (r: bool)
    ensures
        r == (a@ == b@),
{
    let mut i: usize = 0;
    while i < 8
        invariant
            i <= 8,
            forall|j: int| 0 <= j < i ==> a@[j] == b@[j],
        decreases 8 - i,
    {
        if a[i] != b[i] {
            return false;
        }
        i = i + 1;
    }
    assert(a@ =~= b@);
    true
}

/// The first eight bytes of `buf`.
pub fn read_discm(buf: &[u8]) -> (r: [u8; 8])
    requires
        buf@.len() >= 8,
    ensures
        r@ == buf@.take(8),
        r == array8(buf@.take(8)),
{
    let mut a = [0u8; 8];
    let mut i: usize = 0;
    while i < 8
        invariant
            i <= 8,
            buf@.len() >= 8,
            forall|j: int| 0 <= j < i ==> a@[j] == buf@[j],
        decreases 8 - i,
    {
        a[i] = buf[i];
        i = i + 1;
    }
    assert(a@ =~= buf@.take(8));
    let ghost c = array8(buf@.take(8));
    assert(c =~= a);
    a
}

/// Reads an instruction whose discriminant must be `tag` and whose payload is a `T`.
pub fn parse_tagged<T: WireFormat>(tag: &[u8; 8], buf: &[u8]) -> (r: Result<T, DecodeError>)
    ensures
        r == spec_parse_tagged::<T>(*tag, buf@),
{
    if buf.len() < 8 {
        return Err(DecodeError::TruncatedInput);
    }
    let actual = read_discm(buf);
    if !discm_eq(&actual, tag) {
        return Err(DecodeError::DiscriminantMismatch { expected: *tag, actual });
    }
    match T::decode(buf, 8) {
        Ok((v, _)) => Ok(v),
        Err(e) => Err(e),
    }
}

/// Appends `tag` and then the payload `args` to `out`.
pub fn write_tagged<T: WireFormat>(tag: &[u8; 8], args: &T, out: &mut Vec<u8>)
    ensures
        final(out)@ == old(out)@ + tag@ + args.spec_encode(),
{
    let mut i: usize = 0;
    while i < 8
        invariant
            i <= 8,
            out@ == old(out)@ + tag@.take(i as int),
        decreases 8 - i,
    {
        out.push(tag[i]);
        assert(tag@.take(i + 1) =~= tag@.take(i as int).push(tag@[i as int]));
        i = i + 1;
    }
    assert(tag@.take(8) =~= tag@);
    args.encode(out);
}

/// Reading back a written instruction gives its payload, whatever bytes follow it.
pub proof fn lemma_tagged_round_trip<T: WireFormat>(tag: [u8; 8], args: T, rest: Seq<u8>)
    ensures
        spec_parse_tagged::<T>(tag, tag@ + args.spec_encode() + rest) == Ok::<T, DecodeError>(args),
{
    let s = tag@ + args.spec_encode() + rest;
    assert(s =~= tag@ + (args.spec_encode() + rest));
    lemma_concat_take_skip(tag@, args.spec_encode() + rest);
    args.lemma_parse_encode(rest);
}

} // verus!
