//! The XDR byte forms the contracts sign and exchange: big-endian `u64`s and
//! addresses encoded as `ScVal::Address`.
use vstd::prelude::*;
use crate::address::Address;

verus! {

/// The 8 big-endian bytes of `x`.
pub open spec fn u64_be(x: u64) -> Seq<u8> {
    Seq::new(8, |i: int| ((x >> ((7 - i) * 8) as u64) & 0xff) as u8)
}

/// The `u64` whose big-endian bytes start `b` at `at`.
pub open spec fn u64_from_be(b: Seq<u8>, at: int) -> u64 {
    ((b[at] as u64) << 56u64) | ((b[at + 1] as u64) << 48u64) | ((b[at + 2] as u64) << 40u64) | ((b[at + 3] as u64)
        << 32u64) | ((b[at + 4] as u64) << 24u64) | ((b[at + 5] as u64) << 16u64) | ((b[at + 6] as u64) << 8u64)
        | (b[at + 7] as u64)
}

/// The XDR header of an address: the `ScVal` tag of addresses, then the
/// account tag with the Ed25519 key type, or the contract tag.
pub open spec fn address_header(is_contract: bool) -> Seq<u8> {
    if is_contract {
        seq![0u8, 0u8, 0u8, 18u8, 0u8, 0u8, 0u8, 1u8]
    } else {
        seq![0u8, 0u8, 0u8, 18u8, 0u8, 0u8, 0u8, 0u8, 0u8, 0u8, 0u8, 0u8]
    }
}

/// The XDR encoding of `a`: its header followed by the 32 key bytes.
pub open spec fn address_xdr(a: Address) -> Seq<u8> {
    address_header(a.is_contract) + u64_be(a.key0) + u64_be(a.key1) + u64_be(a.key2) + u64_be(a.key3)
}

/// The length and header of an encoded address.
pub proof fn lemma_address_xdr_shape(a: Address)
    ensures
        address_header(true).len() == 8,
        address_header(false).len() == 12,
        address_xdr(a).len() == address_header(a.is_contract).len() + 32,
        address_xdr(a).subrange(0, address_header(a.is_contract).len() as int) == address_header(a.is_contract),
{
    let h = address_header(a.is_contract);
    let x = address_xdr(a);
    assert(x.subrange(0, h.len() as int) =~= h);
}

/// Reading back the bytes of a `u64` gives the `u64`.
pub proof fn lemma_u64_be_round_trip(x: u64)
    ensures
        u64_from_be(u64_be(x), 0) == x,
{
    let b = u64_be(x);
    let (b0, b1, b2, b3, b4, b5, b6, b7) = (b[0], b[1], b[2], b[3], b[4], b[5], b[6], b[7]);
    assert(b0 == ((x >> 56u64) & 0xff) as u8 && b1 == ((x >> 48u64) & 0xff) as u8 && b2 == ((x >> 40u64) & 0xff) as u8
        && b3 == ((x >> 32u64) & 0xff) as u8 && b4 == ((x >> 24u64) & 0xff) as u8 && b5 == ((x >> 16u64) & 0xff) as u8
        && b6 == ((x >> 8u64) & 0xff) as u8 && b7 == ((x >> 0u64) & 0xff) as u8);
    assert(((b0 as u64) << 56u64) | ((b1 as u64) << 48u64) | ((b2 as u64) << 40u64) | ((b3 as u64) << 32u64) | ((b4 as u64)
        << 24u64) | ((b5 as u64) << 16u64) | ((b6 as u64) << 8u64) | (b7 as u64) == x) by (bit_vector)
        requires
            b0 == ((x >> 56u64) & 0xff) as u8,
            b1 == ((x >> 48u64) & 0xff) as u8,
            b2 == ((x >> 40u64) & 0xff) as u8,
            b3 == ((x >> 32u64) & 0xff) as u8,
            b4 == ((x >> 24u64) & 0xff) as u8,
            b5 == ((x >> 16u64) & 0xff) as u8,
            b6 == ((x >> 8u64) & 0xff) as u8,
            b7 == ((x >> 0u64) & 0xff) as u8,
    ;
}

/// Any 8 bytes are the big-endian bytes of the `u64` they spell.
pub proof fn lemma_be_bytes_round_trip(b: Seq<u8>, at: int)
    requires
        0 <= at,
        at + 8 <= b.len(),
    ensures
        u64_be(u64_from_be(b, at)) == b.subrange(at, at + 8),
{
    let x = u64_from_be(b, at);
    let (b0, b1, b2, b3, b4, b5, b6, b7) = (b[at], b[at + 1], b[at + 2], b[at + 3], b[at + 4], b[at + 5], b[at + 6], b[at + 7]);
    assert(((x >> 56u64) & 0xff) as u8 == b0 && ((x >> 48u64) & 0xff) as u8 == b1 && ((x >> 40u64) & 0xff) as u8 == b2
        && ((x >> 32u64) & 0xff) as u8 == b3 && ((x >> 24u64) & 0xff) as u8 == b4 && ((x >> 16u64) & 0xff) as u8 == b5
        && ((x >> 8u64) & 0xff) as u8 == b6 && ((x >> 0u64) & 0xff) as u8 == b7) by (bit_vector)
        requires
            x == ((b0 as u64) << 56u64) | ((b1 as u64) << 48u64) | ((b2 as u64) << 40u64) | ((b3 as u64) << 32u64) | ((b4
                as u64) << 24u64) | ((b5 as u64) << 16u64) | ((b6 as u64) << 8u64) | (b7 as u64),
    ;
    assert(u64_be(x) =~= b.subrange(at, at + 8));
}

/// Appends `src` to `out`.
pub fn append_bytes(out: &mut Vec<u8>, src: &Vec<u8>)
    ensures
        final(out)@ == old(out)@ + src@,
{
    let mut i: usize = 0;
    while i < src.len()
        invariant
            0 <= i <= src@.len(),
            out@ == old(out)@ + src@.subrange(0, i as int),
        decreases src@.len() - i,
    {
        out.push(src[i]);
        i = i + 1;
    }
    assert(src@.subrange(0, src@.len() as int) =~= src@);
}

/// Appends the big-endian bytes of `x` to `out`.
pub fn append_u64_be(out: &mut Vec<u8>, x: u64)
    ensures
        final(out)@ == old(out)@ + u64_be(x),
{
    let mut i: u64 = 0;
    while i < 8
        invariant
            0 <= i <= 8,
            out@ == old(out)@ + u64_be(x).subrange(0, i as int),
        decreases 8 - i,
    {
        let shift: u64 = (7 - i) * 8;
        out.push(((x >> shift) & 0xff) as u8);
        proof {
            assert(u64_be(x).subrange(0, i + 1) =~= u64_be(x).subrange(0, i as int).push(((x >> shift) & 0xff) as u8));
        }
        i = i + 1;
    }
    assert(u64_be(x).subrange(0, 8) =~= u64_be(x));
}

/// Reads the big-endian `u64` at `at` in `b`.
pub fn read_u64_be(b: &Vec<u8>, at: usize) -> (r: u64)
    requires
        at + 8 <= b.len(),
    ensures
        r == u64_from_be(b@, at as int),
{
    ((b[at] as u64) << 56u64) | ((b[at + 1] as u64) << 48u64) | ((b[at + 2] as u64) << 40u64) | ((b[at + 3] as u64) << 32u64)
        | ((b[at + 4] as u64) << 24u64) | ((b[at + 5] as u64) << 16u64) | ((b[at + 6] as u64) << 8u64) | (b[at
        + 7] as u64)
}

impl Address {
    /// The XDR encoding of the address (see [`address_xdr`]).
    pub fn to_xdr(&self) -> (r: Vec<u8>)
        ensures
            r@ == address_xdr(*self),
    {
        let mut out: Vec<u8> = if self.is_contract {
            vec![0u8, 0u8, 0u8, 18u8, 0u8, 0u8, 0u8, 1u8]
        } else {
            vec![0u8, 0u8, 0u8, 18u8, 0u8, 0u8, 0u8, 0u8, 0u8, 0u8, 0u8, 0u8]
        };
        assert(out@ =~= address_header(self.is_contract));
        append_u64_be(&mut out, self.key0);
        append_u64_be(&mut out, self.key1);
        append_u64_be(&mut out, self.key2);
        append_u64_be(&mut out, self.key3);
        out
    }

    /// Decodes an XDR-encoded address; `None` when `bytes` encode none.
    pub fn from_xdr(bytes: &Vec<u8>) -> (r: Option<Address>)
        ensures
            match r {
                Some(a) => address_xdr(a) == bytes@,
                None => forall|a: Address| address_xdr(a) != bytes@,
            },
    {
        let n = bytes.len();
        let is_contract = if n == 40 {
            true
        } else if n == 44 {
            false
        } else {
            proof {
                assert forall|a: Address| address_xdr(a) != bytes@ by {
                    lemma_address_xdr_shape(a);
                }
            }
            return None;
        };
        let header_len: usize = if is_contract { 8 } else { 12 };
        let expected: Vec<u8> = if is_contract {
            vec![0u8, 0u8, 0u8, 18u8, 0u8, 0u8, 0u8, 1u8]
        } else {
            vec![0u8, 0u8, 0u8, 18u8, 0u8, 0u8, 0u8, 0u8, 0u8, 0u8, 0u8, 0u8]
        };
        assert(expected@ =~= address_header(is_contract));
        proof {
            lemma_address_xdr_shape(Address { is_contract, key0: 0, key1: 0, key2: 0, key3: 0 });
        }
        let mut i: usize = 0;
        while i < header_len
            invariant
                header_len == expected@.len(),
                expected@ == address_header(is_contract),
                is_contract <==> n == 40,
                n == 40 || n == 44,
                address_header(true).len() == 8,
                address_header(false).len() == 12,
                n == bytes@.len(),
                header_len < n,
                0 <= i <= header_len,
                forall|j: int| 0 <= j < i ==> bytes@[j] == expected@[j],
            decreases header_len - i,
        {
            if bytes[i] != expected[i] {
                proof {
                    assert forall|a: Address| address_xdr(a) != bytes@ by {
                        lemma_address_xdr_shape(a);
                        if address_xdr(a) == bytes@ {
                            assert(a.is_contract == is_contract);
                            let h = address_header(is_contract);
                            assert(address_xdr(a).subrange(0, h.len() as int)[i as int] == h[i as int]);
                        }
                    }
                }
                return None;
            }
            i = i + 1;
        }
        let a = Address {
            is_contract,
            key0: read_u64_be(bytes, header_len),
            key1: read_u64_be(bytes, header_len + 8),
            key2: read_u64_be(bytes, header_len + 16),
            key3: read_u64_be(bytes, header_len + 24),
        };
        proof {
            let b = bytes@;
            let h = header_len as int;
            lemma_be_bytes_round_trip(b, h);
            lemma_be_bytes_round_trip(b, h + 8);
            lemma_be_bytes_round_trip(b, h + 16);
            lemma_be_bytes_round_trip(b, h + 24);
            assert(b.subrange(0, h) =~= address_header(is_contract));
            assert(b =~= b.subrange(0, h) + b.subrange(h, h + 8) + b.subrange(h + 8, h + 16) + b.subrange(h + 16, h + 24)
                + b.subrange(h + 24, h + 32));
        }
        Some(a)
    }
}

/// The encoding is 40 or 44 bytes long and injective: no two addresses share
/// an encoding. With [`Address::from_xdr`], which returns an address whose
/// encoding is the input, decoding an encoded address gives it back.
pub proof fn law_address_xdr_round_trip(a: Address)
    ensures
        address_xdr(a).len() == (if a.is_contract { 40int } else { 44int }),
        forall|b: Address| address_xdr(b) == address_xdr(a) ==> b == a,
{
    assert forall|b: Address| address_xdr(b) == address_xdr(a) implies b == a by {
        let s = address_xdr(a);
        let h = address_header(a.is_contract).len() as int;
        lemma_address_xdr_shape(a);
        lemma_address_xdr_shape(b);
        assert(b.is_contract == a.is_contract);
        assert(s.subrange(h, h + 8) =~= u64_be(a.key0));
        assert(address_xdr(b).subrange(h, h + 8) =~= u64_be(b.key0));
        assert(s.subrange(h + 8, h + 16) =~= u64_be(a.key1));
        assert(address_xdr(b).subrange(h + 8, h + 16) =~= u64_be(b.key1));
        assert(s.subrange(h + 16, h + 24) =~= u64_be(a.key2));
        assert(address_xdr(b).subrange(h + 16, h + 24) =~= u64_be(b.key2));
        assert(s.subrange(h + 24, h + 32) =~= u64_be(a.key3));
        assert(address_xdr(b).subrange(h + 24, h + 32) =~= u64_be(b.key3));
        lemma_u64_be_round_trip(a.key0);
        lemma_u64_be_round_trip(b.key0);
        lemma_u64_be_round_trip(a.key1);
        lemma_u64_be_round_trip(b.key1);
        lemma_u64_be_round_trip(a.key2);
        lemma_u64_be_round_trip(b.key2);
        lemma_u64_be_round_trip(a.key3);
        lemma_u64_be_round_trip(b.key3);
    }
}

} // verus!
