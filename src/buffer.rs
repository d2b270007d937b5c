use vstd::prelude::*;
use crate::error::Error;

verus! {

/// Largest RSA modulus, in bytes, that the device's wire records carry.
pub const MAX_RSA_KEY_BYTES: usize = 512;

/// Capacity of the device's auxiliary data record: the size of the largest digest.
pub const MAX_DATA_BYTES: usize = 64;

/// A fixed-capacity record as the device interface lays it out: a reported
/// length and a buffer of `N` bytes, of which the first `size` are meant.
#[derive(Debug, Clone, Copy)]
pub struct SizedRecord<const N: usize> {
    pub size: u16,
    pub buffer: [u8; N],
}

/// Whether a byte sequence fits an owned buffer of capacity `cap`: its length
/// is within the capacity and can be reported in a record's 16-bit length.
pub open spec fn fits(s: Seq<u8>, cap: nat) -> bool {
    s.len() <= cap && s.len() <= u16::MAX
}

/// `rec` encodes `s`: it reports the length of `s`, starts with its bytes and
/// is zero after them.
pub open spec fn encodes<const N: usize>(rec: SizedRecord<N>, s: Seq<u8>) -> bool {
    &&& rec.size as int == s.len()
    &&& s.len() <= N
    &&& rec.buffer@.take(s.len() as int) == s
    &&& forall|i: int| s.len() <= i < N ==> rec.buffer@[i] == 0
}

/// What a record decodes to: its first `size` bytes, or nothing where it
/// reports a length beyond its capacity.
pub open spec fn decoded<const N: usize>(rec: SizedRecord<N>) -> Option<Seq<u8>> {
    if rec.size as int <= N {
        Some(rec.buffer@.take(rec.size as int))
    } else {
        None
    }
}

/// An owned byte sequence of at most `N` bytes.
#[derive(Debug)]
pub struct BoundedBuffer<const N: usize> {
    bytes: Vec<u8>,
}

/// A message or cipher text for an RSA key of up to 4096 bits.
pub type PublicKeyRsa = BoundedBuffer<512>;

/// An auxiliary label bound into a scheme.
pub type Data = BoundedBuffer<64>;

impl<const N: usize> View for BoundedBuffer<N> {
    type V = Seq<u8>;

    closed spec fn view(&self) -> Seq<u8> {
        self.bytes@
    }
}

impl<const N: usize> BoundedBuffer<N> {
    #[verifier::type_invariant]
    spec fn within_capacity(self) -> bool {
        fits(self.bytes@, N as nat)
    }

    /// Takes ownership of `bytes`; fails where they do not fit the capacity.
    pub fn new(bytes: Vec<u8>) -> (r: Result<Self, Error>)
        ensures
            r is Ok <==> fits(bytes@, N as nat),
            r is Ok ==> r->Ok_0@ == bytes@,
            r is Err ==> r == Err::<Self, Error>(Error::InvalidInput),
    {
        if bytes.len() <= N && bytes.len() <= 0xffff {
            Ok(BoundedBuffer { bytes })
        } else {
            Err(Error::InvalidInput)
        }
    }

    /// The empty buffer.
    pub fn empty() -> (r: Self)
        ensures
            r@ == Seq::<u8>::empty(),
    {
        BoundedBuffer { bytes: Vec::new() }
    }

    /// The length; every buffer fits its capacity.
    pub fn len(&self) -> (r: usize)
        ensures
            r == self@.len(),
            fits(self@, N as nat),
    {
        proof {
            use_type_invariant(self);
        }
        self.bytes.len()
    }

    pub fn as_bytes(&self) -> (r: &Vec<u8>)
        ensures
            r@ == self@,
    {
        &self.bytes
    }

    /// Gives the bytes back.
    pub fn into_bytes(self) -> (r: Vec<u8>)
        ensures
            r@ == self@,
    {
        self.bytes
    }

    /// Lays the bytes out in the device's fixed-capacity record, zero after them.
    pub fn to_record(&self) -> (r: SizedRecord<N>)
        ensures
            encodes(r, self@),
    {
        proof {
            use_type_invariant(self);
        }
        let n = self.bytes.len();
        let mut buffer: [u8; N] = [0u8; N];
        let mut i: usize = 0;
        while i < n
            invariant
                n == self.bytes@.len(),
                n <= N,
                0 <= i <= n,
                forall|j: int| 0 <= j < i ==> buffer@[j] == self.bytes@[j],
                forall|j: int| n <= j < N ==> buffer@[j] == 0,
            decreases n - i,
        {
            buffer[i] = self.bytes[i];
            i = i + 1;
        }
        assert(buffer@.take(n as int) =~= self.bytes@);
        SizedRecord { size: n as u16, buffer }
    }

    /// Reads a record back, refusing one that reports an impossible length.
    pub fn from_record(rec: &SizedRecord<N>) -> (r: Result<Self, Error>)
        ensures
            r is Ok <==> decoded(*rec) is Some,
            r is Ok ==> Some(r->Ok_0@) == decoded(*rec),
            r is Err ==> r == Err::<Self, Error>(Error::MalformedResponse),
    {
        let n = rec.size as usize;
        if n > N {
            return Err(Error::MalformedResponse);
        }
        let mut bytes: Vec<u8> = Vec::with_capacity(n);
        let mut i: usize = 0;
        while i < n
            invariant
                n == rec.size as int,
                n <= N,
                0 <= i <= n,
                bytes@ == rec.buffer@.take(i as int),
            decreases n - i,
        {
            bytes.push(rec.buffer[i]);
            i = i + 1;
            assert(bytes@ =~= rec.buffer@.take(i as int));
        }
        Ok(BoundedBuffer { bytes })
    }
}

/// Decoding a record that encodes a fitting byte sequence gives that sequence back.
pub proof fn lemma_round_trip<const N: usize>(b: Seq<u8>, rec: SizedRecord<N>)
    requires
        fits(b, N as nat),
        encodes(rec, b),
    ensures
        decoded(rec) == Some(b),
{
}

} // verus!
