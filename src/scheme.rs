use vstd::prelude::*;
use crate::error::Error;

verus! {

/// Algorithm identifier of the null algorithm: no scheme.
pub const TPM2_ALG_NULL: u16 = 0x0010;
/// Algorithm identifier of the RSAES-PKCS1-v1_5 padding scheme.
pub const TPM2_ALG_RSAES: u16 = 0x0015;
/// Algorithm identifier of the OAEP padding scheme.
pub const TPM2_ALG_OAEP: u16 = 0x0017;

/// The hash algorithms a scheme may name.
#[derive(Debug, Clone, Copy, PartialEq, Eq, Structural)]
pub enum HashingAlgorithm {
    Sha1,
    Sha256,
    Sha384,
    Sha512,
    Sm3_256,
    Sha3_256,
    Sha3_384,
    Sha3_512,
}

/// The device's identifier of each hash algorithm.
pub open spec fn hash_alg_id(h: HashingAlgorithm) -> u16 {
    match h {
        HashingAlgorithm::Sha1 => 0x0004,
        HashingAlgorithm::Sha256 => 0x000B,
        HashingAlgorithm::Sha384 => 0x000C,
        HashingAlgorithm::Sha512 => 0x000D,
        HashingAlgorithm::Sm3_256 => 0x0012,
        HashingAlgorithm::Sha3_256 => 0x0027,
        HashingAlgorithm::Sha3_384 => 0x0028,
        HashingAlgorithm::Sha3_512 => 0x0029,
    }
}

/// The hash algorithm that an identifier names, if any.
pub open spec fn hash_alg_of_id(id: u16) -> Option<HashingAlgorithm> {
    if id == 0x0004 {
        Some(HashingAlgorithm::Sha1)
    } else if id == 0x000B {
        Some(HashingAlgorithm::Sha256)
    } else if id == 0x000C {
        Some(HashingAlgorithm::Sha384)
    } else if id == 0x000D {
        Some(HashingAlgorithm::Sha512)
    } else if id == 0x0012 {
        Some(HashingAlgorithm::Sm3_256)
    } else if id == 0x0027 {
        Some(HashingAlgorithm::Sha3_256)
    } else if id == 0x0028 {
        Some(HashingAlgorithm::Sha3_384)
    } else if id == 0x0029 {
        Some(HashingAlgorithm::Sha3_512)
    } else {
        None
    }
}

impl HashingAlgorithm {
    pub fn id(&self) -> (r: u16)
        ensures
            r == hash_alg_id(*self),
    {
        match self {
            HashingAlgorithm::Sha1 => 0x0004,
            HashingAlgorithm::Sha256 => 0x000B,
            HashingAlgorithm::Sha384 => 0x000C,
            HashingAlgorithm::Sha512 => 0x000D,
            HashingAlgorithm::Sm3_256 => 0x0012,
            HashingAlgorithm::Sha3_256 => 0x0027,
            HashingAlgorithm::Sha3_384 => 0x0028,
            HashingAlgorithm::Sha3_512 => 0x0029,
        }
    }

    pub fn from_id(id: u16) -> (r: Option<HashingAlgorithm>)
        ensures
            r == hash_alg_of_id(id),
    {
        if id == 0x0004 {
            Some(HashingAlgorithm::Sha1)
        } else if id == 0x000B {
            Some(HashingAlgorithm::Sha256)
        } else if id == 0x000C {
            Some(HashingAlgorithm::Sha384)
        } else if id == 0x000D {
            Some(HashingAlgorithm::Sha512)
        } else if id == 0x0012 {
            Some(HashingAlgorithm::Sm3_256)
        } else if id == 0x0027 {
            Some(HashingAlgorithm::Sha3_256)
        } else if id == 0x0028 {
            Some(HashingAlgorithm::Sha3_384)
        } else if id == 0x0029 {
            Some(HashingAlgorithm::Sha3_512)
        } else {
            None
        }
    }
}

/// The padding scheme of an RSA encryption or decryption.
#[derive(Debug, Clone, Copy, PartialEq, Eq, Structural)]
pub enum RsaDecryptionScheme {
    RsaEs,
    Oaep(HashingAlgorithm),
    /// No padding scheme.
    Null,
}

/// The scheme as the device lays it out: a tag and, for OAEP, the hash
/// algorithm; zero where the scheme has no parameter.
#[derive(Debug, Clone, Copy, PartialEq, Eq, Structural)]
pub struct RsaDecryptRecord {
    pub scheme: u16,
    pub details: u16,
}

/// The record that a scheme encodes to.
pub open spec fn scheme_record(s: RsaDecryptionScheme) -> RsaDecryptRecord {
    match s {
        RsaDecryptionScheme::RsaEs => RsaDecryptRecord { scheme: TPM2_ALG_RSAES, details: 0 },
        RsaDecryptionScheme::Oaep(h) => RsaDecryptRecord { scheme: TPM2_ALG_OAEP, details: hash_alg_id(h) },
        RsaDecryptionScheme::Null => RsaDecryptRecord { scheme: TPM2_ALG_NULL, details: 0 },
    }
}

/// The scheme that a record stands for, if it is one the device recognises.
pub open spec fn scheme_of_record(r: RsaDecryptRecord) -> Option<RsaDecryptionScheme> {
    if r.scheme == TPM2_ALG_RSAES {
        Some(RsaDecryptionScheme::RsaEs)
    } else if r.scheme == TPM2_ALG_NULL {
        Some(RsaDecryptionScheme::Null)
    } else if r.scheme == TPM2_ALG_OAEP {
        match hash_alg_of_id(r.details) {
            Some(h) => Some(RsaDecryptionScheme::Oaep(h)),
            None => None,
        }
    } else {
        None
    }
}

impl RsaDecryptionScheme {
    pub fn to_record(&self) -> (r: RsaDecryptRecord)
        ensures
            r == scheme_record(*self),
    {
        match self {
            RsaDecryptionScheme::RsaEs => RsaDecryptRecord { scheme: TPM2_ALG_RSAES, details: 0 },
            RsaDecryptionScheme::Oaep(h) => RsaDecryptRecord { scheme: TPM2_ALG_OAEP, details: h.id() },
            RsaDecryptionScheme::Null => RsaDecryptRecord { scheme: TPM2_ALG_NULL, details: 0 },
        }
    }

    /// Reads a record back; a tag or hash algorithm the device does not
    /// define is malformed.
    pub fn from_record(r: &RsaDecryptRecord) -> (res: Result<RsaDecryptionScheme, Error>)
        ensures
            res is Ok <==> scheme_of_record(*r) is Some,
            res is Ok ==> Some(res->Ok_0) == scheme_of_record(*r),
            res is Err ==> res == Err::<RsaDecryptionScheme, Error>(Error::MalformedResponse),
    {
        if r.scheme == TPM2_ALG_RSAES {
            Ok(RsaDecryptionScheme::RsaEs)
        } else if r.scheme == TPM2_ALG_NULL {
            Ok(RsaDecryptionScheme::Null)
        } else if r.scheme == TPM2_ALG_OAEP {
            match HashingAlgorithm::from_id(r.details) {
                Some(h) => Ok(RsaDecryptionScheme::Oaep(h)),
                None => Err(Error::MalformedResponse),
            }
        } else {
            Err(Error::MalformedResponse)
        }
    }
}

/// Every scheme reads back from its record as itself.
pub proof fn lemma_scheme_round_trip(s: RsaDecryptionScheme)
    ensures
        scheme_of_record(scheme_record(s)) == Some(s),
{
}

/// Distinct schemes encode to distinct records.
pub proof fn lemma_scheme_record_injective(s: RsaDecryptionScheme, t: RsaDecryptionScheme)
    requires
        scheme_record(s) == scheme_record(t),
    ensures
        s == t,
{
    lemma_scheme_round_trip(s);
    lemma_scheme_round_trip(t);
}

} // verus!
