use vstd::prelude::*;

verus! {

/// The order of the secp256k1 group.
pub open spec fn curve_order() -> int {
    0xFFFF_FFFF_FFFF_FFFF_FFFF_FFFF_FFFF_FFFEu128 as int * 0x1_0000_0000_0000_0000u128 as int
        * 0x1_0000_0000_0000_0000u128 as int + 0xBAAE_DCE6_AF48_A03B_BFD2_5E8C_D036_4141u128 as int
}

/// The integer that a big-endian byte string denotes.
pub open spec fn be_value(s: Seq<u8>) -> int
    decreases s.len(),
{
    if s.len() == 0 {
        0
    } else {
        be_value(s.drop_last()) * 256 + s.last() as int
    }
}

/// Thirty-two big-endian bytes of a nonzero scalar below the group order.
pub open spec fn valid_scalar(s: Seq<u8>) -> bool {
    s.len() == 32 && 0 < be_value(s) < curve_order()
}

/// Failures of secret-key handling.
#[derive(Clone, Copy, Debug, PartialEq, Eq, Structural)]
pub enum KeyError {
    /// The bytes are not a valid secret scalar.
    InvalidSecretKey,
    /// The multiplier is not a valid scalar.
    InvalidTweak,
}

/// The declared error of the secp256k1 library.
#[verifier::external_type_specification]
#[verifier::external_body]
pub struct ExSecpError(bitcoin::secp256k1::Error);

/// Relies on `secp256k1::SecretKey::from_slice`, which accepts 32 bytes
/// of a nonzero scalar below the group order.
#[verifier::external_body]
fn scalar_is_valid(data: &[u8]) -> (r: bool)
    ensures
        r == valid_scalar(data@),
{
    bitcoin::secp256k1::SecretKey::from_slice(data).is_ok()
}

/// Relies on `secp256k1::SecretKey::mul_assign`: the key times the tweak
/// modulo the group order, refused when the tweak is zero or not below
/// the order.
#[verifier::external_body]
fn scalar_mul(key: &[u8; 32], tweak: &[u8; 32]) -> (r: Result<[u8; 32], bitcoin::secp256k1::Error>)
    requires
        valid_scalar(key@),
    ensures
        r is Ok <==> valid_scalar(tweak@),
        r matches Ok(b) ==> valid_scalar(b@) && be_value(b@) == be_value(key@) * be_value(tweak@)
            % curve_order(),
{
    let mut k = bitcoin::secp256k1::SecretKey::from_slice(key)?;
    k.mul_assign(tweak)?;
    Ok(*k.as_ref())
}

/// A secp256k1 secret key: a nonzero scalar below the group order. It is
/// neither copied nor printed; [`SecretKey::secret_bytes`] hands out its
/// bytes.
pub struct SecretKey {
    bytes: [u8; 32],
}

impl View for SecretKey {
    type V = int;

    /// The scalar of the key.
    closed spec fn view(&self) -> int {
        be_value(self.bytes@)
    }
}

impl SecretKey {
    #[verifier::type_invariant]
    spec fn inv(&self) -> bool {
        valid_scalar(self.bytes@)
    }

    /// The key whose big-endian bytes are `data`.
    pub fn from_slice(data: &[u8]) -> (r: Result<SecretKey, KeyError>)
        ensures
            r is Ok <==> valid_scalar(data@),
            r matches Ok(k) ==> k@ == be_value(data@),
            r matches Err(e) ==> e == KeyError::InvalidSecretKey,
    {
        if !scalar_is_valid(data) {
            return Err(KeyError::InvalidSecretKey);
        }
        let mut bytes = [0u8; 32];
        let mut i: usize = 0;
        while i < 32
            invariant
                data@.len() == 32,
                i <= 32,
                bytes@.len() == 32,
                forall|j: int| 0 <= j < i ==> bytes@[j] == data@[j],
            decreases 32 - i,
        {
            bytes[i] = data[i];
            i += 1;
        }
        assert(bytes@ =~= data@);
        Ok(SecretKey { bytes })
    }

    /// The 32 big-endian bytes of the key.
    pub fn secret_bytes(&self) -> (r: [u8; 32])
        ensures
            be_value(r@) == self@,
            valid_scalar(r@),
    {
        proof {
            use_type_invariant(self);
        }
        self.bytes
    }

}

/// The one-time secret key of a deposit: the vault's key times the issue
/// key, modulo the group order.
pub fn calculate_deposit_secret_key(vault_key: SecretKey, issue_key: SecretKey) -> (r: Result<
    SecretKey,
    KeyError,
>)
    ensures
        r matches Ok(d) && d@ == vault_key@ * issue_key@ % curve_order(),
{
    proof {
        use_type_invariant(&vault_key);
        use_type_invariant(&issue_key);
    }
    match scalar_mul(&vault_key.bytes, &issue_key.bytes) {
        Ok(bytes) => Ok(SecretKey { bytes }),
        Err(_) => Err(KeyError::InvalidTweak),
    }
}

/// The deposit key does not depend on which of the two keys is the
/// vault's: deriving from `(v, c)` and from `(c, v)` gives the same scalar.
pub proof fn lemma_deposit_key_symmetric(
    v: SecretKey,
    c: SecretKey,
    vc: Result<SecretKey, KeyError>,
    cv: Result<SecretKey, KeyError>,
)
    requires
        call_ensures(calculate_deposit_secret_key, (v, c), vc),
        call_ensures(calculate_deposit_secret_key, (c, v), cv),
    ensures
        vc is Ok && cv is Ok && vc->Ok_0@ == cv->Ok_0@,
{
    assert(v@ * c@ == c@ * v@) by (nonlinear_arith);
}

} // verus!
