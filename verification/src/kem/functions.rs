//! The KEM operations as OpenSSL calls them: the caller hands buffers by
//! pointer and length, and a call with a null output buffer asks for the
//! sizes the output buffers need.

use vstd::prelude::*;
use crate::error::Error;
use crate::kem::traits::Decapsulate;
use crate::kem::x25519mlkem768::{
    spec_decapsulate, spec_encapsulation_outcome, KemContext, EC_CIPHERTEXT_LEN, EC_SHARED_SECRET_LEN, MLKEM_CIPHERTEXT_LEN,
    MLKEM_SHARED_SECRET_LEN,
};

verus! {

/// A caller's input buffer: whether its pointer is null, and its length.
#[derive(Debug, Clone, Copy)]
pub struct InBuffer {
    pub is_null: bool,
    pub len: usize,
}

/// A caller's output buffer: whether its pointer is null, and the length
/// its length pointer holds (`None` when that pointer is null).
#[derive(Debug, Clone, Copy)]
pub struct OutBuffer {
    pub is_null: bool,
    pub len: Option<usize>,
}

/// The length of an input buffer that can be read: its pointer must not be
/// null and its length not zero.
pub fn u8_slice_try_from_raw_parts(buf: InBuffer) -> (r: Result<usize, Error>)
    ensures
        r == u8_slice_ok(buf),
{
    if buf.is_null {
        return Err(Error::NullPointer);
    }
    if buf.len == 0 {
        return Err(Error::ZeroLength);
    }
    Ok(buf.len)
}

/// The length of an output buffer that can be written: neither its pointer
/// nor its length pointer may be null, and its length not zero.
pub fn u8_mut_slice_try_from_raw_parts(buf: OutBuffer) -> (r: Result<usize, Error>)
    ensures
        r == u8_mut_slice_ok(buf),
{
    if buf.is_null {
        return Err(Error::NullPointer);
    }
    let len = match buf.len {
        Some(n) => n,
        None => {
            return Err(Error::NullPointer);
        },
    };
    if len == 0 {
        return Err(Error::ZeroLength);
    }
    Ok(len)
}

/// The answer to an encapsulation or decapsulation call.
pub enum KemAnswer {
    /// The sizes the output buffers need: ciphertext (zero for a
    /// decapsulation) and shared secret.
    Sizes { ct_len: usize, ss_len: usize },
    /// What to write into the output buffers: the ciphertext (empty for a
    /// decapsulation) and the shared secret.
    Output { ct: Vec<u8>, ss: Vec<u8> },
}

/// Whether an encapsulation call asks for sizes: a null ciphertext buffer
/// with both length pointers given.
pub open spec fn encapsulate_asks_sizes(out: OutBuffer, secret: OutBuffer) -> bool {
    out.is_null && out.len is Some && secret.len is Some
}

/// Whether a decapsulation call asks for sizes: a null secret buffer with
/// its length pointer given.
pub open spec fn decapsulate_asks_sizes(out: OutBuffer) -> bool {
    out.is_null && out.len is Some
}

/// Encapsulates to the context's peer key pair into the buffers `out`
/// (ciphertext) and `secret` (shared secret), or answers their sizes. The
/// buffers must be writable; they must have exactly the sizes of the
/// ciphertext and the secret (a shorter or longer buffer is not written).
pub fn encapsulate(ctx: &KemContext, out: OutBuffer, secret: OutBuffer) -> (r: Result<KemAnswer, Error>)
    requires
        encapsulate_asks_sizes(out, secret) ==> ctx.peer_keypair is Some,
        !encapsulate_asks_sizes(out, secret) && ctx.peer_keypair is Some && u8_mut_slice_ok(out) is Ok
            && u8_mut_slice_ok(secret) is Ok ==> u8_mut_slice_ok(out)->Ok_0 == MLKEM_CIPHERTEXT_LEN
            + EC_CIPHERTEXT_LEN && u8_mut_slice_ok(secret)->Ok_0 == MLKEM_SHARED_SECRET_LEN + EC_SHARED_SECRET_LEN,
    ensures
        encapsulate_asks_sizes(out, secret) ==> (r matches Ok(KemAnswer::Sizes { ct_len, ss_len }) && ct_len
            == MLKEM_CIPHERTEXT_LEN + EC_CIPHERTEXT_LEN && ss_len == MLKEM_SHARED_SECRET_LEN
            + EC_SHARED_SECRET_LEN),
        !encapsulate_asks_sizes(out, secret) ==> {
            &&& u8_mut_slice_ok(out) is Err ==> r == Err::<KemAnswer, Error>(u8_mut_slice_ok(out)->Err_0)
            &&& u8_mut_slice_ok(out) is Ok && u8_mut_slice_ok(secret) is Err ==> r == Err::<KemAnswer, Error>(
                u8_mut_slice_ok(secret)->Err_0,
            )
            &&& u8_mut_slice_ok(out) is Ok && u8_mut_slice_ok(secret) is Ok && ctx.peer_keypair is None ==> r
                == Err::<KemAnswer, Error>(Error::MissingPublicKey)
            &&& r matches Ok(a) ==> (a matches KemAnswer::Output { ct, ss } && ct@.len()
                == MLKEM_CIPHERTEXT_LEN + EC_CIPHERTEXT_LEN && ss@.len() == MLKEM_SHARED_SECRET_LEN
                + EC_SHARED_SECRET_LEN)
            &&& u8_mut_slice_ok(out) is Ok && u8_mut_slice_ok(secret) is Ok ==> (ctx.peer_keypair matches Some(kp)
                ==> {
                &&& kp.public is None ==> r == Err::<KemAnswer, Error>(Error::MissingPublicKey)
                &&& kp.public matches Some(pk) ==> (r matches Ok(KemAnswer::Output { ct, ss })
                    ==> spec_encapsulation_outcome(pk, Ok((ct@, ss@))))
                &&& kp.public matches Some(pk) ==> (r matches Err(e) ==> spec_encapsulation_outcome(pk, Err(e)))
            })
        },
{
    if out.is_null && out.len.is_some() && secret.len.is_some() {
        let kp = match ctx.peer_keypair {
            Some(kp) => kp,
            None => {
                return Err(Error::MissingPublicKey);
            },
        };
        let ct_len = match kp.expected_ct_size() {
            Ok(n) => n,
            Err(e) => {
                return Err(e);
            },
        };
        let ss_len = match kp.expected_ss_size() {
            Ok(n) => n,
            Err(e) => {
                return Err(e);
            },
        };
        return Ok(KemAnswer::Sizes { ct_len, ss_len });
    }
    if let Err(e) = u8_mut_slice_try_from_raw_parts(out) {
        return Err(e);
    }
    if let Err(e) = u8_mut_slice_try_from_raw_parts(secret) {
        return Err(e);
    }
    match ctx.encapsulate_ex() {
        Ok((ct, ss)) => Ok(KemAnswer::Output { ct, ss }),
        Err(e) => Err(e),
    }
}

/// The check of an output buffer, as a value.
pub open spec fn u8_mut_slice_ok(buf: OutBuffer) -> Result<usize, Error> {
    if buf.is_null || buf.len is None {
        Err(Error::NullPointer)
    } else if buf.len == Some(0usize) {
        Err(Error::ZeroLength)
    } else {
        Ok(buf.len->0)
    }
}

/// The check of an input buffer, as a value.
pub open spec fn u8_slice_ok(buf: InBuffer) -> Result<usize, Error> {
    if buf.is_null {
        Err(Error::NullPointer)
    } else if buf.len == 0 {
        Err(Error::ZeroLength)
    } else {
        Ok(buf.len)
    }
}

/// Decapsulates the ciphertext `ct`, read from the input buffer `input`,
/// with the context's own key pair into the buffer `out`, or answers the
/// size `out` needs. When `input` can be read, `ct` holds its bytes. The
/// output buffer must have exactly the size of the secret.
pub fn decapsulate(ctx: &KemContext, out: OutBuffer, input: InBuffer, ct: &[u8]) -> (r: Result<KemAnswer, Error>)
    requires
        decapsulate_asks_sizes(out) ==> ctx.own_keypair is Some,
        u8_slice_ok(input) is Ok ==> ct@.len() == input.len,
        !decapsulate_asks_sizes(out) && ctx.own_keypair is Some && u8_mut_slice_ok(out) is Ok
            ==> u8_mut_slice_ok(out)->Ok_0 == MLKEM_SHARED_SECRET_LEN + EC_SHARED_SECRET_LEN,
    ensures
        decapsulate_asks_sizes(out) ==> (r matches Ok(KemAnswer::Sizes { ct_len, ss_len }) && ct_len == 0
            && ss_len == MLKEM_SHARED_SECRET_LEN + EC_SHARED_SECRET_LEN),
        !decapsulate_asks_sizes(out) ==> {
            &&& u8_slice_ok(input) is Err ==> r == Err::<KemAnswer, Error>(u8_slice_ok(input)->Err_0)
            &&& u8_slice_ok(input) is Ok && u8_mut_slice_ok(out) is Err ==> r == Err::<KemAnswer, Error>(
                u8_mut_slice_ok(out)->Err_0,
            )
            &&& u8_slice_ok(input) is Ok && u8_mut_slice_ok(out) is Ok && ctx.own_keypair is None ==> r
                == Err::<KemAnswer, Error>(Error::MissingPrivateKey)
            &&& u8_slice_ok(input) is Ok && u8_mut_slice_ok(out) is Ok ==> (ctx.own_keypair matches Some(kp)
                ==> (kp.private matches Some(sk) ==> match spec_decapsulate(
                ct@,
                sk.mlkem_share@,
                sk.ec_share@,
            ) {
                Some(s) => (r matches Ok(KemAnswer::Output { ct: c, ss }) && c@.len() == 0 && ss@ == s),
                None => r is Err,
            }) && (kp.private is None ==> r is Err))
        },
{
    if out.is_null && out.len.is_some() {
        let kp = match ctx.own_keypair {
            Some(kp) => kp,
            None => {
                return Err(Error::MissingPrivateKey);
            },
        };
        let ss_len = match kp.expected_ss_size() {
            Ok(n) => n,
            Err(e) => {
                return Err(e);
            },
        };
        return Ok(KemAnswer::Sizes { ct_len: 0, ss_len });
    }
    if let Err(e) = u8_slice_try_from_raw_parts(input) {
        return Err(e);
    }
    if let Err(e) = u8_mut_slice_try_from_raw_parts(out) {
        return Err(e);
    }
    let ct_vec = crate::der::copy_range(ct, 0, ct.len());
    assert(ct_vec@ =~= ct@);
    match ctx.decapsulate(&ct_vec) {
        Ok(ss) => Ok(KemAnswer::Output { ct: Vec::new(), ss }),
        Err(e) => Err(e),
    }
}

} // verus!
