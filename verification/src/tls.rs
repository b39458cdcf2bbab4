//! Choice of the server's private key among the parsed candidates.
//!
//! Loading and parsing the certificate and key files is outside the
//! library; it hands over whatever PKCS8 and RSA keys the key file
//! yielded, each as its raw bytes. The rule decided here: prefer a PKCS8
//! key, fall back to an RSA key, and report the absence of both — the
//! caller treats that as fatal at startup.

use vstd::prelude::*;

verus! {

/// The first PKCS8 key if there is one, else the first RSA key, else
/// nothing.
pub fn select_private_key(pkcs8_keys: &Vec<Vec<u8>>, rsa_keys: &Vec<Vec<u8>>) -> (r: Option<
    Vec<u8>,
>)
    ensures
        pkcs8_keys@.len() > 0 ==> (r matches Some(k) && k@ == pkcs8_keys@[0]@),
        pkcs8_keys@.len() == 0 && rsa_keys@.len() > 0 ==> (r matches Some(k) && k@
            == rsa_keys@[0]@),
        pkcs8_keys@.len() == 0 && rsa_keys@.len() == 0 ==> r is None,
{
    if pkcs8_keys.len() > 0 {
        Some(copy_bytes(&pkcs8_keys[0]))
    } else if rsa_keys.len() > 0 {
        Some(copy_bytes(&rsa_keys[0]))
    } else {
        None
    }
}

/// A byte-for-byte copy of one key.
fn copy_bytes(src: &Vec<u8>) -> (r: Vec<u8>)
    ensures
        r@ == src@,
{
    let mut r: Vec<u8> = Vec::new();
    let mut k: usize = 0;
    while k < src.len()
        invariant
            k <= src@.len(),
            r@ == src@.take(k as int),
        decreases src@.len() - k,
    {
        r.push(src[k]);
        proof {
            assert(r@ =~= src@.take(k as int + 1));
        }
        k = k + 1;
    }
    proof {
        assert(src@.take(src@.len() as int) =~= src@);
    }
    r
}

} // verus!
