use vstd::prelude::*;
use hmac::Mac;
use crate::email::Email;
use crate::email::is_valid_email;
use crate::hex::bytes_hex;
use crate::hex::hex16_val;
use crate::hex::hex_of_bytes;
use crate::hex::lemma_bytes_hex_len;
use crate::hex::lemma_u64_hex_roundtrip;
use crate::hex::parse_hex16;
use crate::hex::u64_hex;
use crate::hex::u64_to_hex;

verus! {

/// How long an issued session token stays valid, in seconds.
pub const TOKEN_TTL_SECONDS: u64 = 600;

/// The HMAC-SHA-256 tag over `msg` under `key`.  The tag is a function of the
/// key and message alone; nothing further is assumed about its value.
pub uninterp spec fn mac_of(key: Seq<u8>, msg: Seq<char>) -> [u8; 32];

/// Relies on `hmac::Hmac<sha2::Sha256>`: `new_from_slice` accepts keys of any
/// length (it never returns an error for HMAC), and `finalize` yields the
/// 32-byte HMAC-SHA-256 tag, a deterministic function of key and message.
#[verifier::external_body]
fn hmac_sha256_tag(key: &Vec<u8>, msg: &str) -> (r: Vec<u8>)
    ensures
        r@ == mac_of(key@, msg@)@,
{
    let mut m = <hmac::Hmac<sha2::Sha256> as Mac>::new_from_slice(key.as_slice())
        .expect("HMAC accepts keys of any length");
    m.update(msg.as_bytes());
    m.finalize().into_bytes().to_vec()
}

/// The session token for `email` expiring at `exp`, signed with `key`:
/// 16 hexadecimal characters of expiry, 64 hexadecimal characters of
/// HMAC-SHA-256 tag over expiry and subject, then the subject itself.
pub open spec fn token_of(email: Seq<char>, exp: u64, key: Seq<u8>) -> Seq<char> {
    u64_hex(exp) + bytes_hex(mac_of(key, u64_hex(exp) + email)@) + email
}

/// The claims carried by a valid session token.
pub struct Claims {
    pub subject: Email,
    pub expiry: u64,
}

/// What token validation accepts: a token of the shape above whose embedded
/// tag matches the recomputed one, whose expiry lies after `now`, and whose
/// subject is a syntactically valid address.  Returns the subject and expiry.
pub open spec fn spec_validate_token(t: Seq<char>, now: u64, key: Seq<u8>) -> Option<
    (Seq<char>, u64),
> {
    if t.len() < 80 {
        None
    } else {
        let exps = t.subrange(0, 16);
        let macs = t.subrange(16, 80);
        let email = t.subrange(80, t.len() as int);
        match hex16_val(exps) {
            Some(v) => if macs == bytes_hex(mac_of(key, exps + email)@) && now < v
                && is_valid_email(email) {
                Some((email, v as u64))
            } else {
                None
            },
            None => None,
        }
    }
}

/// Issues the signed session token for `email`, valid for
/// `TOKEN_TTL_SECONDS` from `now`.
pub fn issue_token(email: &Email, now: u64, key: &Vec<u8>) -> (r: String)
    requires
        now + TOKEN_TTL_SECONDS <= u64::MAX,
    ensures
        r@ == token_of(email@, (now + TOKEN_TTL_SECONDS) as u64, key@),
{
    let exp = now + TOKEN_TTL_SECONDS;
    let mut payload = u64_to_hex(exp);
    payload.append(email.as_ref());
    let tag = hmac_sha256_tag(key, payload.as_str());
    let tag_hex = hex_of_bytes(&tag);
    let mut out = u64_to_hex(exp);
    out.append(tag_hex.as_str());
    out.append(email.as_ref());
    proof {
        assert(out@ =~= token_of(email@, exp, key@));
    }
    out
}

/// Validates a session token against `key` at time `now`: checks the shape,
/// the embedded tag, the expiry, and the subject, and returns the claims.
/// Revocation is checked separately by the caller.
pub fn validate_token(token: &str, now: u64, key: &Vec<u8>) -> (r: Option<Claims>)
    ensures
        r matches Some(c) ==> spec_validate_token(token@, now, key@) == Some(
            (c.subject@, c.expiry),
        ),
        r is None ==> spec_validate_token(token@, now, key@) is None,
{
    let n = token.unicode_len();
    if n < 80 {
        return None;
    }
    let exps = token.substring_char(0, 16);
    let macs = token.substring_char(16, 80);
    let email_part = token.substring_char(80, n);
    let v = match parse_hex16(exps) {
        Some(v) => v,
        None => {
            return None;
        },
    };
    let mut payload = exps.to_owned();
    payload.append(email_part);
    let tag = hmac_sha256_tag(key, payload.as_str());
    let tag_hex = hex_of_bytes(&tag);
    let macs_owned = macs.to_owned();
    if !(macs_owned == tag_hex) {
        return None;
    }
    if now >= v {
        return None;
    }
    match Email::parse(email_part.to_owned()) {
        Ok(e) => Some(Claims { subject: e, expiry: v }),
        Err(_) => None,
    }
}

/// An issued token validates exactly while it has not expired: checking
/// `token_of(email, exp, key)` under the same key at time `now` yields the
/// original subject and expiry iff `now` lies before `exp` (the subject
/// being a valid address), and fails otherwise.
pub proof fn lemma_validate_issued_token(email: Seq<char>, exp: u64, now: u64, key: Seq<u8>)
    ensures
        spec_validate_token(token_of(email, exp, key), now, key) == if now < exp
            && is_valid_email(email) {
            Some((email, exp))
        } else {
            None::<(Seq<char>, u64)>
        },
{
    let t = token_of(email, exp, key);
    let tag = mac_of(key, u64_hex(exp) + email)@;
    lemma_bytes_hex_len(tag);
    assert(t.len() == 80 + email.len());
    assert(t.subrange(0, 16) =~= u64_hex(exp));
    assert(t.subrange(16, 80) =~= bytes_hex(tag));
    assert(t.subrange(80, t.len() as int) =~= email);
    lemma_u64_hex_roundtrip(exp);
    assert(t.subrange(0, 16) + t.subrange(80, t.len() as int) =~= u64_hex(exp) + email);
}

} // verus!
