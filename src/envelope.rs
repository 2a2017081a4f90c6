//! The versioned signature envelope `vault:<derivation>:<base64(data)>`.
use vstd::prelude::*;

use crate::hsm::Error;
use crate::types::Signature;

verus! {

/// The standard, padded base64 encoding of `data`.
pub uninterp spec fn base64_of(data: Seq<u8>) -> Seq<char>;

/// The leading tag of every envelope, separator included.
pub open spec fn tag() -> Seq<char> {
    seq!['v', 'a', 'u', 'l', 't', ':']
}

/// The number of characters in `tag()`.
pub const TAG_LEN: usize = 6;

/// No character of `s` is a `:`.
pub open spec fn has_no_colon(s: Seq<char>) -> bool {
    forall|j: int| 0 <= j < s.len() ==> s[j] != ':'
}

/// `i` is the position of the first `:` in `s`.
pub open spec fn is_first_colon(s: Seq<char>, i: int) -> bool {
    0 <= i < s.len() && s[i] == ':' && has_no_colon(s.take(i))
}

/// The envelope that carries `derivation` and `data`.
pub open spec fn envelope_of(derivation: Seq<char>, data: Seq<u8>) -> Seq<char> {
    tag() + derivation + seq![':'] + base64_of(data)
}

/// `s` starts with the tag.
pub open spec fn is_tagged(s: Seq<char>) -> bool {
    s.len() >= TAG_LEN && s.take(TAG_LEN as int) == tag()
}

/// What follows the tag.
pub open spec fn after_tag(s: Seq<char>) -> Seq<char> {
    s.skip(TAG_LEN as int)
}

/// `s` starts with the tag, and a `:` follows it somewhere.
pub open spec fn is_well_shaped(s: Seq<char>) -> bool {
    is_tagged(s) && exists|i: int| is_first_colon(after_tag(s), i)
}

/// Where the derivation ends in what follows the tag.
pub open spec fn split_point(s: Seq<char>) -> int {
    choose|i: int| is_first_colon(after_tag(s), i)
}

/// The derivation field of a well-shaped envelope.
pub open spec fn derivation_field(s: Seq<char>) -> Seq<char> {
    after_tag(s).take(split_point(s))
}

/// The base64 field of a well-shaped envelope.
pub open spec fn data_field(s: Seq<char>) -> Seq<char> {
    after_tag(s).skip(split_point(s) + 1)
}

/// `t` is the base64 encoding of some bytes.
pub open spec fn is_base64(t: Seq<char>) -> bool {
    exists|b: Seq<u8>| base64_of(b) == t
}

/// `r` is what decoding the envelope `s` gives.
pub open spec fn decodes(s: Seq<char>, r: Result<Signature, Error>) -> bool {
    if !is_well_shaped(s) {
        r matches Err(Error::UnexpectedResponse(t)) && t@ == s
    } else if is_base64(data_field(s)) {
        r matches Ok(sig) && sig.derivation@ == derivation_field(s) && base64_of(sig.data@)
            == data_field(s) && forall|b: Seq<u8>| base64_of(b) == data_field(s) ==> b == sig.data@
    } else {
        r matches Err(Error::ResponseDecoding(_))
    }
}

/// Relies on base64's `STANDARD` engine `encode`: the padded standard encoding of the bytes.
/// Its length computation cannot overflow, as no slice holds more than `isize::MAX` bytes.
#[verifier::external_body]
pub(crate) fn base64_encode(data: &[u8]) -> (r: String)
    ensures
        r@ == base64_of(data@),
{
    base64::Engine::encode(&base64::engine::general_purpose::STANDARD, data)
}

/// What base64 gives back on decoding.
type Base64Result = Result<Vec<u8>, base64::DecodeError>;

/// Relies on base64's `STANDARD` engine `decode`: it requires canonical padding and refuses
/// trailing bits, so it accepts exactly the texts that `encode` produces, and gives back the
/// bytes that were encoded.
#[verifier::external_body]
fn base64_decode(text: &str) -> (r: Base64Result)
    ensures
        r matches Ok(v) ==> base64_of(v@) == text@ && forall|b: Seq<u8>| base64_of(b) == text@
            ==> b == v@,
        r is Err ==> !is_base64(text@),
{
    base64::Engine::decode(&base64::engine::general_purpose::STANDARD, text)
}

/// Whether `s` starts with the tag.
fn starts_with_tag(s: &str) -> (r: bool)
    ensures
        r == is_tagged(s@),
{
    let t = "vault:";
    proof {
        reveal_strlit("vault:");
        assert(t@ =~= tag());
    }
    if s.unicode_len() < TAG_LEN {
        return false;
    }
    let mut k: usize = 0;
    while k < TAG_LEN
        invariant
            s@.len() >= TAG_LEN,
            t@ == tag(),
            k <= TAG_LEN,
            forall|j: int| 0 <= j < k ==> s@[j] == tag()[j],
        decreases TAG_LEN - k,
    {
        if s.get_char(k) != t.get_char(k) {
            assert(s@.take(TAG_LEN as int)[k as int] != tag()[k as int]);
            return false;
        }
        k += 1;
    }
    assert(s@.take(TAG_LEN as int) =~= tag());
    true
}

/// Encodes a signature into its envelope, `vault:<derivation>:<base64(data)>`.
///
/// A `:` inside the derivation is not escaped: such an envelope decodes with the derivation cut
/// at its first `:`.
pub fn encode(derivation: &str, data: &[u8]) -> (r: String)
    ensures
        r@ == envelope_of(derivation@, data@),
{
    let mut r = String::from_str("vault:");
    proof {
        reveal_strlit("vault:");
        reveal_strlit(":");
    }
    r.append(derivation);
    r.append(":");
    let encoded = base64_encode(data);
    r.append(encoded.as_str());
    assert(r@ =~= envelope_of(derivation@, data@));
    r
}

/// Decodes an envelope, `vault:<derivation>:<base64(data)>`, into a signature.
///
/// The derivation ends at the first `:` after the tag. A missing tag or separator gives
/// `UnexpectedResponse` with the whole envelope; a data field that is not base64 gives
/// `ResponseDecoding`.
pub fn decode(envelope: String) -> (r: Result<Signature, Error>)
    ensures
        decodes(envelope@, r),
{
    if !starts_with_tag(envelope.as_str()) {
        return Err(Error::unexpected_response(envelope));
    }
    let ghost s = envelope@;
    let ghost rest = after_tag(s);
    let n = envelope.unicode_len();
    let mut i: usize = TAG_LEN;
    while i < n && envelope.get_char(i) != ':'
        invariant
            envelope@ == s,
            n == s.len(),
            TAG_LEN <= i <= n,
            forall|j: int| TAG_LEN <= j < i ==> s[j] != ':',
        decreases n - i,
    {
        i += 1;
    }
    let ghost k = i - TAG_LEN;
    if i == n {
        assert forall|m: int| !is_first_colon(rest, m) by {
            if 0 <= m < rest.len() {
                assert(rest[m] == s[m + TAG_LEN]);
            }
        }
        return Err(Error::unexpected_response(envelope));
    }
    assert(is_first_colon(rest, k)) by {
        assert forall|j: int| 0 <= j < k implies rest.take(k)[j] != ':' by {
            assert(rest[j] == s[j + TAG_LEN]);
        }
    }
    assert forall|m: int| is_first_colon(rest, m) implies m == k by {
        if m < k {
            assert(rest.take(k)[m] == rest[m]);
        } else if m > k {
            assert(rest.take(m)[k] == rest[k]);
        }
    }
    let derivation = envelope.as_str().substring_char(TAG_LEN, i).to_owned();
    let text = envelope.as_str().substring_char(i + 1, n);
    assert(derivation@ =~= derivation_field(s));
    assert(text@ =~= data_field(s));
    match base64_decode(text) {
        Ok(data) => Ok(Signature { derivation, data }),
        Err(e) => Err(Error::response_decoding(e)),
    }
}

/// Decoding the envelope of a derivation that holds no `:` gives back that derivation and
/// those bytes.
pub proof fn lemma_round_trip(derivation: Seq<char>, data: Seq<u8>, r: Result<Signature, Error>)
    requires
        has_no_colon(derivation),
        decodes(envelope_of(derivation, data), r),
    ensures
        r matches Ok(sig) && sig.derivation@ == derivation && sig.data@ == data,
{
    let s = envelope_of(derivation, data);
    let k = derivation.len() as int;
    assert(s.take(TAG_LEN as int) =~= tag());
    let rest = after_tag(s);
    assert(rest =~= derivation + seq![':'] + base64_of(data));
    assert(rest.take(k) =~= derivation);
    assert(is_first_colon(rest, k));
    let m = split_point(s);
    assert(m == k) by {
        if m < k {
            assert(rest.take(k)[m] == rest[m]);
        } else if m > k {
            assert(rest.take(m)[k] == rest[k]);
        }
    }
    assert(data_field(s) =~= base64_of(data));
    assert(is_base64(data_field(s)));
}

/// An envelope that lacks the tag, or a `:` after it, is rejected as an unexpected response
/// that holds the whole envelope; one whose shape is right but whose data field is not base64
/// is rejected as a decoding failure.
pub proof fn lemma_malformed_rejected(s: Seq<char>, r: Result<Signature, Error>)
    requires
        decodes(s, r),
    ensures
        !is_tagged(s) ==> (r matches Err(Error::UnexpectedResponse(t)) && t@ == s),
        is_tagged(s) && has_no_colon(after_tag(s)) ==> (r matches Err(
            Error::UnexpectedResponse(t),
        ) && t@ == s),
        is_well_shaped(s) && !is_base64(data_field(s)) ==> r matches Err(
            Error::ResponseDecoding(_),
        ),
{
    if is_tagged(s) && has_no_colon(after_tag(s)) && is_well_shaped(s) {
        let i = choose|i: int| is_first_colon(after_tag(s), i);
        assert(after_tag(s)[i] == ':');
    }
}

} // verus!
