//! Machine credentials as they travel in an `Authorization` header: the word
//! `Basic`, a space, and the base64 form of `<key id>:<secret>`.

use crate::models::id::{parse_uuid, uuid_from_text, Uuid};
use base64::Engine;
use vstd::prelude::*;
use vstd::slice::{slice_subrange, slice_to_vec};
use vstd::utf8::valid_utf8;

verus! {

/// The byte that parts the key id from the secret: a colon.
pub const SEPARATOR: u8 = 0x3a;

/// The scheme that a header must open with: `Basic` and one space.
pub open spec fn scheme() -> Seq<u8> {
    seq![0x42u8, 0x61u8, 0x73u8, 0x69u8, 0x63u8, 0x20u8]
}

/// What follows the scheme in a header, if the header opens with it.
pub open spec fn payload(header: Seq<u8>) -> Option<Seq<u8>> {
    if header.len() >= 6 && header.take(6) == scheme() {
        Some(header.skip(6))
    } else {
        None
    }
}

/// What the standard base64 alphabet, with canonical padding, decodes a text
/// to; nothing where the text is no such encoding.
pub uninterp spec fn base64_decoded(text: Seq<u8>) -> Option<Seq<u8>>;

/// Whether the first separator of `text` stands at `i`.
pub open spec fn first_separator_at(text: Seq<u8>, i: int) -> bool {
    &&& 0 <= i < text.len()
    &&& text[i] == SEPARATOR
    &&& forall|j: int| 0 <= j < i ==> text[j] != SEPARATOR
}

/// The two parts of `text` around its first separator, if it holds one.
pub open spec fn split_once(text: Seq<u8>) -> Option<(Seq<u8>, Seq<u8>)> {
    if exists|i: int| first_separator_at(text, i) {
        let i = choose|i: int| first_separator_at(text, i);
        Some((text.take(i), text.skip(i + 1)))
    } else {
        None
    }
}

/// The name and the secret in decoded credentials: the text must be UTF-8,
/// and they are what stands before and after its first separator.
pub open spec fn name_and_secret(text: Seq<u8>) -> Option<(Seq<u8>, Seq<u8>)> {
    if valid_utf8(text) {
        split_once(text)
    } else {
        None
    }
}

/// The credentials that a header carries: the value of the key id and the
/// secret. Each step may fail, and then the header carries none: no scheme, no
/// base64, no UTF-8, no separator, no identifier before the separator.
pub open spec fn basic_credentials(header: Seq<u8>) -> Option<(u128, Seq<u8>)> {
    match payload(header) {
        None => None,
        Some(encoded) => match base64_decoded(encoded) {
            None => None,
            Some(text) => match name_and_secret(text) {
                None => None,
                Some((name, secret)) => match uuid_from_text(name) {
                    None => None,
                    Some(id) => Some((id, secret)),
                },
            },
        },
    }
}

/// Calls `decode` of the `base64` crate's `STANDARD` engine. The contract only
/// gives the outcome a name: it depends on the text alone.
#[verifier::external_body]
fn base64_decode(text: &[u8]) -> (bytes: Option<Vec<u8>>)
    ensures
        match bytes {
            Some(b) => base64_decoded(text@) == Some(b@),
            None => base64_decoded(text@) is None,
        },
{
    match base64::engine::general_purpose::STANDARD.decode(text) {
        Ok(bytes) => Some(bytes),
        Err(_) => None,
    }
}

/// Calls `std::str::from_utf8` and reports whether it accepted the bytes,
/// which it does exactly for well-formed UTF-8.
#[verifier::external_body]
fn is_utf8(bytes: &[u8]) -> (ok: bool)
    ensures
        ok == valid_utf8(bytes@),
{
    std::str::from_utf8(bytes).is_ok()
}

/// The first separator of a text stands at one place only.
proof fn lemma_first_separator_unique(text: Seq<u8>, i: int, j: int)
    requires
        first_separator_at(text, i),
        first_separator_at(text, j),
    ensures
        i == j,
{
}

/// Where the first separator of a text stands.
fn find_separator(text: &[u8]) -> (at: Option<usize>)
    ensures
        match at {
            Some(i) => first_separator_at(text@, i as int),
            None => forall|i: int| !first_separator_at(text@, i),
        },
{
    let mut i: usize = 0;
    while i < text.len()
        invariant
            i <= text.len(),
            forall|j: int| 0 <= j < i ==> text@[j] != SEPARATOR,
        decreases text.len() - i,
    {
        if text[i] == SEPARATOR {
            return Some(i);
        }
        i += 1;
    }
    None
}

/// What follows the scheme in a header, if the header opens with it: the
/// encoded credentials.
pub fn encoded_payload(header: &[u8]) -> (encoded: Option<&[u8]>)
    ensures
        match encoded {
            Some(bytes) => payload(header@) == Some(bytes@),
            None => payload(header@) is None,
        },
{
    if header.len() < 6 {
        return None;
    }
    let yes = header[0] == 0x42 && header[1] == 0x61 && header[2] == 0x73 && header[3] == 0x69
        && header[4] == 0x63 && header[5] == 0x20;
    proof {
        let head = header@.take(6);
        if yes {
            assert(head =~= scheme());
        } else {
            assert(head[0] == header@[0] && head[1] == header@[1] && head[2] == header@[2]
                && head[3] == header@[3] && head[4] == header@[4] && head[5] == header@[5]);
        }
    }
    if yes {
        let encoded = slice_subrange(header, 6, header.len());
        assert(encoded@ == header@.skip(6));
        Some(encoded)
    } else {
        None
    }
}

/// Parts decoded credentials into the name of the key and the secret.
pub fn split_credentials(text: &[u8]) -> (parts: Option<(&[u8], &[u8])>)
    ensures
        match parts {
            Some((name, secret)) => name_and_secret(text@) == Some((name@, secret@)),
            None => name_and_secret(text@) is None,
        },
{
    if !is_utf8(text) {
        return None;
    }
    let at = match find_separator(text) {
        Some(at) => at,
        None => {
            return None;
        },
    };
    let len = text.len();
    proof {
        let chosen = choose|i: int| first_separator_at(text@, i);
        lemma_first_separator_unique(text@, at as int, chosen);
    }
    let name = slice_subrange(text, 0, at);
    let secret = slice_subrange(text, at + 1, len);
    assert(name@ == text@.take(at as int));
    assert(secret@ == text@.skip(at + 1));
    Some((name, secret))
}

/// The credentials of a machine: the identifier of its key, and the secret it
/// offers. Like a password, the secret is never stored, and the type has no
/// debug form that could show it.
#[derive(Clone, PartialEq, Eq)]
pub struct MachineCredentials {
    pub id: Uuid,
    pub secret: Vec<u8>,
}

impl View for MachineCredentials {
    type V = (u128, Seq<u8>);

    open spec fn view(&self) -> (u128, Seq<u8>) {
        (self.id@, self.secret@)
    }
}

impl MachineCredentials {
    /// Makes credentials of a secret and of what reading the name of the key
    /// as an identifier gave: there are none where the name is no identifier.
    pub fn with_id(id: Option<Uuid>, secret: &[u8]) -> (res: Option<MachineCredentials>)
        ensures
            match res {
                Some(credentials) => id == Some(credentials.id) && credentials.secret@ == secret@,
                None => id is None,
            },
    {
        match id {
            Some(id) => Some(MachineCredentials { id, secret: slice_to_vec(secret) }),
            None => None,
        }
    }

    /// Reads the credentials out of the value of an `Authorization` header.
    /// A header that does not carry credentials in every part yields nothing,
    /// and nothing tells which part was at fault.
    pub fn from_header(header: &[u8]) -> (res: Option<MachineCredentials>)
        ensures
            match res {
                Some(credentials) => basic_credentials(header@) == Some(credentials@),
                None => basic_credentials(header@) is None,
            },
    {
        let encoded = match encoded_payload(header) {
            Some(encoded) => encoded,
            None => {
                return None;
            },
        };
        let text = match base64_decode(encoded) {
            Some(text) => text,
            None => {
                return None;
            },
        };
        let (name, secret) = match split_credentials(text.as_slice()) {
            Some(parts) => parts,
            None => {
                return None;
            },
        };
        MachineCredentials::with_id(parse_uuid(name), secret)
    }
}

/// A header carries credentials only if it is sound in every part. One part
/// at fault is enough for it to carry none: a missing scheme, a payload that
/// is no base64, bytes that are no UTF-8, a text without separator, a name
/// that is no identifier.
pub proof fn lemma_one_fault_spoils_header(header: Seq<u8>)
    ensures
        payload(header) is None ==> basic_credentials(header) is None,
        payload(header) matches Some(encoded) ==> {
            &&& base64_decoded(encoded) is None ==> basic_credentials(header) is None
            &&& base64_decoded(encoded) matches Some(text) ==> {
                &&& !valid_utf8(text) ==> basic_credentials(header) is None
                &&& split_once(text) is None ==> basic_credentials(header) is None
                &&& split_once(text) matches Some((name, secret)) ==> uuid_from_text(name)
                    is None ==> basic_credentials(header) is None
            }
        },
{
}

/// A header that is sound in every part carries the identifier before the
/// first separator and, as the secret, everything after it.
pub proof fn lemma_sound_header_carries(
    header: Seq<u8>,
    encoded: Seq<u8>,
    text: Seq<u8>,
    at: int,
    id: u128,
)
    requires
        header == scheme() + encoded,
        base64_decoded(encoded) == Some(text),
        valid_utf8(text),
        first_separator_at(text, at),
        uuid_from_text(text.take(at)) == Some(id),
    ensures
        basic_credentials(header) == Some((id, text.skip(at + 1))),
{
    assert(header.take(6) =~= scheme());
    assert(header.skip(6) =~= encoded);
    let chosen = choose|i: int| first_separator_at(text, i);
    lemma_first_separator_unique(text, at, chosen);
}

} // verus!
