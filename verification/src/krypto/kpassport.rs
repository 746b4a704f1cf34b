//! The `kpassport` authorization token.
//!
//! A token carries a claim (username, issuing host, issuance timestamp)
//! and a 32-byte `blake3::keyed_hash` signature over the claim's byte
//! encoding.  The wire text is the URL-safe base64 of
//! `username || '@' || host || timestamp || signature`: the single
//! reserved separator delimits the username, and the fixed-width
//! timestamp delimits the host from the end, so the layout needs no
//! further framing.

use crate::krypto::defaults::{
    HOSTNAME_LENGTH_LIMIT, SEPARATOR_BYTE, SIGNATURE_LENGTH, TIMESTAMP_LENGTH,
    TIMESTAMP_VALUE_LIMIT, USERNAME_LENGTH_LIMIT,
};
use crate::krypto::error::KryptoError;
use crate::krypto::key_derivation::{derive_key, spec_context_chars, Context};
use crate::krypto::outside::{
    base64_decode, base64_encode, base64_of, blake3_keyed_hash, bytes_to_string,
    current_timestamp, derived_key_of, keyed_hash_of,
};
use crate::krypto::timestamp::{
    all_digit_bytes, encode_timestamp, lemma_timestamp_bytes_len, parse_timestamp,
    spec_timestamp_bytes, spec_timestamp_value,
};
use vstd::prelude::*;
use vstd::slice::{slice_subrange, slice_to_vec};
use vstd::string::{StrSliceExecFns, StringSliceAdditionalSpecFns};
use vstd::utf8::{decode_utf8, encode_utf8, valid_utf8};

verus! {

/// The claim is well formed: both fields fit their fixed wire widths,
/// the timestamp fits its fixed digit field, and the username cannot be
/// confused with the separator that delimits it.
pub open spec fn spec_content_valid(username: Seq<char>, host: Seq<char>, timestamp: u64) -> bool {
    &&& encode_utf8(username).len() <= USERNAME_LENGTH_LIMIT
    &&& encode_utf8(host).len() <= HOSTNAME_LENGTH_LIMIT
    &&& timestamp < TIMESTAMP_VALUE_LIMIT
    &&& !encode_utf8(username).contains(SEPARATOR_BYTE)
}

/// The fixed-layout byte encoding of a claim.
pub open spec fn spec_content_bytes(username: Seq<char>, host: Seq<char>, timestamp: u64) -> Seq<
    u8,
> {
    encode_utf8(username) + seq![SEPARATOR_BYTE] + encode_utf8(host) + spec_timestamp_bytes(
        timestamp as int,
        TIMESTAMP_LENGTH as nat,
    )
}

/// What encoding a claim yields: its bytes, or the first error in the
/// order the checks are made (sizes, then the separator assumption).
pub open spec fn spec_encode_content(
    username: Seq<char>,
    host: Seq<char>,
    timestamp: u64,
) -> Result<Seq<u8>, KryptoError> {
    if encode_utf8(username).len() > USERNAME_LENGTH_LIMIT {
        Err(KryptoError::KpassportSize)
    } else if encode_utf8(host).len() > HOSTNAME_LENGTH_LIMIT {
        Err(KryptoError::KpassportSize)
    } else if timestamp >= TIMESTAMP_VALUE_LIMIT {
        Err(KryptoError::KpassportSize)
    } else if encode_utf8(username).contains(SEPARATOR_BYTE) {
        Err(KryptoError::InvalidKpassportUsername)
    } else {
        Ok(spec_content_bytes(username, host, timestamp))
    }
}

/// True when the bytes hold the separator somewhere.
pub open spec fn spec_has_separator(s: Seq<u8>) -> bool {
    exists|i: int| 0 <= i < s.len() && s[i] == SEPARATOR_BYTE
}

/// The index of the first separator byte.
pub open spec fn spec_separator_index(s: Seq<u8>) -> int
    recommends
        spec_has_separator(s),
    decreases s.len(),
{
    if s.len() == 0 {
        0
    } else if s[0] == SEPARATOR_BYTE {
        0
    } else {
        1 + spec_separator_index(s.drop_first())
    }
}

/// The first separator index points at a separator and nothing before it
/// is one.
pub proof fn lemma_separator_index(s: Seq<u8>)
    requires
        spec_has_separator(s),
    ensures
        0 <= spec_separator_index(s) < s.len(),
        s[spec_separator_index(s)] == SEPARATOR_BYTE,
        forall|j: int| 0 <= j < spec_separator_index(s) ==> s[j] != SEPARATOR_BYTE,
    decreases s.len(),
{
    if s.len() > 0 && s[0] != SEPARATOR_BYTE {
        let rest = s.drop_first();
        assert(spec_has_separator(rest)) by {
            let i = choose|i: int| 0 <= i < s.len() && s[i] == SEPARATOR_BYTE;
            assert(rest[i - 1] == s[i]);
        }
        lemma_separator_index(rest);
        assert(forall|j: int| 1 <= j < spec_separator_index(s) ==> s[j] == rest[j - 1]);
    }
}

/// What decoding claimed content bytes yields, in the order the checks
/// are made: separator, username, timestamp, host.
pub open spec fn spec_decode_content(bytes: Seq<u8>) -> Result<
    (Seq<char>, Seq<char>, u64),
    KryptoError,
> {
    if !spec_has_separator(bytes) {
        Err(KryptoError::MissingUsernameHostSeperator)
    } else {
        let sep = spec_separator_index(bytes);
        let username_bytes = bytes.subrange(0, sep);
        if !valid_utf8(username_bytes) {
            Err(KryptoError::InvalidKpassportUsername)
        } else if bytes.len() < TIMESTAMP_LENGTH {
            Err(KryptoError::InvalidKpassportTimestamp)
        } else {
            let timestamp_bytes = bytes.subrange(
                bytes.len() - TIMESTAMP_LENGTH,
                bytes.len() as int,
            );
            if !all_digit_bytes(timestamp_bytes) {
                Err(KryptoError::InvalidKpassportTimestamp)
            } else if sep + 1 > bytes.len() - TIMESTAMP_LENGTH {
                Err(KryptoError::InvalidKpassportHost)
            } else {
                let host_bytes = bytes.subrange(sep + 1, bytes.len() - TIMESTAMP_LENGTH);
                if !valid_utf8(host_bytes) {
                    Err(KryptoError::InvalidKpassportHost)
                } else {
                    Ok(
                        (
                            decode_utf8(username_bytes),
                            decode_utf8(host_bytes),
                            spec_timestamp_value(timestamp_bytes) as u64,
                        ),
                    )
                }
            }
        }
    }
}

/// The content of a `kpassport`: the signed claim.
#[derive(Clone, Debug, PartialEq, Eq)]
pub struct Content {
    /// The user that the kpassport is handed to.
    pub username: String,
    /// Server or application that generated the kpassport.
    pub host: String,
    /// The instant the kpassport was generated, in milliseconds since
    /// the Unix epoch.
    pub timestamp: u64,
}

/// True when some byte of the slice equals `b`.
fn contains_byte(s: &[u8], b: u8) -> (r: bool)
    ensures
        r == s@.contains(b),
{
    let mut i: usize = 0;
    while i < s.len()
        invariant
            i <= s@.len(),
            forall|j: int| 0 <= j < i ==> s@[j] != b,
        decreases s@.len() - i,
    {
        if s[i] == b {
            return true;
        }
        i = i + 1;
    }
    assert(!s@.contains(b));
    false
}

/// The index of the first separator byte, or `None` when there is none.
fn find_separator(s: &[u8]) -> (r: Option<usize>)
    ensures
        match r {
            Some(i) => spec_has_separator(s@) && i == spec_separator_index(s@),
            None => !spec_has_separator(s@),
        },
{
    let mut i: usize = 0;
    while i < s.len()
        invariant
            i <= s@.len(),
            forall|j: int| 0 <= j < i ==> s@[j] != SEPARATOR_BYTE,
        decreases s@.len() - i,
    {
        if s[i] == SEPARATOR_BYTE {
            proof {
                lemma_separator_index(s@);
            }
            return Some(i);
        }
        i = i + 1;
    }
    assert(!spec_has_separator(s@));
    None
}

impl Content {
    /// The claim is well formed for encoding.
    pub open spec fn wf(self) -> bool {
        spec_content_valid(self.username@, self.host@, self.timestamp)
    }

    /// Converts the content to the byte sequence that is signed and
    /// embedded in the exported token.  Fails with `KpassportSize` when
    /// a field exceeds its fixed wire width, and with
    /// `InvalidKpassportUsername` when the username holds the reserved
    /// separator byte, which would make the encoding ambiguous.
    pub fn as_bytes(&self) -> (r: Result<Vec<u8>, KryptoError>)
        ensures
            r is Ok <==> self.wf(),
            r matches Ok(b) ==> b@ == spec_content_bytes(self.username@, self.host@, self.timestamp)
                && b@.len() <= USERNAME_LENGTH_LIMIT + 1 + HOSTNAME_LENGTH_LIMIT
                + TIMESTAMP_LENGTH,
            r matches Err(e) ==> spec_encode_content(self.username@, self.host@, self.timestamp)
                == Err::<Seq<u8>, KryptoError>(e),
    {
        let mut bytes: Vec<u8> = self.username.as_str().as_bytes_vec();
        let mut host_bytes: Vec<u8> = self.host.as_str().as_bytes_vec();

        if bytes.len() > USERNAME_LENGTH_LIMIT {
            return Err(KryptoError::KpassportSize);
        }
        if host_bytes.len() > HOSTNAME_LENGTH_LIMIT {
            return Err(KryptoError::KpassportSize);
        }
        if self.timestamp >= TIMESTAMP_VALUE_LIMIT {
            return Err(KryptoError::KpassportSize);
        }
        if contains_byte(bytes.as_slice(), SEPARATOR_BYTE) {
            return Err(KryptoError::InvalidKpassportUsername);
        }

        bytes.push(SEPARATOR_BYTE);
        bytes.append(&mut host_bytes);
        let mut timestamp_bytes = encode_timestamp(self.timestamp);
        bytes.append(&mut timestamp_bytes);
        proof {
            assert(bytes@ =~= spec_content_bytes(self.username@, self.host@, self.timestamp));
            lemma_timestamp_bytes_len(self.timestamp as int, TIMESTAMP_LENGTH as nat);
        }
        Ok(bytes)
    }

    /// Derives a kpassport's content from claimed content bytes; used
    /// only when parsing untrusted input.
    pub fn from_bytes(bytes: Vec<u8>) -> (r: Result<Content, KryptoError>)
        ensures
            match r {
                Ok(c) => spec_decode_content(bytes@) == Ok::<_, KryptoError>(
                    (c.username@, c.host@, c.timestamp),
                ),
                Err(e) => spec_decode_content(bytes@) == Err::<(Seq<char>, Seq<char>, u64), _>(e),
            },
    {
        let username = Content::get_username(slice_to_vec(bytes.as_slice()))?;
        let timestamp = Content::get_timestamp(slice_to_vec(bytes.as_slice()))?;
        let host = Content::get_host(bytes)?;

        Ok(Content { host, username, timestamp })
    }

    /// The username field of claimed content bytes: everything before
    /// the first separator, as text.
    pub fn get_username(bytes: Vec<u8>) -> (r: Result<String, KryptoError>)
        ensures
            match r {
                Ok(u) => spec_has_separator(bytes@) && valid_utf8(
                    bytes@.subrange(0, spec_separator_index(bytes@)),
                ) && u@ == decode_utf8(bytes@.subrange(0, spec_separator_index(bytes@))),
                Err(e) => if !spec_has_separator(bytes@) {
                    e == KryptoError::MissingUsernameHostSeperator
                } else {
                    e == KryptoError::InvalidKpassportUsername && !valid_utf8(
                        bytes@.subrange(0, spec_separator_index(bytes@)),
                    )
                },
            },
    {
        let seperator_index = Content::get_seperator_index(slice_to_vec(bytes.as_slice()))?;
        proof {
            lemma_separator_index(bytes@);
        }
        let username_bytes = slice_subrange(bytes.as_slice(), 0, seperator_index);
        match bytes_to_string(username_bytes) {
            Some(username) => Ok(username),
            None => Err(KryptoError::InvalidKpassportUsername),
        }
    }

    /// The host field of claimed content bytes: everything between the
    /// first separator and the fixed-width timestamp field, as text.
    pub fn get_host(bytes: Vec<u8>) -> (r: Result<String, KryptoError>)
        ensures
            match r {
                Ok(h) => spec_has_separator(bytes@) && spec_separator_index(bytes@) + 1
                    <= bytes@.len() - TIMESTAMP_LENGTH && valid_utf8(
                    bytes@.subrange(
                        spec_separator_index(bytes@) + 1,
                        bytes@.len() - TIMESTAMP_LENGTH,
                    ),
                ) && h@ == decode_utf8(
                    bytes@.subrange(
                        spec_separator_index(bytes@) + 1,
                        bytes@.len() - TIMESTAMP_LENGTH,
                    ),
                ),
                Err(e) => if !spec_has_separator(bytes@) {
                    e == KryptoError::MissingUsernameHostSeperator
                } else if spec_separator_index(bytes@) + 1 > bytes@.len() - TIMESTAMP_LENGTH {
                    e == KryptoError::InvalidKpassportHost
                } else {
                    e == KryptoError::InvalidKpassportHost && !valid_utf8(
                        bytes@.subrange(
                            spec_separator_index(bytes@) + 1,
                            bytes@.len() - TIMESTAMP_LENGTH,
                        ),
                    )
                },
            },
    {
        let seperator_index = Content::get_seperator_index(slice_to_vec(bytes.as_slice()))?;
        proof {
            lemma_separator_index(bytes@);
        }
        if bytes.len() < TIMESTAMP_LENGTH || seperator_index >= bytes.len() - TIMESTAMP_LENGTH {
            return Err(KryptoError::InvalidKpassportHost);
        }
        let timestamp_start = bytes.len() - TIMESTAMP_LENGTH;
        let host_bytes = slice_subrange(bytes.as_slice(), seperator_index + 1, timestamp_start);
        match bytes_to_string(host_bytes) {
            Some(host) => Ok(host),
            None => Err(KryptoError::InvalidKpassportHost),
        }
    }

    /// The timestamp field of claimed content bytes: the fixed-width
    /// digit field at the very end.
    pub fn get_timestamp(bytes: Vec<u8>) -> (r: Result<u64, KryptoError>)
        ensures
            match r {
                Ok(t) => bytes@.len() >= TIMESTAMP_LENGTH && all_digit_bytes(
                    bytes@.subrange(bytes@.len() - TIMESTAMP_LENGTH, bytes@.len() as int),
                ) && t == spec_timestamp_value(
                    bytes@.subrange(bytes@.len() - TIMESTAMP_LENGTH, bytes@.len() as int),
                ) && t < TIMESTAMP_VALUE_LIMIT,
                Err(e) => e == KryptoError::InvalidKpassportTimestamp && (bytes@.len()
                    < TIMESTAMP_LENGTH || !all_digit_bytes(
                    bytes@.subrange(bytes@.len() - TIMESTAMP_LENGTH, bytes@.len() as int),
                )),
            },
    {
        if bytes.len() < TIMESTAMP_LENGTH {
            return Err(KryptoError::InvalidKpassportTimestamp);
        }
        let timestamp_start = bytes.len() - TIMESTAMP_LENGTH;
        let timestamp_bytes = slice_subrange(bytes.as_slice(), timestamp_start, bytes.len());
        match parse_timestamp(timestamp_bytes) {
            Some(t) => Ok(t),
            None => Err(KryptoError::InvalidKpassportTimestamp),
        }
    }

    /// The index of the first separator byte of claimed content bytes.
    pub fn get_seperator_index(kpassport_bytes: Vec<u8>) -> (r: Result<usize, KryptoError>)
        ensures
            match r {
                Ok(i) => spec_has_separator(kpassport_bytes@) && i == spec_separator_index(
                    kpassport_bytes@,
                ),
                Err(e) => e == KryptoError::MissingUsernameHostSeperator && !spec_has_separator(
                    kpassport_bytes@,
                ),
            },
    {
        match find_separator(kpassport_bytes.as_slice()) {
            Some(i) => Ok(i),
            None => Err(KryptoError::MissingUsernameHostSeperator),
        }
    }
}

/// The signature of a claim under a master secret: the keyed hash of the
/// claim's bytes, under the key derived for this host and instant.
pub open spec fn spec_signature(
    username: Seq<char>,
    host: Seq<char>,
    timestamp: u64,
    key: Seq<char>,
) -> Seq<u8> {
    keyed_hash_of(
        derived_key_of(spec_context_chars(host, timestamp), encode_utf8(key)),
        spec_content_bytes(username, host, timestamp),
    )
}

/// What splitting decoded token bytes yields: the decoded claim and the
/// fixed-length signature suffix, or the first error met.
pub open spec fn spec_parse_bytes(bytes: Seq<u8>) -> Result<
    ((Seq<char>, Seq<char>, u64), Seq<u8>),
    KryptoError,
> {
    if bytes.len() < SIGNATURE_LENGTH {
        Err(KryptoError::InvalidKpassport)
    } else {
        let content_bytes = bytes.subrange(0, bytes.len() - SIGNATURE_LENGTH);
        let signature_bytes = bytes.subrange(bytes.len() - SIGNATURE_LENGTH, bytes.len() as int);
        match spec_decode_content(content_bytes) {
            Ok(claim) => Ok((claim, signature_bytes)),
            Err(e) => Err(e),
        }
    }
}

/// True when `r` is what parsing a token whose decoded bytes are `bytes`
/// must return.
pub open spec fn spec_from_str_result(
    bytes: Seq<u8>,
    r: Result<Kpassport, KryptoError>,
) -> bool {
    match spec_parse_bytes(bytes) {
        Ok(parts) => {
            &&& r matches Ok(t)
            &&& t.content.username@ == parts.0.0
            &&& t.content.host@ == parts.0.1
            &&& t.content.timestamp == parts.0.2
            &&& t.signature matches Some(s) && s@ == parts.1
        },
        Err(e) => r == Err::<Kpassport, KryptoError>(e),
    }
}

/// Full-scan byte comparison: every position is visited whatever the
/// outcome, so the time taken does not reveal where a forged signature
/// first differs.
fn bytes_equal(a: &[u8], b: &[u8]) -> (r: bool)
    ensures
        r == (a@ == b@),
{
    if a.len() != b.len() {
        return false;
    }
    let mut diff: u8 = 0;
    let mut i: usize = 0;
    while i < a.len()
        invariant
            a@.len() == b@.len(),
            i <= a@.len(),
            diff == 0 <==> (forall|j: int| 0 <= j < i ==> a@[j] == b@[j]),
        decreases a@.len() - i,
    {
        if a[i] != b[i] {
            diff = 1;
        }
        i = i + 1;
    }
    if diff == 0 {
        proof {
            assert(a@ =~= b@);
        }
        true
    } else {
        proof {
            assert(a@ != b@);
        }
        false
    }
}

/// The `kpassport` authorization token.
#[derive(Clone, Debug, PartialEq, Eq)]
pub struct Kpassport {
    /// Kpassport content.
    pub content: Content,
    /// The signature of the kpassport: exactly
    /// [`SIGNATURE_LENGTH`] bytes once the token is signed.
    pub signature: Option<Vec<u8>>,
}

impl Kpassport {
    /// What validating this token against a master secret must return:
    /// `KpassportNotSigned` for an unsigned token, the encoding error
    /// for a malformed claim, and otherwise success exactly when the
    /// stored signature equals the recomputed one.
    pub open spec fn spec_validate(self, key: Seq<char>) -> Result<(), KryptoError> {
        match self.signature {
            None => Err(KryptoError::KpassportNotSigned),
            Some(sig) => match spec_encode_content(
                self.content.username@,
                self.content.host@,
                self.content.timestamp,
            ) {
                Err(e) => Err(e),
                Ok(_) => if sig@ == spec_signature(
                    self.content.username@,
                    self.content.host@,
                    self.content.timestamp,
                    key,
                ) {
                    Ok(())
                } else {
                    Err(KryptoError::InvalidKpassportSignature)
                },
            },
        }
    }

    /// Generates a new __unsigned__ `kpassport`, stamped with the
    /// current instant.  Fails with `KpassportSize` exactly when a field
    /// exceeds its fixed wire width.
    pub fn new_unsigned(username: &str, host: &str) -> (r: Result<Kpassport, KryptoError>)
        ensures
            match r {
                Ok(t) => encode_utf8(username@).len() <= USERNAME_LENGTH_LIMIT && encode_utf8(
                    host@,
                ).len() <= HOSTNAME_LENGTH_LIMIT && t.content.username@ == username@
                    && t.content.host@ == host@ && t.content.timestamp < TIMESTAMP_VALUE_LIMIT
                    && t.signature is None,
                Err(e) => e == KryptoError::KpassportSize && (encode_utf8(username@).len()
                    > USERNAME_LENGTH_LIMIT || encode_utf8(host@).len() > HOSTNAME_LENGTH_LIMIT),
            },
    {
        let username_bytes = username.as_bytes_vec();
        let host_bytes = host.as_bytes_vec();
        if username_bytes.len() > USERNAME_LENGTH_LIMIT {
            return Err(KryptoError::KpassportSize);
        }
        if host_bytes.len() > HOSTNAME_LENGTH_LIMIT {
            return Err(KryptoError::KpassportSize);
        }

        let content = Content {
            username: username.to_owned(),
            host: host.to_owned(),
            timestamp: current_timestamp(),
        };

        Ok(Kpassport { content, signature: None })
    }

    /// Signs the kpassport with a key derived from `key` for this
    /// content's host and timestamp.  Re-signing overwrites the
    /// signature deterministically; on a malformed claim the encoding
    /// error is returned and the token is left unchanged.
    pub fn sign(&mut self, key: &str) -> (r: Result<(), KryptoError>)
        ensures
            final(self).content == old(self).content,
            match r {
                Ok(_) => old(self).content.wf() && (final(self).signature matches Some(s) && s@
                    == spec_signature(
                    old(self).content.username@,
                    old(self).content.host@,
                    old(self).content.timestamp,
                    key@,
                )),
                Err(e) => spec_encode_content(
                    old(self).content.username@,
                    old(self).content.host@,
                    old(self).content.timestamp,
                ) == Err::<Seq<u8>, KryptoError>(e) && final(self).signature == old(
                    self,
                ).signature,
            },
    {
        let key_derivation_context = Context {
            host: self.content.host.clone(),
            timestamp: self.content.timestamp,
        };

        let derived_key = derive_key(key_derivation_context, key.as_bytes());
        let content_bytes = self.content.as_bytes()?;
        let signature = blake3_keyed_hash(&derived_key, content_bytes.as_slice());
        self.signature = Some(slice_to_vec(signature.as_slice()));

        Ok(())
    }

    /// Validates the kpassport: recomputes the signature that `sign`
    /// would store for this claim and compares it byte for byte.  A pure
    /// function of (content, signature, key).
    pub fn validate(&self, key: &str) -> (r: Result<(), KryptoError>)
        ensures
            r == self.spec_validate(key@),
    {
        match &self.signature {
            Some(signature) => {
                let key_derivation_context = Context {
                    host: self.content.host.clone(),
                    timestamp: self.content.timestamp,
                };

                let derived_key = derive_key(key_derivation_context, key.as_bytes());
                let content_bytes = self.content.as_bytes()?;
                let expected = blake3_keyed_hash(&derived_key, content_bytes.as_slice());

                if !bytes_equal(expected.as_slice(), signature.as_slice()) {
                    return Err(KryptoError::InvalidKpassportSignature);
                }

                Ok(())
            },
            None => Err(KryptoError::KpassportNotSigned),
        }
    }

    /// Exports the kpassport as its URL-safe base64 transport text:
    /// the content bytes followed by the signature, encoded as one
    /// opaque string.  Fails with `KpassportNotSigned` on an unsigned
    /// token and with the encoding error on a malformed claim.
    pub fn export(self) -> (r: Result<String, KryptoError>)
        ensures
            match r {
                Ok(text) => self.signature matches Some(sig) && self.content.wf() && text@
                    == base64_of(
                    spec_content_bytes(
                        self.content.username@,
                        self.content.host@,
                        self.content.timestamp,
                    ) + sig@,
                ) && (sig@.len() == SIGNATURE_LENGTH ==> text@.len() <= 4 * ((USERNAME_LENGTH_LIMIT + 1
                    + HOSTNAME_LENGTH_LIMIT + TIMESTAMP_LENGTH + SIGNATURE_LENGTH + 2) / 3)),
                Err(e) => if self.signature is None {
                    e == KryptoError::KpassportNotSigned
                } else {
                    spec_encode_content(
                        self.content.username@,
                        self.content.host@,
                        self.content.timestamp,
                    ) == Err::<Seq<u8>, KryptoError>(e)
                },
            },
    {
        match self.signature {
            Some(signature) => {
                let mut kpassport_bytes = self.content.as_bytes()?;
                let mut signature_bytes = slice_to_vec(signature.as_slice());
                kpassport_bytes.append(&mut signature_bytes);

                let encoded = base64_encode(kpassport_bytes.as_slice());
                proof {
                    if signature@.len() == SIGNATURE_LENGTH {
                        vstd::arithmetic::div_mod::lemma_div_is_ordered(
                            kpassport_bytes@.len() as int + 2,
                            (USERNAME_LENGTH_LIMIT + 1 + HOSTNAME_LENGTH_LIMIT + TIMESTAMP_LENGTH
                                + SIGNATURE_LENGTH + 2) as int,
                            3,
                        );
                    }
                }
                Ok(encoded)
            },
            None => Err(KryptoError::KpassportNotSigned),
        }
    }

    /// Derives a `kpassport` from its base64 transport text: decodes,
    /// splits off the fixed-length signature, and decodes the claim.
    /// Fails with `InvalidKpassport` when the text is not canonical
    /// base64 or too short to hold a signature.
    pub fn from_str(kpassport_str: &str) -> (r: Result<Kpassport, KryptoError>)
        ensures
            (forall|b: Seq<u8>| kpassport_str@ != base64_of(b)) ==> r == Err::<
                Kpassport,
                KryptoError,
            >(KryptoError::InvalidKpassport),
            forall|b: Seq<u8>| kpassport_str@ == base64_of(b) ==> spec_from_str_result(b, r),
    {
        let kpassport_bytes = Kpassport::as_bytes(kpassport_str)?;
        let content_bytes = Kpassport::get_content_bytes(kpassport_bytes.as_slice())?;
        let content = Content::from_bytes(slice_to_vec(content_bytes))?;
        let signature_bytes = Kpassport::get_signature_bytes(kpassport_bytes.as_slice())?;
        let signature = Kpassport::signature_from_bytes(slice_to_vec(signature_bytes))?;

        Ok(Kpassport { content, signature: Some(signature) })
    }

    /// Accepts exactly [`SIGNATURE_LENGTH`] bytes as a signature value.
    pub fn signature_from_bytes(bytes: Vec<u8>) -> (r: Result<Vec<u8>, KryptoError>)
        ensures
            match r {
                Ok(s) => bytes@.len() == SIGNATURE_LENGTH && s@ == bytes@,
                Err(e) => e == KryptoError::InvalidKpassportSignature && bytes@.len()
                    != SIGNATURE_LENGTH,
            },
    {
        if bytes.len() == SIGNATURE_LENGTH {
            Ok(bytes)
        } else {
            Err(KryptoError::InvalidKpassportSignature)
        }
    }

    /// Converts a kpassport's base64 transport text to its decoded
    /// bytes; `InvalidKpassport` when the text is not canonical base64.
    fn as_bytes(kpassport_str: &str) -> (r: Result<Vec<u8>, KryptoError>)
        ensures
            match r {
                Ok(d) => kpassport_str@ == base64_of(d@) && forall|b: Seq<u8>|
                    kpassport_str@ == base64_of(b) ==> b == d@,
                Err(e) => e == KryptoError::InvalidKpassport && forall|b: Seq<u8>|
                    kpassport_str@ != base64_of(b),
            },
    {
        match base64_decode(kpassport_str) {
            Some(b) => Ok(b),
            None => Err(KryptoError::InvalidKpassport),
        }
    }

    /// The claim's region of decoded token bytes: everything before the
    /// fixed-length signature.
    fn get_content_bytes(kpassport_bytes: &[u8]) -> (r: Result<&[u8], KryptoError>)
        ensures
            match r {
                Ok(c) => kpassport_bytes@.len() >= SIGNATURE_LENGTH && c@
                    == kpassport_bytes@.subrange(
                    0,
                    kpassport_bytes@.len() - SIGNATURE_LENGTH,
                ),
                Err(e) => e == KryptoError::InvalidKpassport && kpassport_bytes@.len()
                    < SIGNATURE_LENGTH,
            },
    {
        if kpassport_bytes.len() < SIGNATURE_LENGTH {
            return Err(KryptoError::InvalidKpassport);
        }
        let kpassport_content_length = kpassport_bytes.len() - SIGNATURE_LENGTH;
        Ok(slice_subrange(kpassport_bytes, 0, kpassport_content_length))
    }

    /// The signature's region of decoded token bytes: the fixed-length
    /// suffix.
    fn get_signature_bytes(kpassport_bytes: &[u8]) -> (r: Result<&[u8], KryptoError>)
        ensures
            match r {
                Ok(s) => kpassport_bytes@.len() >= SIGNATURE_LENGTH && s@
                    == kpassport_bytes@.subrange(
                    kpassport_bytes@.len() - SIGNATURE_LENGTH,
                    kpassport_bytes@.len() as int,
                ),
                Err(e) => e == KryptoError::InvalidKpassport && kpassport_bytes@.len()
                    < SIGNATURE_LENGTH,
            },
    {
        if kpassport_bytes.len() < SIGNATURE_LENGTH {
            return Err(KryptoError::InvalidKpassport);
        }
        let kpassport_content_length = kpassport_bytes.len() - SIGNATURE_LENGTH;
        Ok(slice_subrange(kpassport_bytes, kpassport_content_length, kpassport_bytes.len()))
    }
}

} // verus!
