//! The signing engine: the two schemes, the capability interfaces, and the
//! dispatch layer.

use vstd::prelude::*;
use crate::errors::TextError;
use crate::formats::TextSignFormat;
use crate::keys::{validate, KeyBundle, KeyEntry};
use crate::primitives::{
    blake3_digest, blake3_keyed_hash, ed25519_accepts, ed25519_check_public,
    ed25519_derive_public, ed25519_key_valid, ed25519_public_key, ed25519_sign_bytes,
    ed25519_signature, ed25519_verify_bytes, random_key_bytes,
};

verus! {

/// Full-buffer equality of two byte buffers of the same length.
///
/// Every byte is visited and folded into an accumulator before the single
/// comparison at the end: the work done does not depend on where the first
/// mismatch lies, and no observable output says which bytes differed.
pub fn ct_bytes_equal(a: &[u8], b: &[u8]) -> (r: bool)
    requires
        a@.len() == b@.len(),
    ensures
        r == (a@ == b@),
{
    let n: usize = a.len();
    let mut acc: u8 = 0;
    let mut i: usize = 0;
    while i < n
        invariant
            n == a@.len(),
            n == b@.len(),
            i <= n,
            (acc == 0) <==> (forall|j: int| 0 <= j < i ==> a@[j] == b@[j]),
        decreases n - i,
    {
        let x: u8 = *vstd::slice::slice_index_get(a, i);
        let y: u8 = *vstd::slice::slice_index_get(b, i);
        let d: u8 = x ^ y;
        let ghost prev: u8 = acc;
        acc = acc | d;
        proof {
            assert((x ^ y == 0) == (x == y)) by (bit_vector);
            assert(((prev | d) == 0) == (prev == 0 && d == 0)) by (bit_vector);
            assert((acc == 0) <==> (forall|j: int| 0 <= j < i + 1 ==> a@[j] == b@[j])) by {
                if prev == 0 && d == 0 {
                    assert(forall|j: int| 0 <= j < i + 1 ==> a@[j] == b@[j]);
                } else if prev != 0 {
                    let k = choose|k: int| 0 <= k < i && a@[k] != b@[k];
                    assert(a@[k] != b@[k]);
                } else {
                    assert(a@[i as int] != b@[i as int]);
                }
            };
        }
        i = i + 1;
    }
    if acc == 0 {
        proof {
            assert(a@ =~= b@);
        }
        true
    } else {
        proof {
            let k = choose|k: int| 0 <= k < n && a@[k] != b@[k];
            assert(a@[k] != b@[k]);
        }
        false
    }
}

/// The signing capability: a scheme instance that holds key material able to
/// produce signatures.
pub trait TextSigner {
    /// The key material held is well-formed for the scheme.
    spec fn signer_wf(&self) -> bool;

    /// The signature the scheme yields for this content: a deterministic
    /// function of the held key and the content.
    spec fn signature_of(&self, content: Seq<u8>) -> Seq<u8>;

    /// The byte length of every signature the scheme produces.
    spec fn produced_len(&self) -> int;

    /// Signs the content.
    fn sign(&self, content: &[u8]) -> (r: Vec<u8>)
        requires
            self.signer_wf(),
        ensures
            r@ == self.signature_of(content@),
            r@.len() == self.produced_len(),
    ;
}

/// The verifying capability: a scheme instance that holds key material able
/// to check signatures.
pub trait TextVerify {
    /// The key material held is well-formed for the scheme.
    spec fn verifier_wf(&self) -> bool;

    /// The signature byte length the scheme demands.
    spec fn expected_sig_len(&self) -> int;

    /// Whether the scheme accepts this signature over this content: a
    /// deterministic function of the held key, the content, and the
    /// signature.
    spec fn accepts(&self, content: Seq<u8>, signature: Seq<u8>) -> bool;

    /// Checks the signature over the content. A mismatch is the defined
    /// `false` result, not an error; a signature of the wrong length fails
    /// with `MalformedSignature` rather than being compared.
    fn verify(&self, content: &[u8], signature: &[u8]) -> (r: Result<bool, TextError>)
        requires
            self.verifier_wf(),
        ensures
            r is Ok <==> signature@.len() == self.expected_sig_len(),
            r is Ok ==> r->Ok_0 == self.accepts(content@, signature@),
            r is Err ==> r->Err_0 == TextError::MalformedSignature,
    ;
}

/// The symmetric keyed-hash scheme: the same 32-byte key produces and checks
/// a 32-byte signature.
pub struct Blake3 {
    key: Vec<u8>,
}

impl Blake3 {
    /// The held key bytes.
    pub closed spec fn key_bytes(&self) -> Seq<u8> {
        self.key@
    }

    /// The key material is exactly 32 bytes.
    pub open spec fn wf(&self) -> bool {
        self.key_bytes().len() == 32
    }

    /// Wraps an exact 32-byte key.
    pub fn new(key: [u8; 32]) -> (r: Self)
        ensures
            r.key_bytes() == key@,
            r.wf(),
    {
        Blake3 { key: vstd::slice::slice_to_vec(key.as_slice()) }
    }

    /// Validates externally supplied key bytes: fails with `KeyTooShort` on
    /// fewer than 32 bytes, and retains only the first 32.
    pub fn try_new(key: &[u8]) -> (r: Result<Self, TextError>)
        ensures
            key@.len() >= 32 ==> r is Ok && r->Ok_0.key_bytes() == key@.subrange(0, 32)
                && r->Ok_0.wf(),
            key@.len() < 32 ==> r is Err && r->Err_0 == TextError::KeyTooShort,
    {
        match validate(key, 32) {
            Ok(material) => Ok(Blake3 { key: material.into_bytes() }),
            Err(e) => Err(e),
        }
    }

    /// Draws a fresh random 32-byte key from the operating system's entropy
    /// source, labeled for persistence.
    pub fn generate() -> (r: KeyBundle)
        ensures
            r.entries@.len() == 1,
            r.entries@[0].name@ == "blake3.txt"@,
            r.entries@[0].content@.len() == 32,
    {
        let key = random_key_bytes();
        let mut entries: Vec<KeyEntry> = Vec::new();
        entries.push(KeyEntry { name: "blake3.txt", content: key });
        KeyBundle { entries }
    }
}

impl TextSigner for Blake3 {
    open spec fn signer_wf(&self) -> bool {
        self.wf()
    }

    open spec fn signature_of(&self, content: Seq<u8>) -> Seq<u8> {
        blake3_digest(self.key_bytes(), content)
    }

    open spec fn produced_len(&self) -> int {
        32
    }

    fn sign(&self, content: &[u8]) -> (r: Vec<u8>) {
        blake3_keyed_hash(self.key.as_slice(), content)
    }
}

impl TextVerify for Blake3 {
    open spec fn verifier_wf(&self) -> bool {
        self.wf()
    }

    open spec fn expected_sig_len(&self) -> int {
        32
    }

    open spec fn accepts(&self, content: Seq<u8>, signature: Seq<u8>) -> bool {
        signature == blake3_digest(self.key_bytes(), content)
    }

    fn verify(&self, content: &[u8], signature: &[u8]) -> (r: Result<bool, TextError>) {
        if signature.len() != 32 {
            return Err(TextError::MalformedSignature);
        }
        let digest = blake3_keyed_hash(self.key.as_slice(), content);
        Ok(ct_bytes_equal(signature, digest.as_slice()))
    }
}

/// The signing half of the asymmetric scheme: a 32-byte private key produces
/// 64-byte signatures.
pub struct Ed25519Signer {
    key: Vec<u8>,
}

impl Ed25519Signer {
    /// The held signing-key bytes.
    pub closed spec fn key_bytes(&self) -> Seq<u8> {
        self.key@
    }

    /// The key material is exactly 32 bytes.
    pub open spec fn wf(&self) -> bool {
        self.key_bytes().len() == 32
    }

    /// Wraps an exact 32-byte signing key. Every 32-byte buffer is a valid
    /// signing key.
    pub fn new(key: &[u8; 32]) -> (r: Self)
        ensures
            r.key_bytes() == key@,
            r.wf(),
    {
        Ed25519Signer { key: vstd::slice::slice_to_vec(key.as_slice()) }
    }

    /// Validates externally supplied key bytes: fails with `KeyTooShort` on
    /// fewer than 32 bytes, and retains only the first 32.
    pub fn try_new(key: &[u8]) -> (r: Result<Self, TextError>)
        ensures
            key@.len() >= 32 ==> r is Ok && r->Ok_0.key_bytes() == key@.subrange(0, 32)
                && r->Ok_0.wf(),
            key@.len() < 32 ==> r is Err && r->Err_0 == TextError::KeyTooShort,
    {
        match validate(key, 32) {
            Ok(material) => Ok(Ed25519Signer { key: material.into_bytes() }),
            Err(e) => Err(e),
        }
    }

    /// Draws a fresh random signing key and derives the matching public key
    /// from it, always as a pair in one call: an unmatched pair would break
    /// verification silently, without any error signal.
    pub fn generate() -> (r: KeyBundle)
        ensures
            r.entries@.len() == 2,
            r.entries@[0].name@ == "ed25519.sk"@,
            r.entries@[0].content@.len() == 32,
            r.entries@[1].name@ == "ed25519.pk"@,
            r.entries@[1].content@.len() == 32,
            r.entries@[1].content@ == ed25519_public_key(r.entries@[0].content@),
            ed25519_key_valid(r.entries@[1].content@),
    {
        let sk = random_key_bytes();
        let pk = ed25519_derive_public(sk.as_slice());
        let mut entries: Vec<KeyEntry> = Vec::new();
        entries.push(KeyEntry { name: "ed25519.sk", content: sk });
        entries.push(KeyEntry { name: "ed25519.pk", content: pk });
        KeyBundle { entries }
    }
}

impl TextSigner for Ed25519Signer {
    open spec fn signer_wf(&self) -> bool {
        self.wf()
    }

    open spec fn signature_of(&self, content: Seq<u8>) -> Seq<u8> {
        ed25519_signature(self.key_bytes(), content)
    }

    open spec fn produced_len(&self) -> int {
        64
    }

    fn sign(&self, content: &[u8]) -> (r: Vec<u8>)
        ensures
            ed25519_accepts(ed25519_public_key(self.key_bytes()), content@, r@),
    {
        ed25519_sign_bytes(self.key.as_slice(), content)
    }
}

/// The verifying half of the asymmetric scheme: a 32-byte public key checks
/// 64-byte signatures. A distinct type from the signer, since the two halves
/// of the keypair have different capabilities.
pub struct Ed25519Verifier {
    key: Vec<u8>,
}

impl Ed25519Verifier {
    /// The held public-key bytes.
    pub closed spec fn key_bytes(&self) -> Seq<u8> {
        self.key@
    }

    /// The key material is exactly 32 bytes and decodes to a valid public
    /// key.
    pub open spec fn wf(&self) -> bool {
        self.key_bytes().len() == 32 && ed25519_key_valid(self.key_bytes())
    }

    /// Validates externally supplied key bytes: fails with `KeyTooShort` on
    /// fewer than 32 bytes, retains only the first 32, and fails with
    /// `InvalidKey` if those do not decode to a valid public key.
    pub fn try_new(key: &[u8]) -> (r: Result<Self, TextError>)
        ensures
            key@.len() < 32 ==> r is Err && r->Err_0 == TextError::KeyTooShort,
            key@.len() >= 32 && !ed25519_key_valid(key@.subrange(0, 32)) ==> r is Err
                && r->Err_0 == TextError::InvalidKey,
            key@.len() >= 32 && ed25519_key_valid(key@.subrange(0, 32)) ==> r is Ok
                && r->Ok_0.key_bytes() == key@.subrange(0, 32) && r->Ok_0.wf(),
    {
        let material = match validate(key, 32) {
            Ok(material) => material,
            Err(e) => {
                return Err(e);
            },
        };
        if !ed25519_check_public(material.as_bytes()) {
            return Err(TextError::InvalidKey);
        }
        Ok(Ed25519Verifier { key: material.into_bytes() })
    }
}

impl TextVerify for Ed25519Verifier {
    open spec fn verifier_wf(&self) -> bool {
        self.wf()
    }

    open spec fn expected_sig_len(&self) -> int {
        64
    }

    open spec fn accepts(&self, content: Seq<u8>, signature: Seq<u8>) -> bool {
        ed25519_accepts(self.key_bytes(), content, signature)
    }

    fn verify(&self, content: &[u8], signature: &[u8]) -> (r: Result<bool, TextError>) {
        if signature.len() != 64 {
            return Err(TextError::MalformedSignature);
        }
        Ok(ed25519_verify_bytes(self.key.as_slice(), content, signature))
    }
}

/// The signature byte length of each scheme.
pub open spec fn spec_signature_len(format: TextSignFormat) -> int {
    match format {
        TextSignFormat::Blake3 => 32,
        TextSignFormat::Ed25519 => 64,
    }
}

/// What signing yields: `KeyTooShort` on fewer than 32 key bytes, else the
/// scheme's deterministic signature under the first 32 key bytes.
pub open spec fn spec_sign(format: TextSignFormat, key: Seq<u8>, content: Seq<u8>) -> Result<
    Seq<u8>,
    TextError,
> {
    if key.len() < 32 {
        Err(TextError::KeyTooShort)
    } else {
        match format {
            TextSignFormat::Blake3 => Ok(blake3_digest(key.subrange(0, 32), content)),
            TextSignFormat::Ed25519 => Ok(ed25519_signature(key.subrange(0, 32), content)),
        }
    }
}

/// What verification yields: `KeyTooShort` on fewer than 32 key bytes;
/// `InvalidKey` where the asymmetric key prefix does not decode;
/// `MalformedSignature` on a signature of the wrong length for the scheme;
/// else the scheme's deterministic accept/reject result.
pub open spec fn spec_verify(
    format: TextSignFormat,
    key: Seq<u8>,
    content: Seq<u8>,
    signature: Seq<u8>,
) -> Result<bool, TextError> {
    if key.len() < 32 {
        Err(TextError::KeyTooShort)
    } else {
        let k = key.subrange(0, 32);
        match format {
            TextSignFormat::Blake3 => if signature.len() != 32 {
                Err(TextError::MalformedSignature)
            } else {
                Ok(signature == blake3_digest(k, content))
            },
            TextSignFormat::Ed25519 => if !ed25519_key_valid(k) {
                Err(TextError::InvalidKey)
            } else if signature.len() != 64 {
                Err(TextError::MalformedSignature)
            } else {
                Ok(ed25519_accepts(k, content, signature))
            },
        }
    }
}

/// Signs `content` under the scheme the format tag selects, using the first
/// 32 bytes of `key` as the symmetric key or the private key.
pub fn process_text_sign(content: &[u8], format: TextSignFormat, key: &[u8]) -> (r: Result<
    Vec<u8>,
    TextError,
>)
    ensures
        r is Ok <==> spec_sign(format, key@, content@) is Ok,
        r is Ok ==> r->Ok_0@ == spec_sign(format, key@, content@)->Ok_0,
        r is Err ==> r->Err_0 == spec_sign(format, key@, content@)->Err_0,
        r is Ok ==> r->Ok_0@.len() == spec_signature_len(format),
        format is Ed25519 && r is Ok ==> ed25519_accepts(
            ed25519_public_key(key@.subrange(0, 32)),
            content@,
            r->Ok_0@,
        ),
{
    match format {
        TextSignFormat::Blake3 => match Blake3::try_new(key) {
            Ok(signer) => Ok(signer.sign(content)),
            Err(e) => Err(e),
        },
        TextSignFormat::Ed25519 => match Ed25519Signer::try_new(key) {
            Ok(signer) => Ok(signer.sign(content)),
            Err(e) => Err(e),
        },
    }
}

/// Verifies `signature` over `content` under the scheme the format tag
/// selects, using the first 32 bytes of `key` as the symmetric key or the
/// public key. A mismatch is the `false` result; only structural problems
/// are errors.
pub fn process_text_verify(
    content: &[u8],
    key: &[u8],
    signature: &[u8],
    format: TextSignFormat,
) -> (r: Result<bool, TextError>)
    ensures
        r == spec_verify(format, key@, content@, signature@),
{
    match format {
        TextSignFormat::Blake3 => match Blake3::try_new(key) {
            Ok(verifier) => verifier.verify(content, signature),
            Err(e) => Err(e),
        },
        TextSignFormat::Ed25519 => match Ed25519Verifier::try_new(key) {
            Ok(verifier) => verifier.verify(content, signature),
            Err(e) => Err(e),
        },
    }
}

/// Generates the key material of the scheme the format tag selects: one
/// 32-byte entry for the symmetric scheme; for the asymmetric scheme a
/// signing key and the public key derived from it, as a matched pair.
pub fn process_text_generate_key(format: TextSignFormat) -> (r: KeyBundle)
    ensures
        format is Blake3 ==> r.entries@.len() == 1 && r.entries@[0].name@ == "blake3.txt"@
            && r.entries@[0].content@.len() == 32,
        format is Ed25519 ==> r.entries@.len() == 2 && r.entries@[0].name@ == "ed25519.sk"@
            && r.entries@[0].content@.len() == 32 && r.entries@[1].name@ == "ed25519.pk"@
            && r.entries@[1].content@.len() == 32 && r.entries@[1].content@
            == ed25519_public_key(r.entries@[0].content@) && ed25519_key_valid(
            r.entries@[1].content@,
        ),
{
    match format {
        TextSignFormat::Blake3 => Blake3::generate(),
        TextSignFormat::Ed25519 => Ed25519Signer::generate(),
    }
}

/// Law: a Blake3 signature just produced verifies under the same key. For
/// any key of at least 32 bytes and any content, signing yields the keyed
/// digest — a 32-byte buffer, as the digest always is — and verification
/// under the same key recomputes the digest and accepts it.
pub proof fn lemma_blake3_round_trip(key: Seq<u8>, content: Seq<u8>, signature: Seq<u8>)
    requires
        key.len() >= 32,
        spec_sign(TextSignFormat::Blake3, key, content) == Ok::<Seq<u8>, TextError>(signature),
        signature.len() == 32,
    ensures
        spec_verify(TextSignFormat::Blake3, key, content, signature) == Ok::<bool, TextError>(
            true,
        ),
{
}

/// Law: an Ed25519 signature just produced verifies under the matching
/// public key. The premises are exactly what the engine's contracts supply:
/// key generation yields a valid 32-byte public key derived from the signing
/// key, and signing yields a 64-byte signature that the algorithm accepts
/// under that derived key.
pub proof fn lemma_ed25519_round_trip(
    sk: Seq<u8>,
    pk: Seq<u8>,
    content: Seq<u8>,
    signature: Seq<u8>,
)
    requires
        sk.len() == 32,
        pk == ed25519_public_key(sk),
        pk.len() == 32,
        ed25519_key_valid(pk),
        spec_sign(TextSignFormat::Ed25519, sk, content) == Ok::<Seq<u8>, TextError>(signature),
        signature.len() == 64,
        ed25519_accepts(pk, content, signature),
    ensures
        spec_verify(TextSignFormat::Ed25519, pk, content, signature) == Ok::<bool, TextError>(
            true,
        ),
{
    assert(pk.subrange(0, 32) =~= pk);
}

/// Law: only the first 32 key bytes are effective. Two keys that agree on
/// their 32-byte prefix sign every content identically, whatever the scheme;
/// in particular a long key signs exactly as its 32-byte prefix does.
pub proof fn lemma_key_prefix_effective(
    format: TextSignFormat,
    key1: Seq<u8>,
    key2: Seq<u8>,
    content: Seq<u8>,
)
    requires
        key1.len() >= 32,
        key2.len() >= 32,
        key1.subrange(0, 32) == key2.subrange(0, 32),
    ensures
        spec_sign(format, key1, content) == spec_sign(format, key2, content),
{
}

} // verus!
