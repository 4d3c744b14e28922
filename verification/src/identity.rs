//! Certificates, RSA signatures and the long-lived client identity.
use vstd::prelude::*;
use rand::RngCore;
use rsa::pkcs8::{DecodePrivateKey, DecodePublicKey, EncodePrivateKey, EncodePublicKey, LineEnding};
use rsa::signature::{SignatureEncoding, Signer, Verifier};
use x509_cert::der::{DecodePem, Encode};

use crate::control::{is_crypto_error, is_identity_error, is_pairing_error, ControlError};
use crate::xml::{hex_encode, spec_hex_encode};

verus! {

/// What reading the public key of a PEM certificate gives.
pub enum CertificateKey {
    /// The certificate does not parse; the parser's message.
    Unreadable(String),
    /// The certificate parses but holds no usable RSA key; the message.
    BadKey(String),
    /// The RSA public key, DER-encoded.
    Key(Vec<u8>),
}

/// Mathematical value of a [`CertificateKey`].
pub enum CertificateKeyView {
    Unreadable(Seq<char>),
    BadKey(Seq<char>),
    Key(Seq<u8>),
}

impl View for CertificateKey {
    type V = CertificateKeyView;

    open spec fn view(&self) -> CertificateKeyView {
        match self {
            CertificateKey::Unreadable(m) => CertificateKeyView::Unreadable(m@),
            CertificateKey::BadKey(m) => CertificateKeyView::BadKey(m@),
            CertificateKey::Key(k) => CertificateKeyView::Key(k@),
        }
    }
}

/// The public key of the PEM certificate `pem`.
pub uninterp spec fn certificate_key(pem: Seq<u8>) -> CertificateKeyView;

/// The signature bits of the PEM certificate `pem` (`None` when they are not
/// whole bytes), or the parser's message.
pub uninterp spec fn certificate_signature_bits(pem: Seq<u8>) -> Result<Option<Seq<u8>>, Seq<char>>;

/// The DER public key of the PKCS#8 PEM private key `pem`, or the message.
pub uninterp spec fn private_key_public_key(pem: Seq<char>) -> Result<Seq<u8>, Seq<char>>;

/// Whether `signature` is a valid RSA PKCS#1 v1.5 SHA-256 signature of
/// `message` under the DER public key `key`; `Err` when the key or the
/// signature does not parse.
pub uninterp spec fn rsa_sha256_verifies(key: Seq<u8>, message: Seq<u8>, signature: Seq<u8>) -> Result<bool, Seq<char>>;

/// The RSA PKCS#1 v1.5 SHA-256 signature of `message` under the PKCS#8 PEM
/// private key `pem`, or the message of the failure (the key does not
/// parse, or is too small for the padded digest).
pub uninterp spec fn rsa_sha256_signature(pem: Seq<char>, message: Seq<u8>) -> Result<Seq<u8>, Seq<char>>;

/// Reads the RSA public key of a PEM certificate (`x509_cert::Certificate::
/// from_pem`, then `rsa::RsaPublicKey::from_public_key_der` of its subject
/// public key info, encoded again with `to_public_key_der`).
///
/// Trusted: the outcome is what `certificate_key` names.
#[verifier::external_body]
fn read_certificate_key(pem: &[u8]) -> (res: CertificateKey)
    ensures
        res@ == certificate_key(pem@),
{
    let certificate = match x509_cert::Certificate::from_pem(pem) {
        Ok(certificate) => certificate,
        Err(error) => return CertificateKey::Unreadable(error.to_string()),
    };
    let key = certificate.tbs_certificate.subject_public_key_info.to_der().map_err(|e| e.to_string())
        .and_then(|der| rsa::RsaPublicKey::from_public_key_der(&der).map_err(|e| e.to_string()))
        .and_then(|key| key.to_public_key_der().map_err(|e| e.to_string()));
    match key {
        Ok(der) => CertificateKey::Key(der.as_bytes().to_vec()),
        Err(message) => CertificateKey::BadKey(message),
    }
}

/// Reads the signature bits of a PEM certificate
/// (`x509_cert::Certificate::from_pem`, then `BitString::as_bytes`).
///
/// Trusted: the outcome is what `certificate_signature_bits` names.
#[verifier::external_body]
fn read_signature_bits(pem: &[u8]) -> (res: Result<Option<Vec<u8>>, String>)
    ensures
        match res {
            Ok(Some(bits)) => certificate_signature_bits(pem@) == Ok::<Option<Seq<u8>>, Seq<char>>(Some(bits@)),
            Ok(None) => certificate_signature_bits(pem@) == Ok::<Option<Seq<u8>>, Seq<char>>(None),
            Err(m) => certificate_signature_bits(pem@) == Err::<Option<Seq<u8>>, Seq<char>>(m@),
        },
{
    let certificate = x509_cert::Certificate::from_pem(pem).map_err(|error| error.to_string())?;
    Ok(certificate.signature.as_bytes().map(|bits| bits.to_vec()))
}

/// Reads a PKCS#8 PEM private key (`rsa::RsaPrivateKey::from_pkcs8_pem`)
/// and encodes its public key (`to_public_key_der`).
///
/// Trusted: the outcome is what `private_key_public_key` names.
#[verifier::external_body]
fn read_private_key(pem: &str) -> (res: Result<Vec<u8>, String>)
    ensures
        match res {
            Ok(key) => private_key_public_key(pem@) == Ok::<Seq<u8>, Seq<char>>(key@),
            Err(m) => private_key_public_key(pem@) == Err::<Seq<u8>, Seq<char>>(m@),
        },
{
    let key = rsa::RsaPrivateKey::from_pkcs8_pem(pem).map_err(|error| error.to_string())?;
    let public = rsa::RsaPublicKey::from(&key).to_public_key_der().map_err(|error| error.to_string())?;
    Ok(public.as_bytes().to_vec())
}

/// Verifies an RSA PKCS#1 v1.5 SHA-256 signature
/// (`rsa::pkcs1v15::VerifyingKey::<Sha256>::verify`).
///
/// Trusted: the outcome is what `rsa_sha256_verifies` names.
#[verifier::external_body]
fn rsa_verify(key: &[u8], message: &[u8], signature: &[u8]) -> (res: Result<bool, String>)
    ensures
        match res {
            Ok(b) => rsa_sha256_verifies(key@, message@, signature@) == Ok::<bool, Seq<char>>(b),
            Err(m) => rsa_sha256_verifies(key@, message@, signature@) == Err::<bool, Seq<char>>(m@),
        },
{
    let key = rsa::RsaPublicKey::from_public_key_der(key).map_err(|error| error.to_string())?;
    let verifying_key = rsa::pkcs1v15::VerifyingKey::<sha2::Sha256>::new(key);
    let signature = rsa::pkcs1v15::Signature::try_from(signature).map_err(|error| error.to_string())?;
    Ok(verifying_key.verify(message, &signature).is_ok())
}

/// Signs with RSA PKCS#1 v1.5 SHA-256 under a PKCS#8 PEM private key
/// (`rsa::RsaPrivateKey::from_pkcs8_pem`, then `rsa::pkcs1v15::SigningKey::
/// <Sha256>::try_sign`, which fails rather than panics on a key too small
/// for the padded digest).
///
/// Trusted: the outcome is what `rsa_sha256_signature` names.
#[verifier::external_body]
fn rsa_sign(private_key_pem: &str, message: &[u8]) -> (res: Result<Vec<u8>, String>)
    ensures
        match res {
            Ok(signature) => rsa_sha256_signature(private_key_pem@, message@) == Ok::<Seq<u8>, Seq<char>>(
                signature@,
            ),
            Err(m) => rsa_sha256_signature(private_key_pem@, message@) == Err::<Seq<u8>, Seq<char>>(m@),
        },
{
    let key = rsa::RsaPrivateKey::from_pkcs8_pem(private_key_pem).map_err(|error| error.to_string())?;
    let signing_key = rsa::pkcs1v15::SigningKey::<sha2::Sha256>::new(key);
    let signature = signing_key.try_sign(message).map_err(|error| error.to_string())?;
    Ok(signature.to_vec())
}

/// Fills an array with bytes from the operating system's random source
/// (`rand::rngs::OsRng::fill_bytes`). Nothing is stated of the bytes.
#[verifier::external_body]
pub(crate) fn random_bytes<const SIZE: usize>() -> (res: [u8; SIZE]) {
    let mut bytes = [0u8; SIZE];
    rand::rngs::OsRng.fill_bytes(&mut bytes);
    bytes
}

/// Generates a 2048-bit RSA private key (`rsa::RsaPrivateKey::new` with
/// `OsRng`) as PKCS#8 PEM with LF line endings. Nothing is stated of the key,
/// which is random.
#[verifier::external_body]
fn generate_private_key_pem() -> (res: Result<String, String>) {
    let key = rsa::RsaPrivateKey::new(&mut rand::rngs::OsRng, 2048).map_err(|error| error.to_string())?;
    Ok(key.to_pkcs8_pem(LineEnding::LF).map_err(|error| error.to_string())?.to_string())
}

/// Issues a self-signed RSA-SHA256 certificate for a PKCS#8 PEM key with
/// `rcgen` (common name "NVIDIA GameStream Client", serial 0). Nothing is
/// stated of the certificate text.
#[verifier::external_body]
fn self_signed_certificate_pem(private_key_pem: &str) -> (res: Result<String, String>) {
    let key_pair = rcgen::KeyPair::from_pkcs8_pem_and_sign_algo(private_key_pem, &rcgen::PKCS_RSA_SHA256)
        .map_err(|error| error.to_string())?;
    let mut parameters = rcgen::CertificateParams::new(Vec::<String>::new()).map_err(|error| error.to_string())?;
    let mut name = rcgen::DistinguishedName::new();
    name.push(rcgen::DnType::CommonName, "NVIDIA GameStream Client");
    parameters.distinguished_name = name;
    parameters.serial_number = Some(0u64.into());
    Ok(parameters.self_signed(&key_pair).map_err(|error| error.to_string())?.pem())
}

/// The signature bits of a PEM certificate.
pub fn certificate_signature(certificate_pem: &[u8]) -> (res: Result<Vec<u8>, ControlError>)
    ensures
        match certificate_signature_bits(certificate_pem@) {
            Ok(Some(bits)) => res is Ok && res->Ok_0@ == bits,
            Ok(None) => res is Err && is_crypto_error(res->Err_0, "invalid certificate signature bits"@),
            Err(m) => res is Err && is_crypto_error(res->Err_0, m),
        },
{
    match read_signature_bits(certificate_pem) {
        Ok(Some(bits)) => Ok(bits),
        Ok(None) => Err(ControlError::Crypto("invalid certificate signature bits".to_owned())),
        Err(message) => Err(ControlError::Crypto(message)),
    }
}

/// Verifies that `signature` signs `message` under the key of the PEM
/// certificate.
pub fn verify_signature(certificate_pem: &[u8], message: &[u8], signature: &[u8]) -> (res: Result<(), ControlError>)
    ensures
        match certificate_key(certificate_pem@) {
            CertificateKeyView::Unreadable(m) => res is Err && is_crypto_error(res->Err_0, m),
            CertificateKeyView::BadKey(m) => res is Err && is_crypto_error(res->Err_0, m),
            CertificateKeyView::Key(key) => match rsa_sha256_verifies(key, message@, signature@) {
                Err(m) => res is Err && is_crypto_error(res->Err_0, m),
                Ok(true) => res is Ok,
                Ok(false) => res is Err && is_pairing_error(
                    res->Err_0,
                    "server signature verification failed"@,
                ),
            },
        },
{
    let key = match read_certificate_key(certificate_pem) {
        CertificateKey::Unreadable(message) => return Err(ControlError::Crypto(message)),
        CertificateKey::BadKey(message) => return Err(ControlError::Crypto(message)),
        CertificateKey::Key(key) => key,
    };
    match rsa_verify(key.as_slice(), message, signature) {
        Err(message) => Err(ControlError::Crypto(message)),
        Ok(true) => Ok(()),
        Ok(false) => Err(ControlError::Pairing("server signature verification failed".to_owned())),
    }
}

/// Whether `c` is an ASCII hexadecimal digit.
pub open spec fn spec_is_ascii_hex(c: char) -> bool {
    ('0' <= c && c <= '9') || ('a' <= c && c <= 'f') || ('A' <= c && c <= 'F')
}

/// Whether `s` is a non-empty string of hexadecimal digits.
pub open spec fn spec_valid_unique_id(s: Seq<char>) -> bool {
    s.len() > 0 && forall|i: int| 0 <= i < s.len() ==> spec_is_ascii_hex(#[trigger] s[i])
}

/// Long-lived client identity used for pairing and mutual TLS.
pub struct ClientIdentity {
    certificate_pem: String,
    private_key_pem: String,
    certificate_signature: Vec<u8>,
    unique_id: String,
}

/// Mathematical value of a [`ClientIdentity`].
pub struct ClientIdentityView {
    pub certificate_pem: Seq<char>,
    pub private_key_pem: Seq<char>,
    pub certificate_signature: Seq<u8>,
    pub unique_id: Seq<char>,
}

impl View for ClientIdentity {
    type V = ClientIdentityView;

    closed spec fn view(&self) -> ClientIdentityView {
        ClientIdentityView {
            certificate_pem: self.certificate_pem@,
            private_key_pem: self.private_key_pem@,
            certificate_signature: self.certificate_signature@,
            unique_id: self.unique_id@,
        }
    }
}

/// The UTF-8 bytes of a string.
pub open spec fn utf8(s: Seq<char>) -> Seq<u8> {
    vstd::utf8::encode_utf8(s)
}

/// What checking identity files gives: the identity when the unique ID is
/// hexadecimal, the private key parses, the certificate's key is that of the
/// private key and its signature bits are whole bytes; else the first
/// failing check's error.
pub open spec fn spec_identity_result(
    certificate_pem: Seq<char>,
    private_key_pem: Seq<char>,
    unique_id: Seq<char>,
    res: Result<ClientIdentity, ControlError>,
) -> bool {
    if !spec_valid_unique_id(unique_id) {
        res is Err && is_identity_error(res->Err_0, "unique ID must be a non-empty hexadecimal string"@)
    } else {
        match private_key_public_key(private_key_pem) {
            Err(m) => res is Err && is_identity_error(res->Err_0, m),
            Ok(private_public) => match certificate_key(utf8(certificate_pem)) {
                CertificateKeyView::Unreadable(m) => res is Err && is_identity_error(res->Err_0, m),
                CertificateKeyView::BadKey(m) => res is Err && is_crypto_error(res->Err_0, m),
                CertificateKeyView::Key(key) => if key != private_public {
                    res is Err && is_identity_error(
                        res->Err_0,
                        "client certificate and private key do not match"@,
                    )
                } else {
                    match certificate_signature_bits(utf8(certificate_pem)) {
                        Err(m) => res is Err && is_identity_error(res->Err_0, m),
                        Ok(None) => res is Err && is_identity_error(
                            res->Err_0,
                            "invalid certificate signature bits"@,
                        ),
                        Ok(Some(bits)) => res is Ok && res->Ok_0@ == ClientIdentityView {
                            certificate_pem,
                            private_key_pem,
                            certificate_signature: bits,
                            unique_id,
                        },
                    }
                },
            },
        }
    }
}

fn valid_unique_id(s: &str) -> (res: bool)
    ensures
        res == spec_valid_unique_id(s@),
{
    let chars = crate::text::chars_of(s);
    if chars.len() == 0 {
        return false;
    }
    let mut i: usize = 0;
    while i < chars.len()
        invariant
            i <= chars.len(),
            chars@ == s@,
            forall|k: int| 0 <= k < i ==> spec_is_ascii_hex(#[trigger] chars@[k]),
        decreases chars.len() - i,
    {
        let c = chars[i];
        if !(('0' <= c && c <= '9') || ('a' <= c && c <= 'f') || ('A' <= c && c <= 'F')) {
            assert(!spec_is_ascii_hex(s@[i as int]));
            return false;
        }
        i = i + 1;
    }
    true
}

fn bytes_equal(a: &[u8], b: &[u8]) -> (res: bool)
    ensures
        res == (a@ == b@),
{
    if a.len() != b.len() {
        return false;
    }
    let mut i: usize = 0;
    while i < a.len()
        invariant
            i <= a.len() == b.len(),
            forall|k: int| 0 <= k < i ==> a@[k] == b@[k],
        decreases a.len() - i,
    {
        if a[i] != b[i] {
            return false;
        }
        i = i + 1;
    }
    assert(a@ =~= b@);
    true
}

impl ClientIdentity {
    /// Whether the private key of this identity parses, so that it can sign.
    pub closed spec fn well_formed(&self) -> bool {
        private_key_public_key(self.private_key_pem@) is Ok
    }

    /// Checks identity files and builds the identity from them.
    pub fn from_pem(certificate_pem: String, private_key_pem: String, unique_id: String) -> (res: Result<
        Self,
        ControlError,
    >)
        ensures
            spec_identity_result(certificate_pem@, private_key_pem@, unique_id@, res),
            res matches Ok(identity) ==> identity.well_formed(),
    {
        if !valid_unique_id(unique_id.as_str()) {
            return Err(
                ControlError::Identity("unique ID must be a non-empty hexadecimal string".to_owned()),
            );
        }
        let private_public = match read_private_key(private_key_pem.as_str()) {
            Ok(key) => key,
            Err(message) => return Err(ControlError::Identity(message)),
        };
        let certificate_bytes = certificate_pem.as_str().as_bytes();
        let certificate_key = match read_certificate_key(certificate_bytes) {
            CertificateKey::Unreadable(message) => return Err(ControlError::Identity(message)),
            CertificateKey::BadKey(message) => return Err(ControlError::Crypto(message)),
            CertificateKey::Key(key) => key,
        };
        if !bytes_equal(certificate_key.as_slice(), private_public.as_slice()) {
            return Err(
                ControlError::Identity("client certificate and private key do not match".to_owned()),
            );
        }
        let certificate_signature = match read_signature_bits(certificate_bytes) {
            Ok(Some(bits)) => bits,
            Ok(None) => {
                return Err(ControlError::Identity("invalid certificate signature bits".to_owned()));
            },
            Err(message) => return Err(ControlError::Identity(message)),
        };
        Ok(ClientIdentity { certificate_pem, private_key_pem, certificate_signature, unique_id })
    }

    /// Generates a fresh in-memory identity: a random RSA key, a self-signed
    /// certificate for it and a random 8-byte unique ID in hexadecimal.
    pub fn generate() -> (res: Result<Self, ControlError>)
        ensures
            res matches Ok(identity) ==> identity.well_formed() && identity@.unique_id.len() == 16,
            res matches Ok(identity) ==> exists|bytes: Seq<u8>|
                bytes.len() == 8 && identity@.unique_id == crate::xml::spec_hex_encode(bytes),
            res matches Ok(identity) ==> spec_identity_result(
                identity@.certificate_pem,
                identity@.private_key_pem,
                identity@.unique_id,
                res,
            ),
            res is Err ==> res->Err_0 is Identity || res->Err_0 is Crypto,
    {
        let private_key_pem = match generate_private_key_pem() {
            Ok(pem) => pem,
            Err(message) => return Err(ControlError::Identity(message)),
        };
        let certificate_pem = match self_signed_certificate_pem(private_key_pem.as_str()) {
            Ok(pem) => pem,
            Err(message) => return Err(ControlError::Identity(message)),
        };
        let unique_id_bytes = random_bytes::<8>();
        let unique_id = hex_encode(unique_id_bytes.as_slice());
        proof {
            crate::xml::lemma_hex_encode_len(unique_id_bytes@);
        }
        Self::from_pem(certificate_pem, private_key_pem, unique_id)
    }

    /// The hexadecimal unique ID sent with every request.
    pub fn unique_id(&self) -> (res: &str)
        ensures
            res@ == self@.unique_id,
    {
        self.unique_id.as_str()
    }

    /// The client certificate in PEM form.
    pub fn certificate_pem(&self) -> (res: &str)
        ensures
            res@ == self@.certificate_pem,
    {
        self.certificate_pem.as_str()
    }

    /// The private key in PKCS#8 PEM form.
    pub fn private_key_pem(&self) -> (res: &str)
        ensures
            res@ == self@.private_key_pem,
    {
        self.private_key_pem.as_str()
    }

    /// The signature bits of the client certificate.
    pub fn certificate_signature(&self) -> (res: &[u8])
        ensures
            res@ == self@.certificate_signature,
    {
        self.certificate_signature.as_slice()
    }

    /// Signs `message` with the identity's private key; a key that cannot
    /// sign gives a `Crypto` error with the signer's message.
    pub fn sign(&self, message: &[u8]) -> (res: Result<Vec<u8>, ControlError>)
        ensures
            match rsa_sha256_signature(self@.private_key_pem, message@) {
                Ok(signature) => res is Ok && res->Ok_0@ == signature,
                Err(m) => res is Err && is_crypto_error(res->Err_0, m),
            },
    {
        match rsa_sign(self.private_key_pem.as_str(), message) {
            Ok(signature) => Ok(signature),
            Err(m) => Err(ControlError::Crypto(m)),
        }
    }
}

/// What to do with the identity files of a configuration directory.
#[derive(Clone, Copy, Debug, PartialEq, Eq)]
pub enum IdentityStorage {
    /// All three files exist: load them.
    Load,
    /// None exists: generate an identity and write them.
    Create,
}

/// Given which of the certificate, private key and unique-ID files exist:
/// load when all do, create when none does, and refuse to overwrite a
/// partial identity.
pub fn identity_storage(certificate: bool, private_key: bool, unique_id: bool) -> (res: Result<
    IdentityStorage,
    ControlError,
>)
    ensures
        certificate && private_key && unique_id ==> res == Ok::<IdentityStorage, ControlError>(
            IdentityStorage::Load,
        ),
        !certificate && !private_key && !unique_id ==> res == Ok::<IdentityStorage, ControlError>(
            IdentityStorage::Create,
        ),
        !(certificate && private_key && unique_id) && (certificate || private_key || unique_id)
            ==> res is Err && is_identity_error(
            res->Err_0,
            "client identity is incomplete; refusing to overwrite it"@,
        ),
{
    if certificate && private_key && unique_id {
        Ok(IdentityStorage::Load)
    } else if certificate || private_key || unique_id {
        Err(ControlError::Identity("client identity is incomplete; refusing to overwrite it".to_owned()))
    } else {
        Ok(IdentityStorage::Create)
    }
}

} // verus!
