//! The five-stage PIN pairing handshake, as a state machine: each step takes
//! the host's answer to the previous request and gives the next request.
use vstd::prelude::*;

use crate::client::{HostRequest, HostRequestView, PAIRING_TIMEOUT_SECS, REQUEST_TIMEOUT_SECS};
use crate::control::{
    is_crypto_error, is_pairing_error, is_xml_error, spec_major_version, ControlError, ServerInfo,
    ServerInfoView,
};
use crate::endpoint::pairs_view;
use crate::crypto::{
    aes_decrypt, aes_encrypt_zero_padded, append_bytes, hash_for_server, spec_ecb_decrypt,
    spec_ecb_encrypt, spec_hash_for_server, spec_hash_length, spec_zero_padded,
};
use crate::identity::{
    certificate_key, certificate_signature, certificate_signature_bits, random_bytes,
    rsa_sha256_signature, rsa_sha256_verifies, utf8, verify_signature, CertificateKeyView,
    ClientIdentity, ClientIdentityView,
};
use crate::xml::{
    hex_decode_error, hex_encode, require_paired, response_error, response_hex, spec_hex_decode,
    spec_hex_encode, spec_response_value,
};

verus! {

/// Where a pairing handshake stands, and what it has learnt so far.
pub struct PairingState {
    server_major_version: u32,
    salt: Vec<u8>,
    aes_key: [u8; 16],
    http_port: u16,
    https_port: u16,
    stage: u8,
    server_certificate: Vec<u8>,
    random_challenge: Vec<u8>,
    server_response: Vec<u8>,
    client_secret: Vec<u8>,
}

/// Mathematical value of a [`PairingState`].
pub struct PairingStateView {
    /// Major GameStream generation of the host.
    pub server_major_version: u32,
    /// Random salt mixed with the PIN.
    pub salt: Seq<u8>,
    /// AES key derived from the salted PIN.
    pub aes_key: Seq<u8>,
    /// Plain HTTP control port.
    pub http_port: u16,
    /// HTTPS control port.
    pub https_port: u16,
    /// The stage whose answer is awaited.
    pub stage: u8,
    /// The host's certificate, from stage 1.
    pub server_certificate: Seq<u8>,
    /// The client's random challenge, sent in stage 2.
    pub random_challenge: Seq<u8>,
    /// The host's answer to that challenge, from stage 2.
    pub server_response: Seq<u8>,
    /// The client's random secret, sent in stage 3.
    pub client_secret: Seq<u8>,
}

impl View for PairingState {
    type V = PairingStateView;

    closed spec fn view(&self) -> PairingStateView {
        PairingStateView {
            server_major_version: self.server_major_version,
            salt: self.salt@,
            aes_key: self.aes_key@,
            http_port: self.http_port,
            https_port: self.https_port,
            stage: self.stage,
            server_certificate: self.server_certificate@,
            random_challenge: self.random_challenge@,
            server_response: self.server_response@,
            client_secret: self.client_secret@,
        }
    }
}

/// The AES key of a handshake: the first 16 bytes of the digest of the salt
/// followed by the PIN.
pub open spec fn spec_pin_key(salt: Seq<u8>, pin: Seq<char>, server_major_version: u32) -> Seq<u8> {
    spec_hash_for_server(salt + utf8(pin), server_major_version).subrange(0, 16)
}

/// The arguments of a pairing request: the device name and update flag,
/// then those of the stage.
pub open spec fn spec_pairing_arguments(extra: Seq<(Seq<char>, Seq<char>)>) -> Seq<
    (Seq<char>, Seq<char>),
> {
    seq![("devicename"@, "roth"@), ("updateState"@, "1"@)] + extra
}

/// A `pair` request with the given stage arguments.
pub open spec fn spec_pair_request(
    https: bool,
    port: u16,
    timeout_secs: u64,
    extra: Seq<(Seq<char>, Seq<char>)>,
) -> HostRequestView {
    HostRequestView {
        https,
        port,
        command: "pair"@,
        arguments: spec_pairing_arguments(extra),
        timeout_secs,
    }
}

/// The bytes of hexadecimal element `tag` of a stage's answer, when the
/// answer is accepted, reports `paired` as `1` and holds valid hex there.
pub open spec fn spec_stage_bytes(xml: Seq<char>, tag: Seq<char>) -> Option<Seq<u8>> {
    if spec_response_value(xml, "paired"@) == Some("1"@) {
        match spec_response_value(xml, tag) {
            Some(t) => spec_hex_decode(t),
            None => None,
        }
    } else {
        None
    }
}

/// Whether `e` is the error for a stage answer without such bytes.
pub open spec fn stage_bytes_error(xml: Seq<char>, stage: Seq<char>, tag: Seq<char>, e: ControlError) -> bool {
    match spec_response_value(xml, "paired"@) {
        None => response_error(xml, "paired"@, e),
        Some(p) => if p != "1"@ {
            is_pairing_error(e, "pairing was rejected during "@ + stage)
        } else {
            match spec_response_value(xml, tag) {
                None => response_error(xml, tag, e),
                Some(t) => is_xml_error(e, "invalid "@ + tag + " hex: "@ + hex_decode_error(t)),
            }
        }
    }
}

/// Whether `e` is the error for a stage answer that does not report the
/// client as paired.
pub open spec fn stage_paired_error(xml: Seq<char>, stage: Seq<char>, e: ControlError) -> bool {
    match spec_response_value(xml, "paired"@) {
        None => response_error(xml, "paired"@, e),
        Some(p) => is_pairing_error(e, "pairing was rejected during "@ + stage),
    }
}

/// A digest widened with zeros to 32 bytes.
pub open spec fn spec_widened(digest: Seq<u8>) -> Seq<u8> {
    digest + Seq::new((32 - digest.len()) as nat, |i: int| 0u8)
}

/// Why the host's signature of its secret does not check, as the message
/// of the error: `None` when it checks.
pub open spec fn spec_signature_failure(certificate: Seq<u8>, secret: Seq<u8>, signature: Seq<u8>) -> Option<
    Seq<char>,
> {
    match certificate_key(certificate) {
        CertificateKeyView::Unreadable(m) => Some("pairing cryptography failed: "@ + m),
        CertificateKeyView::BadKey(m) => Some("pairing cryptography failed: "@ + m),
        CertificateKeyView::Key(key) => match rsa_sha256_verifies(key, secret, signature) {
            Err(m) => Some("pairing cryptography failed: "@ + m),
            Ok(true) => None,
            Ok(false) => Some("pairing failed: "@ + "server signature verification failed"@),
        },
    }
}

fn argument(name: &str, value: String) -> (res: (String, String))
    ensures
        res.0@ == name@,
        res.1@ == value@,
{
    (name.to_owned(), value)
}

fn pair_request(https: bool, port: u16, timeout_secs: u64, extra: Vec<(String, String)>) -> (res: HostRequest)
    ensures
        res@ == spec_pair_request(https, port, timeout_secs, pairs_view(extra@)),
{
    let mut arguments: Vec<(String, String)> = Vec::new();
    arguments.push(argument("devicename", "roth".to_owned()));
    arguments.push(argument("updateState", "1".to_owned()));
    let ghost head = arguments@;
    let mut extra = extra;
    let ghost extra_view = pairs_view(extra@);
    arguments.append(&mut extra);
    assert(pairs_view(head) =~= seq![("devicename"@, "roth"@), ("updateState"@, "1"@)]);
    assert(pairs_view(arguments@) =~= pairs_view(head) + extra_view);
    HostRequest { https, port, command: "pair".to_owned(), arguments, timeout_secs }
}

fn one_argument(name: &str, value: String) -> (res: Vec<(String, String)>)
    ensures
        pairs_view(res@) == seq![(name@, value@)],
{
    let mut res: Vec<(String, String)> = Vec::new();
    res.push(argument(name, value));
    assert(pairs_view(res@) =~= seq![(name@, value@)]);
    res
}

/// Reads the hexadecimal element `tag` of a stage's answer after checking
/// that the host reports the client as paired.
fn stage_bytes(xml: &str, stage: &str, tag: &str) -> (res: Result<Vec<u8>, ControlError>)
    ensures
        match spec_stage_bytes(xml@, tag@) {
            Some(bytes) => res is Ok && res->Ok_0@ == bytes,
            None => res is Err && stage_bytes_error(xml@, stage@, tag@, res->Err_0),
        },
{
    require_paired(xml, stage)?;
    response_hex(xml, tag)
}

fn first_bytes(data: &Vec<u8>, count: usize) -> (res: Vec<u8>)
    requires
        count <= data.len(),
    ensures
        res@ == data@.subrange(0, count as int),
{
    let part = vstd::slice::slice_subrange(data.as_slice(), 0, count);
    vstd::slice::slice_to_vec(part)
}

fn bytes_between(data: &Vec<u8>, start: usize, end: usize) -> (res: Vec<u8>)
    requires
        start <= end <= data.len(),
    ensures
        res@ == data@.subrange(start as int, end as int),
{
    let part = vstd::slice::slice_subrange(data.as_slice(), start, end);
    vstd::slice::slice_to_vec(part)
}

fn same_bytes(a: &[u8], b: &[u8]) -> (res: bool)
    ensures
        res == (a@ == b@),
{
    if a.len() != b.len() {
        return false;
    }
    let mut i: usize = 0;
    while i < a.len()
        invariant
            i <= a.len() == b.len(),
            forall|k: int| 0 <= k < i ==> a@[k] == b@[k],
        decreases a.len() - i,
    {
        if a[i] != b[i] {
            return false;
        }
        i = i + 1;
    }
    assert(a@ =~= b@);
    true
}

fn widen_to_32(digest: &mut Vec<u8>)
    requires
        old(digest)@.len() <= 32,
    ensures
        final(digest)@ == spec_widened(old(digest)@),
{
    let ghost original = digest@;
    while digest.len() < 32
        invariant
            original.len() <= digest@.len() <= 32,
            digest@ == original + Seq::new((digest@.len() - original.len()) as nat, |i: int| 0u8),
        decreases 32 - digest.len(),
    {
        digest.push(0);
        assert(digest@ =~= original + Seq::new((digest@.len() - original.len()) as nat, |i: int| 0u8));
    }
}

fn key_of(digest: &Vec<u8>) -> (res: [u8; 16])
    requires
        digest.len() >= 16,
    ensures
        res@ == digest@.subrange(0, 16),
{
    crate::crypto::block_at(digest, 0)
}

/// The outcome of starting a handshake with `salt`: the AES key comes from
/// the salted PIN, and the host is asked for its certificate, with the
/// client's. The host waits for the user to enter the PIN before it
/// answers, so the request has the long timeout.
pub open spec fn spec_start(
    server: ServerInfoView,
    http_port: u16,
    pin: Seq<char>,
    salt: Seq<u8>,
    identity: ClientIdentityView,
    res: Result<(PairingState, HostRequest), ControlError>,
) -> bool {
    match spec_major_version(server.app_version) {
        None => res is Err && is_xml_error(res->Err_0, "invalid appversion: "@ + server.app_version),
        Some(v) => res is Ok && res->Ok_0.0@ == (PairingStateView {
            server_major_version: v as u32,
            salt,
            aes_key: spec_pin_key(salt, pin, v as u32),
            http_port,
            https_port: server.https_port,
            stage: 1,
            server_certificate: Seq::empty(),
            random_challenge: Seq::empty(),
            server_response: Seq::empty(),
            client_secret: Seq::empty(),
        }) && res->Ok_0.1@ == spec_pair_request(
            false,
            http_port,
            PAIRING_TIMEOUT_SECS,
            seq![
                ("phrase"@, "getservercert"@),
                ("salt"@, spec_hex_encode(salt)),
                ("clientcert"@, spec_hex_encode(utf8(identity.certificate_pem))),
            ],
        ),
    }
}

/// The outcome of stage 1's answer, with the client's challenge: the host's
/// certificate is kept and the challenge goes to the host encrypted with
/// the PIN key. An empty certificate means that another pairing is in
/// progress on the host.
pub open spec fn spec_after_stage_one(
    s: PairingStateView,
    xml: Seq<char>,
    challenge: Seq<u8>,
    res: Result<(PairingState, HostRequest), ControlError>,
) -> bool {
    match spec_stage_bytes(xml, "plaincert"@) {
        None => res is Err && stage_bytes_error(xml, "stage 1"@, "plaincert"@, res->Err_0),
        Some(certificate) => if certificate.len() == 0 {
            res is Err && is_pairing_error(res->Err_0, "another pairing session is already active"@)
        } else {
            res is Ok && res->Ok_0.0@ == (PairingStateView {
                stage: 2,
                server_certificate: certificate,
                random_challenge: challenge,
                ..s
            }) && res->Ok_0.1@ == spec_pair_request(
                false,
                s.http_port,
                REQUEST_TIMEOUT_SECS,
                seq![("clientchallenge"@, spec_hex_encode(spec_ecb_encrypt(s.aes_key, challenge)))],
            )
        },
    }
}

/// The outcome of stage 2's answer, with the client's secret: the answer
/// decrypts to the host's response to the client's challenge and the host's
/// own challenge, which is answered with the digest of it, the client
/// certificate's signature and the secret, widened to 32 bytes and
/// encrypted.
pub open spec fn spec_after_stage_two(
    s: PairingStateView,
    xml: Seq<char>,
    secret: Seq<u8>,
    identity: ClientIdentityView,
    res: Result<(PairingState, HostRequest), ControlError>,
) -> bool {
    match spec_stage_bytes(xml, "challengeresponse"@) {
        None => res is Err && stage_bytes_error(xml, "stage 2"@, "challengeresponse"@, res->Err_0),
        Some(encrypted) => if encrypted.len() % 16 != 0 {
            res is Err && is_crypto_error(res->Err_0, "AES ciphertext length is not a multiple of 16"@)
        } else {
            let decrypted = spec_ecb_decrypt(s.aes_key, encrypted);
            let hash_length = spec_hash_length(s.server_major_version);
            if decrypted.len() < hash_length + 16 {
                res is Err && is_pairing_error(res->Err_0, "stage 2 challenge response is too short"@)
            } else {
                let server_challenge = decrypted.subrange(hash_length as int, hash_length + 16int);
                let challenge_hash = spec_widened(
                    spec_hash_for_server(
                        server_challenge + identity.certificate_signature + secret,
                        s.server_major_version,
                    ),
                );
                res is Ok && res->Ok_0.0@ == (PairingStateView {
                    stage: 3,
                    server_response: decrypted.subrange(0, hash_length as int),
                    client_secret: secret,
                    ..s
                }) && res->Ok_0.1@ == spec_pair_request(
                    false,
                    s.http_port,
                    REQUEST_TIMEOUT_SECS,
                    seq![
                        (
                            "serverchallengeresp"@,
                            spec_hex_encode(spec_ecb_encrypt(s.aes_key, challenge_hash)),
                        ),
                    ],
                )
            }
        },
    }
}

/// The outcome of stage 3's answer: the host's signature of its secret must
/// check with its certificate, and the host's response to the client's
/// challenge must be the digest of the challenge, the host certificate's
/// signature and the host's secret (it is not on a wrong PIN); then the
/// client's secret goes to the host with its signature.
pub open spec fn spec_after_stage_three(
    s: PairingStateView,
    xml: Seq<char>,
    identity: ClientIdentityView,
    res: Result<(PairingState, HostRequest), ControlError>,
) -> bool {
    match spec_stage_bytes(xml, "pairingsecret"@) {
        None => res is Err && stage_bytes_error(xml, "stage 3"@, "pairingsecret"@, res->Err_0),
        Some(secret) => if secret.len() <= 16 {
            res is Err && is_pairing_error(res->Err_0, "stage 3 pairing secret is too short"@)
        } else {
            let server_secret = secret.subrange(0, 16);
            let server_signature = secret.subrange(16, secret.len() as int);
            match spec_signature_failure(s.server_certificate, server_secret, server_signature) {
                Some(message) => res is Err && is_pairing_error(res->Err_0, message),
                None => match certificate_signature_bits(s.server_certificate) {
                    Err(m) => res is Err && is_crypto_error(res->Err_0, m),
                    Ok(None) => res is Err && is_crypto_error(
                        res->Err_0,
                        "invalid certificate signature bits"@,
                    ),
                    Ok(Some(bits)) => if s.server_response != spec_hash_for_server(
                        s.random_challenge + bits + server_secret,
                        s.server_major_version,
                    ).subrange(0, spec_hash_length(s.server_major_version) as int) {
                        res is Err && is_pairing_error(res->Err_0, "incorrect PIN"@)
                    } else {
                        match rsa_sha256_signature(identity.private_key_pem, s.client_secret) {
                            Err(m) => res is Err && is_crypto_error(res->Err_0, m),
                            Ok(signature) => res is Ok && res->Ok_0.0@ == (PairingStateView {
                                stage: 4,
                                ..s
                            }) && res->Ok_0.1@ == spec_pair_request(
                                false,
                                s.http_port,
                                REQUEST_TIMEOUT_SECS,
                                seq![
                                    (
                                        "clientpairingsecret"@,
                                        spec_hex_encode(s.client_secret + signature),
                                    ),
                                ],
                            ),
                        }
                    },
                },
            }
        },
    }
}

/// The outcome of stage 4's answer: the last request goes over HTTPS with
/// the client certificate.
pub open spec fn spec_after_stage_four(
    s: PairingStateView,
    xml: Seq<char>,
    res: Result<(PairingState, HostRequest), ControlError>,
) -> bool {
    if spec_response_value(xml, "paired"@) == Some("1"@) {
        res is Ok && res->Ok_0.0@ == (PairingStateView { stage: 5, ..s }) && res->Ok_0.1@
            == spec_pair_request(
            true,
            s.https_port,
            REQUEST_TIMEOUT_SECS,
            seq![("phrase"@, "pairchallenge"@)],
        )
    } else {
        res is Err && stage_paired_error(xml, "stage 4"@, res->Err_0)
    }
}

/// The outcome of stage 5's answer: the handshake is complete when the host
/// reports the client as paired.
pub open spec fn spec_finish(xml: Seq<char>, res: Result<(), ControlError>) -> bool {
    if spec_response_value(xml, "paired"@) == Some("1"@) {
        res is Ok
    } else {
        res is Err && stage_paired_error(xml, "stage 5"@, res->Err_0)
    }
}

/// The outcome of the answer to stage 1 to 4: `random` is the client's
/// challenge at stage 1 and its secret at stage 2.
pub open spec fn spec_advance(
    s: PairingStateView,
    xml: Seq<char>,
    random: Seq<u8>,
    identity: ClientIdentityView,
    res: Result<(PairingState, HostRequest), ControlError>,
) -> bool {
    if s.stage == 1 {
        spec_after_stage_one(s, xml, random, res)
    } else if s.stage == 2 {
        spec_after_stage_two(s, xml, random, identity, res)
    } else if s.stage == 3 {
        spec_after_stage_three(s, xml, identity, res)
    } else {
        spec_after_stage_four(s, xml, res)
    }
}

impl PairingState {
    /// The stage whose answer the handshake awaits.
    pub fn stage(&self) -> (res: u8)
        ensures
            res == self@.stage,
    {
        self.stage
    }

    /// Starts a handshake with the given salt.
    pub fn start_with_salt(
        server: &ServerInfo,
        http_port: u16,
        pin: &str,
        salt: [u8; 16],
        identity: &ClientIdentity,
    ) -> (res: Result<(PairingState, HostRequest), ControlError>)
        ensures
            spec_start(server@, http_port, pin@, salt@, identity@, res),
    {
        let server_major_version = server.server_major_version()?;
        let mut salted_pin: Vec<u8> = Vec::new();
        append_bytes(&mut salted_pin, salt.as_slice());
        append_bytes(&mut salted_pin, pin.as_bytes());
        let digest = hash_for_server(salted_pin.as_slice(), server_major_version);
        let aes_key = key_of(&digest);
        let mut extra: Vec<(String, String)> = Vec::new();
        extra.push(argument("phrase", "getservercert".to_owned()));
        extra.push(argument("salt", hex_encode(salt.as_slice())));
        extra.push(argument("clientcert", hex_encode(identity.certificate_pem().as_bytes())));
        let ghost expected_extra = seq![
            ("phrase"@, "getservercert"@),
            ("salt"@, spec_hex_encode(salt@)),
            ("clientcert"@, spec_hex_encode(utf8(identity@.certificate_pem))),
        ];
        assert(pairs_view(extra@) =~= expected_extra);
        let request = pair_request(false, http_port, PAIRING_TIMEOUT_SECS, extra);
        let state = PairingState {
            server_major_version,
            salt: vstd::slice::slice_to_vec(salt.as_slice()),
            aes_key,
            http_port,
            https_port: server.https_port,
            stage: 1,
            server_certificate: Vec::new(),
            random_challenge: Vec::new(),
            server_response: Vec::new(),
            client_secret: Vec::new(),
        };
        Ok((state, request))
    }

    /// Starts a handshake with a fresh random salt, which the state keeps.
    pub fn start(server: &ServerInfo, http_port: u16, pin: &str, identity: &ClientIdentity) -> (res:
        Result<(PairingState, HostRequest), ControlError>)
        ensures
            exists|salt: Seq<u8>| salt.len() == 16 && spec_start(server@, http_port, pin@, salt, identity@, res),
    {
        let salt = random_bytes::<16>();
        let res = Self::start_with_salt(server, http_port, pin, salt, identity);
        assert(salt@.len() == 16);
        res
    }

    /// Stage 1 answered, with the client's challenge.
    pub fn after_stage_one_with_challenge(self, xml: &str, random_challenge: [u8; 16]) -> (res: Result<
        (PairingState, HostRequest),
        ControlError,
    >)
        requires
            self@.stage == 1,
        ensures
            spec_after_stage_one(self@, xml@, random_challenge@, res),
    {
        let server_certificate = stage_bytes(xml, "stage 1", "plaincert")?;
        if server_certificate.len() == 0 {
            return Err(ControlError::Pairing("another pairing session is already active".to_owned()));
        }
        let encrypted = aes_encrypt_zero_padded(random_challenge.as_slice(), &self.aes_key)?;
        assert(spec_zero_padded(random_challenge@) =~= random_challenge@);
        let extra = one_argument("clientchallenge", hex_encode(encrypted.as_slice()));
        let request = pair_request(false, self.http_port, REQUEST_TIMEOUT_SECS, extra);
        let state = PairingState {
            stage: 2,
            server_certificate,
            random_challenge: vstd::slice::slice_to_vec(random_challenge.as_slice()),
            ..self
        };
        Ok((state, request))
    }

    /// Stage 2 answered, with the client's secret.
    pub fn after_stage_two_with_secret(
        self,
        xml: &str,
        client_secret: [u8; 16],
        identity: &ClientIdentity,
    ) -> (res: Result<(PairingState, HostRequest), ControlError>)
        requires
            self@.stage == 2,
        ensures
            spec_after_stage_two(self@, xml@, client_secret@, identity@, res),
    {
        let hash_length: usize = if self.server_major_version >= 7 {
            32
        } else {
            20
        };
        let encrypted_response = stage_bytes(xml, "stage 2", "challengeresponse")?;
        let decrypted = aes_decrypt(encrypted_response.as_slice(), &self.aes_key)?;
        if decrypted.len() < hash_length + 16 {
            return Err(ControlError::Pairing("stage 2 challenge response is too short".to_owned()));
        }
        let server_response = first_bytes(&decrypted, hash_length);
        let server_challenge = bytes_between(&decrypted, hash_length, hash_length + 16);
        let mut challenge_input: Vec<u8> = Vec::new();
        append_bytes(&mut challenge_input, server_challenge.as_slice());
        append_bytes(&mut challenge_input, identity.certificate_signature());
        append_bytes(&mut challenge_input, client_secret.as_slice());
        let mut challenge_hash = hash_for_server(challenge_input.as_slice(), self.server_major_version);
        widen_to_32(&mut challenge_hash);
        let encrypted_hash = aes_encrypt_zero_padded(challenge_hash.as_slice(), &self.aes_key)?;
        assert(spec_zero_padded(challenge_hash@) =~= challenge_hash@);
        let extra = one_argument("serverchallengeresp", hex_encode(encrypted_hash.as_slice()));
        let request = pair_request(false, self.http_port, REQUEST_TIMEOUT_SECS, extra);
        let state = PairingState {
            stage: 3,
            server_response,
            client_secret: vstd::slice::slice_to_vec(client_secret.as_slice()),
            ..self
        };
        Ok((state, request))
    }

    /// Stage 3 answered.
    pub fn after_stage_three(self, xml: &str, identity: &ClientIdentity) -> (res: Result<
        (PairingState, HostRequest),
        ControlError,
    >)
        requires
            self@.stage == 3,
        ensures
            spec_after_stage_three(self@, xml@, identity@, res),
    {
        let hash_length: usize = if self.server_major_version >= 7 {
            32
        } else {
            20
        };
        let pairing_secret = stage_bytes(xml, "stage 3", "pairingsecret")?;
        if pairing_secret.len() <= 16 {
            return Err(ControlError::Pairing("stage 3 pairing secret is too short".to_owned()));
        }
        let server_secret = first_bytes(&pairing_secret, 16);
        let server_signature = bytes_between(&pairing_secret, 16, pairing_secret.len());
        if let Err(error) = verify_signature(
            self.server_certificate.as_slice(),
            server_secret.as_slice(),
            server_signature.as_slice(),
        ) {
            let message = error.to_string();
            return Err(ControlError::Pairing(message));
        }
        let host_signature = certificate_signature(self.server_certificate.as_slice())?;
        let mut expected_input: Vec<u8> = Vec::new();
        append_bytes(&mut expected_input, self.random_challenge.as_slice());
        append_bytes(&mut expected_input, host_signature.as_slice());
        append_bytes(&mut expected_input, server_secret.as_slice());
        let expected = hash_for_server(expected_input.as_slice(), self.server_major_version);
        let expected_response = first_bytes(&expected, hash_length);
        if !same_bytes(self.server_response.as_slice(), expected_response.as_slice()) {
            return Err(ControlError::Pairing("incorrect PIN".to_owned()));
        }
        let mut client_pairing_secret: Vec<u8> = Vec::new();
        append_bytes(&mut client_pairing_secret, self.client_secret.as_slice());
        let signature = match identity.sign(self.client_secret.as_slice()) {
            Ok(signature) => signature,
            Err(error) => return Err(error),
        };
        append_bytes(&mut client_pairing_secret, signature.as_slice());
        let extra = one_argument("clientpairingsecret", hex_encode(client_pairing_secret.as_slice()));
        let request = pair_request(false, self.http_port, REQUEST_TIMEOUT_SECS, extra);
        let state = PairingState { stage: 4, ..self };
        Ok((state, request))
    }

    /// Stage 4 answered.
    pub fn after_stage_four(self, xml: &str) -> (res: Result<(PairingState, HostRequest), ControlError>)
        requires
            self@.stage == 4,
        ensures
            spec_after_stage_four(self@, xml@, res),
    {
        require_paired(xml, "stage 4")?;
        let extra = one_argument("phrase", "pairchallenge".to_owned());
        let request = pair_request(true, self.https_port, REQUEST_TIMEOUT_SECS, extra);
        let state = PairingState { stage: 5, ..self };
        Ok((state, request))
    }

    /// Stage 5 answered: the handshake is done.
    pub fn finish(self, xml: &str) -> (res: Result<(), ControlError>)
        requires
            self@.stage == 5,
        ensures
            spec_finish(xml@, res),
    {
        require_paired(xml, "stage 5")
    }

    /// The answer to stage 1 to 4 handled with the given random bytes (the
    /// challenge at stage 1, the secret at stage 2).
    pub fn advance_with(self, xml: &str, random: [u8; 16], identity: &ClientIdentity) -> (res: Result<
        (PairingState, HostRequest),
        ControlError,
    >)
        requires
            1 <= self@.stage <= 4,
        ensures
            spec_advance(self@, xml@, random@, identity@, res),
    {
        if self.stage == 1 {
            self.after_stage_one_with_challenge(xml, random)
        } else if self.stage == 2 {
            self.after_stage_two_with_secret(xml, random, identity)
        } else if self.stage == 3 {
            self.after_stage_three(xml, identity)
        } else {
            self.after_stage_four(xml)
        }
    }

    /// The answer to stage 1 to 4 handled, with fresh random bytes where the
    /// stage needs them.
    pub fn advance(self, xml: &str, identity: &ClientIdentity) -> (res: Result<(PairingState, HostRequest), ControlError>)
        requires
            1 <= self@.stage <= 4,
        ensures
            exists|random: Seq<u8>| random.len() == 16 && spec_advance(self@, xml@, random, identity@, res),
    {
        let random = random_bytes::<16>();
        let res = self.advance_with(xml, random, identity);
        assert(random@.len() == 16);
        res
    }
}

} // verus!
