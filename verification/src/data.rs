//! Miscellaneous data structures: transport and ICE/DTLS/SCTP states,
//! DTLS fingerprints with their colon-separated hex text form, WebRTC
//! data-channel messages with their SCTP PPID mapping, and the opaque
//! application-data container.

use vstd::prelude::*;

verus! {

/// ICE role.
#[derive(Debug, Copy, Clone, Ord, PartialOrd, Eq, PartialEq, Hash, Structural)]
pub enum IceRole {
    /// The transport is the controlled agent.
    Controlled,
    /// The transport is the controlling agent.
    Controlling,
}

/// ICE parameters.
#[derive(Debug, Clone, Ord, PartialOrd, Eq, PartialEq, Hash)]
pub struct IceParameters {
    /// ICE username fragment.
    pub username_fragment: String,
    /// ICE password.
    pub password: String,
    /// ICE Lite.
    pub ice_lite: Option<bool>,
}

/// ICE candidate type.
#[derive(Debug, Copy, Clone, Ord, PartialOrd, Eq, PartialEq, Hash, Structural)]
pub enum IceCandidateType {
    /// The candidate's address is the true address of the remote peer.
    Host,
    /// Server reflexive candidate: an intermediary address assigned by
    /// the STUN server stands for the peer.
    Srflx,
    /// Peer reflexive candidate: an intermediary address assigned by the
    /// STUN server stands for the peer.
    Prflx,
    /// Relay candidate, obtained from a TURN server that forwards the
    /// media between the two peers.
    Relay,
}

/// ICE candidate TCP type (always `Passive`).
#[derive(Debug, Copy, Clone, Ord, PartialOrd, Eq, PartialEq, Hash, Structural)]
pub enum IceCandidateTcpType {
    Passive,
}

/// Transport protocol.
#[derive(Debug, Copy, Clone, Ord, PartialOrd, Eq, PartialEq, Hash, Structural)]
pub enum TransportProtocol {
    TCP,
    UDP,
}

/// ICE state.
#[derive(Debug, Copy, Clone, Ord, PartialOrd, Eq, PartialEq, Hash, Structural)]
pub enum IceState {
    /// No ICE binding requests have been received yet.
    New,
    /// Valid ICE binding requests received, none with the USE-CANDIDATE
    /// attribute; outgoing media is allowed.
    Connected,
    /// An ICE binding request with USE-CANDIDATE has been received;
    /// media flows in both directions.
    Completed,
    /// ICE was connected or completed and has suddenly failed.
    Disconnected,
    /// The transport has been closed.
    Closed,
}

/// DTLS state.
#[derive(Debug, Copy, Clone, Ord, PartialOrd, Eq, PartialEq, Hash, Structural)]
pub enum DtlsState {
    /// DTLS procedures not yet initiated.
    New,
    /// DTLS connecting.
    Connecting,
    /// DTLS successfully connected; SRTP keys are extracted.
    Connected,
    /// DTLS connection failed.
    Failed,
    /// The transport has been closed.
    Closed,
}

/// SCTP state.
#[derive(Debug, Copy, Clone, Ord, PartialOrd, Eq, PartialEq, Hash, Structural)]
pub enum SctpState {
    /// SCTP procedures not yet initiated.
    New,
    /// SCTP connecting.
    Connecting,
    /// SCTP successfully connected.
    Connected,
    /// SCTP connection failed.
    Failed,
    /// The transport has been closed.
    Closed,
}

/// DTLS role.
#[derive(Debug, Copy, Clone, Ord, PartialOrd, Eq, PartialEq, Hash, Structural)]
pub enum DtlsRole {
    /// Determined from the resolved ICE role: the controlled side acts
    /// as DTLS client, the controlling side as DTLS server.
    Auto,
    /// DTLS client role.
    Client,
    /// DTLS server role.
    Server,
}

impl Default for DtlsRole {
    /// The role is resolved automatically unless a side is forced.
    fn default() -> (r: Self)
        ensures
            r == DtlsRole::Auto,
    {
        DtlsRole::Auto
    }
}

/// The hash function algorithm and its certificate fingerprint value.
#[derive(Debug, Copy, Clone, PartialOrd, PartialEq)]
pub enum DtlsFingerprint {
    Sha1 {
        /// Certificate fingerprint value.
        value: [u8; 20],
    },
    Sha224 {
        /// Certificate fingerprint value.
        value: [u8; 28],
    },
    Sha256 {
        /// Certificate fingerprint value.
        value: [u8; 32],
    },
    Sha384 {
        /// Certificate fingerprint value.
        value: [u8; 48],
    },
    Sha512 {
        /// Certificate fingerprint value.
        value: [u8; 64],
    },
}

/// Why a fingerprint's text form was refused.
#[derive(Debug, Copy, Clone, Eq, PartialEq, Structural)]
pub enum FingerprintParseError {
    /// The algorithm label names no supported hash function.
    UnknownAlgorithm,
    /// The value's length does not fit the algorithm's digest size.
    WrongValueLength,
    /// A digit position holds no hexadecimal digit.
    BadHexDigit,
}

/// The label bytes `sha-1`.
pub open spec fn sha1_label() -> Seq<u8> {
    seq![0x73u8, 0x68u8, 0x61u8, 0x2du8, 0x31u8]
}

/// The label bytes `sha-224`.
pub open spec fn sha224_label() -> Seq<u8> {
    seq![0x73u8, 0x68u8, 0x61u8, 0x2du8, 0x32u8, 0x32u8, 0x34u8]
}

/// The label bytes `sha-256`.
pub open spec fn sha256_label() -> Seq<u8> {
    seq![0x73u8, 0x68u8, 0x61u8, 0x2du8, 0x32u8, 0x35u8, 0x36u8]
}

/// The label bytes `sha-384`.
pub open spec fn sha384_label() -> Seq<u8> {
    seq![0x73u8, 0x68u8, 0x61u8, 0x2du8, 0x33u8, 0x38u8, 0x34u8]
}

/// The label bytes `sha-512`.
pub open spec fn sha512_label() -> Seq<u8> {
    seq![0x73u8, 0x68u8, 0x61u8, 0x2du8, 0x35u8, 0x31u8, 0x32u8]
}

/// Uppercase hexadecimal digit for a value below sixteen.
pub open spec fn hex_digit(d: u8) -> u8 {
    if d < 10 {
        (0x30 + d) as u8
    } else {
        (0x41 + (d - 10)) as u8
    }
}

/// The two uppercase hex digits of one byte.
pub open spec fn hex_pair(b: u8) -> Seq<u8> {
    seq![hex_digit(b / 16), hex_digit(b % 16)]
}

/// Colon-separated uppercase hex of a byte string, as fingerprints are
/// written: `0D:88:...`.
pub open spec fn hex_colon(b: Seq<u8>) -> Seq<u8>
    decreases b.len(),
{
    if b.len() == 0 {
        Seq::empty()
    } else if b.len() == 1 {
        hex_pair(b[0])
    } else {
        hex_colon(b.drop_last()) + seq![0x3au8] + hex_pair(b.last())
    }
}

/// The numeric value of one hex digit, upper or lower case.
pub open spec fn hex_val(c: u8) -> Option<u8> {
    if 0x30 <= c <= 0x39 {
        Some((c - 0x30) as u8)
    } else if 0x41 <= c <= 0x46 {
        Some((c - 0x41 + 10) as u8)
    } else if 0x61 <= c <= 0x66 {
        Some((c - 0x61 + 10) as u8)
    } else {
        None
    }
}

/// Whether positions `3i` and `3i+1` hold hex digits for every byte
/// index below `n`; the bytes between the pairs are not examined.
pub open spec fn hex_pairs_ok(v: Seq<u8>, n: int) -> bool {
    forall|i: int| 0 <= i < n ==> hex_val(#[trigger] v[3 * i]) is Some && hex_val(v[3 * i + 1])
        is Some
}

/// The `n` bytes read from the hex pairs at positions `3i`, `3i+1`.
pub open spec fn hex_pairs(v: Seq<u8>, n: int) -> Seq<u8> {
    Seq::new(n as nat, |i: int| (hex_val(v[3 * i]).unwrap() * 16 + hex_val(v[3 * i + 1]).unwrap()) as u8)
}

/// The digest size that an algorithm label announces.
pub open spec fn fp_expected_len(alg: Seq<u8>) -> Option<int> {
    if alg == sha1_label() {
        Some(20int)
    } else if alg == sha224_label() {
        Some(28int)
    } else if alg == sha256_label() {
        Some(32int)
    } else if alg == sha384_label() {
        Some(48int)
    } else if alg == sha512_label() {
        Some(64int)
    } else {
        None
    }
}

/// Exactly which error the fingerprint text form earns, if any: the
/// algorithm is checked first, then the value's length against the
/// digest size, then every digit pair.
pub open spec fn fp_error(alg: Seq<u8>, v: Seq<u8>) -> Option<FingerprintParseError> {
    match fp_expected_len(alg) {
        None => Some(FingerprintParseError::UnknownAlgorithm),
        Some(n) => if v.len() != 3 * n - 1 {
            Some(FingerprintParseError::WrongValueLength)
        } else if !hex_pairs_ok(v, n) {
            Some(FingerprintParseError::BadHexDigit)
        } else {
            None
        },
    }
}

impl DtlsFingerprint {
    /// The fingerprint bytes, whatever the algorithm.
    pub open spec fn value_seq(&self) -> Seq<u8> {
        match *self {
            DtlsFingerprint::Sha1 { value } => value@,
            DtlsFingerprint::Sha224 { value } => value@,
            DtlsFingerprint::Sha256 { value } => value@,
            DtlsFingerprint::Sha384 { value } => value@,
            DtlsFingerprint::Sha512 { value } => value@,
        }
    }

    /// The algorithm label's bytes.
    pub open spec fn label_seq(&self) -> Seq<u8> {
        match *self {
            DtlsFingerprint::Sha1 { .. } => sha1_label(),
            DtlsFingerprint::Sha224 { .. } => sha224_label(),
            DtlsFingerprint::Sha256 { .. } => sha256_label(),
            DtlsFingerprint::Sha384 { .. } => sha384_label(),
            DtlsFingerprint::Sha512 { .. } => sha512_label(),
        }
    }

    /// The algorithm's textual label, as it stands in the fingerprint's
    /// serialized form.
    pub fn algorithm_label(&self) -> (r: &'static str)
        ensures
            r@ == match *self {
                DtlsFingerprint::Sha1 { .. } => "sha-1"@,
                DtlsFingerprint::Sha224 { .. } => "sha-224"@,
                DtlsFingerprint::Sha256 { .. } => "sha-256"@,
                DtlsFingerprint::Sha384 { .. } => "sha-384"@,
                DtlsFingerprint::Sha512 { .. } => "sha-512"@,
            },
    {
        match self {
            DtlsFingerprint::Sha1 { .. } => "sha-1",
            DtlsFingerprint::Sha224 { .. } => "sha-224",
            DtlsFingerprint::Sha256 { .. } => "sha-256",
            DtlsFingerprint::Sha384 { .. } => "sha-384",
            DtlsFingerprint::Sha512 { .. } => "sha-512",
        }
    }

    /// The fingerprint's text form: uppercase hex pairs joined by
    /// colons, exactly `hex_colon` of the value bytes.
    pub fn value_text(&self) -> (r: Vec<u8>)
        ensures
            r@ == hex_colon(self.value_seq()),
    {
        match self {
            DtlsFingerprint::Sha1 { value } => hex_colon_bytes(value.as_slice()),
            DtlsFingerprint::Sha224 { value } => hex_colon_bytes(value.as_slice()),
            DtlsFingerprint::Sha256 { value } => hex_colon_bytes(value.as_slice()),
            DtlsFingerprint::Sha384 { value } => hex_colon_bytes(value.as_slice()),
            DtlsFingerprint::Sha512 { value } => hex_colon_bytes(value.as_slice()),
        }
    }

    /// Reads a fingerprint out of its two text parts: the algorithm
    /// label picks the digest size, the value must be exactly the hex
    /// pairs of that many bytes, each pair at positions `3i`, `3i+1`.
    pub fn from_parts(algorithm: &[u8], value: &[u8]) -> (r: Result<
        DtlsFingerprint,
        FingerprintParseError,
    >)
        ensures
            match fp_error(algorithm@, value@) {
                Some(e) => r == Err::<DtlsFingerprint, FingerprintParseError>(e),
                None => r matches Ok(f) && f.label_seq() == algorithm@ && f.value_seq()
                    == hex_pairs(value@, fp_expected_len(algorithm@).unwrap()),
            },
    {
        if bytes_eq_sha1(algorithm) {
            if value.len() != 59 {
                Err(FingerprintParseError::WrongValueLength)
            } else {
                match parse_hex_array::<20>(value) {
                    Ok(arr) => Ok(DtlsFingerprint::Sha1 { value: arr }),
                    Err(e) => Err(e),
                }
            }
        } else if bytes_eq_sha224(algorithm) {
            if value.len() != 83 {
                Err(FingerprintParseError::WrongValueLength)
            } else {
                match parse_hex_array::<28>(value) {
                    Ok(arr) => Ok(DtlsFingerprint::Sha224 { value: arr }),
                    Err(e) => Err(e),
                }
            }
        } else if bytes_eq_sha256(algorithm) {
            if value.len() != 95 {
                Err(FingerprintParseError::WrongValueLength)
            } else {
                match parse_hex_array::<32>(value) {
                    Ok(arr) => Ok(DtlsFingerprint::Sha256 { value: arr }),
                    Err(e) => Err(e),
                }
            }
        } else if bytes_eq_sha384(algorithm) {
            if value.len() != 143 {
                Err(FingerprintParseError::WrongValueLength)
            } else {
                match parse_hex_array::<48>(value) {
                    Ok(arr) => Ok(DtlsFingerprint::Sha384 { value: arr }),
                    Err(e) => Err(e),
                }
            }
        } else if bytes_eq_sha512(algorithm) {
            if value.len() != 191 {
                Err(FingerprintParseError::WrongValueLength)
            } else {
                match parse_hex_array::<64>(value) {
                    Ok(arr) => Ok(DtlsFingerprint::Sha512 { value: arr }),
                    Err(e) => Err(e),
                }
            }
        } else {
            Err(FingerprintParseError::UnknownAlgorithm)
        }
    }
}

/// Whether the bytes are exactly `sha-1`.
fn bytes_eq_sha1(a: &[u8]) -> (r: bool)
    ensures
        r == (a@ == sha1_label()),
{
    let r = a.len() == 5 && a[0] == 0x73 && a[1] == 0x68 && a[2] == 0x61 && a[3] == 0x2d && a[4]
        == 0x31;
    proof {
        if r {
            assert(a@ =~= sha1_label());
        }
    }
    r
}

/// Whether the bytes are exactly `sha-224`.
fn bytes_eq_sha224(a: &[u8]) -> (r: bool)
    ensures
        r == (a@ == sha224_label()),
{
    let r = a.len() == 7 && a[0] == 0x73 && a[1] == 0x68 && a[2] == 0x61 && a[3] == 0x2d && a[4]
        == 0x32 && a[5] == 0x32 && a[6] == 0x34;
    proof {
        if r {
            assert(a@ =~= sha224_label());
        }
    }
    r
}

/// Whether the bytes are exactly `sha-256`.
fn bytes_eq_sha256(a: &[u8]) -> (r: bool)
    ensures
        r == (a@ == sha256_label()),
{
    let r = a.len() == 7 && a[0] == 0x73 && a[1] == 0x68 && a[2] == 0x61 && a[3] == 0x2d && a[4]
        == 0x32 && a[5] == 0x35 && a[6] == 0x36;
    proof {
        if r {
            assert(a@ =~= sha256_label());
        }
    }
    r
}

/// Whether the bytes are exactly `sha-384`.
fn bytes_eq_sha384(a: &[u8]) -> (r: bool)
    ensures
        r == (a@ == sha384_label()),
{
    let r = a.len() == 7 && a[0] == 0x73 && a[1] == 0x68 && a[2] == 0x61 && a[3] == 0x2d && a[4]
        == 0x33 && a[5] == 0x38 && a[6] == 0x34;
    proof {
        if r {
            assert(a@ =~= sha384_label());
        }
    }
    r
}

/// Whether the bytes are exactly `sha-512`.
fn bytes_eq_sha512(a: &[u8]) -> (r: bool)
    ensures
        r == (a@ == sha512_label()),
{
    let r = a.len() == 7 && a[0] == 0x73 && a[1] == 0x68 && a[2] == 0x61 && a[3] == 0x2d && a[4]
        == 0x35 && a[5] == 0x31 && a[6] == 0x32;
    proof {
        if r {
            assert(a@ =~= sha512_label());
        }
    }
    r
}

/// The numeric value of one hex digit, as `hex_val` defines it.
fn hex_val_exec(c: u8) -> (r: Option<u8>)
    ensures
        r == hex_val(c),
        r matches Some(x) ==> x < 16,
{
    if 0x30 <= c && c <= 0x39 {
        Some(c - 0x30)
    } else if 0x41 <= c && c <= 0x46 {
        Some(c - 0x41 + 10)
    } else if 0x61 <= c && c <= 0x66 {
        Some(c - 0x61 + 10)
    } else {
        None
    }
}

/// Reads `N` bytes out of hex pairs at positions `3i`, `3i+1`; the
/// bytes between the pairs are not examined.
fn parse_hex_array<const N: usize>(v: &[u8]) -> (r: Result<[u8; N], FingerprintParseError>)
    requires
        v@.len() == 3 * N - 1,
        N >= 1,
    ensures
        match r {
            Ok(a) => hex_pairs_ok(v@, N as int) && a@ == hex_pairs(v@, N as int),
            Err(e) => e == FingerprintParseError::BadHexDigit && !hex_pairs_ok(v@, N as int),
        },
{
    let mut out: [u8; N] = [0u8; N];
    let vlen = v.len();
    let mut i: usize = 0;
    while i < N
        invariant
            i <= N,
            v@.len() == 3 * N - 1,
            v@.len() == vlen,
            out@.len() == N,
            forall|j: int| 0 <= j < i ==> hex_val(#[trigger] v@[3 * j]) is Some && hex_val(
                v@[3 * j + 1],
            ) is Some,
            forall|j: int| 0 <= j < i ==> #[trigger] out@[j] == (hex_val(v@[3 * j]).unwrap() * 16
                + hex_val(v@[3 * j + 1]).unwrap()) as u8,
        decreases N - i,
    {
        let hi = hex_val_exec(v[3 * i]);
        let lo = hex_val_exec(v[3 * i + 1]);
        match (hi, lo) {
            (Some(h), Some(l)) => {
                out[i] = h * 16 + l;
            },
            _ => {
                return Err(FingerprintParseError::BadHexDigit);
            },
        }
        i += 1;
    }
    proof {
        assert(out@ =~= hex_pairs(v@, N as int));
    }
    Ok(out)
}

/// Writes the colon-separated uppercase hex of `b`, as `hex_colon` says.
fn hex_colon_bytes(b: &[u8]) -> (r: Vec<u8>)
    ensures
        r@ == hex_colon(b@),
{
    let mut r: Vec<u8> = Vec::new();
    let mut i: usize = 0;
    while i < b.len()
        invariant
            i <= b@.len(),
            r@ == hex_colon(b@.subrange(0, i as int)),
        decreases b@.len() - i,
    {
        let ghost pre = b@.subrange(0, i as int);
        let ghost post = b@.subrange(0, i + 1);
        assert(post.drop_last() =~= pre);
        assert(post.last() == b@[i as int]);
        if i > 0 {
            r.push(0x3a);
        }
        let c = b[i];
        let hi = c / 16;
        let lo = c % 16;
        if hi < 10 {
            r.push(0x30 + hi);
        } else {
            r.push(0x41 + (hi - 10));
        }
        if lo < 10 {
            r.push(0x30 + lo);
        } else {
            r.push(0x41 + (lo - 10));
        }
        proof {
            if i == 0 {
                assert(r@ =~= hex_colon(post));
            } else {
                assert(r@ =~= hex_colon(pre) + seq![0x3au8] + hex_pair(b@[i as int]));
                assert(r@ =~= hex_colon(post));
            }
        }
        i += 1;
    }
    proof {
        assert(b@.subrange(0, b@.len() as int) =~= b@);
    }
    r
}

/// DTLS parameters.
#[derive(Debug, Clone, PartialOrd, PartialEq)]
pub struct DtlsParameters {
    /// DTLS role.
    pub role: DtlsRole,
    /// DTLS fingerprints.
    pub fingerprints: Vec<DtlsFingerprint>,
}

/// Direction of a trace event.
#[derive(Debug, Copy, Clone, Eq, PartialEq, Structural)]
pub enum EventDirection {
    In,
    Out,
}

/// Why bytes could not become a data-channel message.
#[derive(Debug, Copy, Clone, Eq, PartialEq, Structural)]
pub enum WebRtcMessageError {
    /// The SCTP payload protocol identifier is unsupported.
    BadPpid { ppid: u32 },
}

/// A message sent or received over a direct transport's data channel,
/// classified by its SCTP payload protocol identifier.
#[derive(Debug, Clone, Eq, PartialEq)]
pub enum WebRtcMessage {
    /// UTF-8 text (PPID 51), kept as its wire bytes.
    String(Vec<u8>),
    /// Binary (PPID 53).
    Binary(Vec<u8>),
    /// Empty text (PPID 56): a single space on the wire.
    EmptyString,
    /// Empty binary (PPID 57): a single null byte on the wire.
    EmptyBinary,
}

impl WebRtcMessage {
    /// Classifies payload bytes by PPID: 51 text, 53 binary, 56 empty
    /// text, 57 empty binary. The deprecated partial PPIDs 52 and 54,
    /// like anything else, are refused with `BadPpid`.
    pub fn new(ppid: u32, payload: Vec<u8>) -> (r: Result<WebRtcMessage, WebRtcMessageError>)
        ensures
            ppid == 51 ==> r == Ok::<WebRtcMessage, WebRtcMessageError>(
                WebRtcMessage::String(payload),
            ),
            ppid == 53 ==> r == Ok::<WebRtcMessage, WebRtcMessageError>(
                WebRtcMessage::Binary(payload),
            ),
            ppid == 56 ==> r == Ok::<WebRtcMessage, WebRtcMessageError>(WebRtcMessage::EmptyString),
            ppid == 57 ==> r == Ok::<WebRtcMessage, WebRtcMessageError>(WebRtcMessage::EmptyBinary),
            ppid != 51 && ppid != 53 && ppid != 56 && ppid != 57 ==> r == Err::<
                WebRtcMessage,
                WebRtcMessageError,
            >(WebRtcMessageError::BadPpid { ppid }),
    {
        match ppid {
            51 => Ok(WebRtcMessage::String(payload)),
            53 => Ok(WebRtcMessage::Binary(payload)),
            56 => Ok(WebRtcMessage::EmptyString),
            57 => Ok(WebRtcMessage::EmptyBinary),
            _ => Err(WebRtcMessageError::BadPpid { ppid }),
        }
    }

    /// The PPID and wire bytes of the message: text and binary carry
    /// their bytes, the empty variants their one-byte sentinels.
    pub fn into_ppid_and_payload(self) -> (r: (u32, Vec<u8>))
        ensures
            match self {
                WebRtcMessage::String(b) => r.0 == 51 && r.1 == b,
                WebRtcMessage::Binary(b) => r.0 == 53 && r.1 == b,
                WebRtcMessage::EmptyString => r.0 == 56 && r.1@ == seq![0x20u8],
                WebRtcMessage::EmptyBinary => r.0 == 57 && r.1@ == seq![0x00u8],
            },
    {
        match self {
            WebRtcMessage::String(b) => (51, b),
            WebRtcMessage::Binary(b) => (53, b),
            WebRtcMessage::EmptyString => {
                let mut v: Vec<u8> = Vec::new();
                v.push(0x20);
                assert(v@ =~= seq![0x20u8]);
                (56, v)
            },
            WebRtcMessage::EmptyBinary => {
                let mut v: Vec<u8> = Vec::new();
                v.push(0x00);
                assert(v@ =~= seq![0x00u8]);
                (57, v)
            },
        }
    }
}

} // verus!
