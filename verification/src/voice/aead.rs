//! The two ciphers that protect media packets.
use crate::text::same_text;
use vstd::prelude::*;

verus! {

pub const AEAD_AES256_GCM_RTPSIZE: &'static str = "aead_aes256_gcm_rtpsize";

pub const AEAD_XCHACHA20_POLY1305_RTPSIZE: &'static str = "aead_xchacha20_poly1305_rtpsize";

/// The bytes that sealing adds to a message.
pub const RTP_AEAD_TAG_BYTES: usize = 16;

/// The bytes of a nonce that travel with a packet.
pub const RTP_AEAD_NONCE_SUFFIX_BYTES: usize = 4;

pub const AEAD_KEY_BYTES: usize = 32;

pub const AES256_GCM_NONCE_BYTES: usize = 12;

pub const XCHACHA20_POLY1305_NONCE_BYTES: usize = 24;

/// The longest message, and the longest associated data, that AES-GCM takes.
pub const AES256_GCM_MAX_BYTES: u64 = 0x10_0000_0000;

/// The longest message for which the block counter of XChaCha20-Poly1305 suffices.
pub const XCHACHA20_POLY1305_MAX_BYTES: u64 = 0x3f_ffff_ff80;

/// A cipher that protects media packets.
#[derive(Clone, Copy, Debug, PartialEq, Eq, Structural)]
pub enum VoiceAeadMode {
    Aes256Gcm,
    XChaCha20Poly1305,
}

/// What `aes_gcm::Aes256Gcm` makes of a message: the ciphertext and the tag.
pub uninterp spec fn aes256_gcm_sealed(
    key: Seq<u8>,
    nonce: Seq<u8>,
    aad: Seq<u8>,
    message: Seq<u8>,
) -> Seq<u8>;

/// What `aes_gcm::Aes256Gcm` reads in a sealed message: `None` where the tag does not match.
pub uninterp spec fn aes256_gcm_opened(
    key: Seq<u8>,
    nonce: Seq<u8>,
    aad: Seq<u8>,
    sealed: Seq<u8>,
) -> Option<Seq<u8>>;

/// What `chacha20poly1305::XChaCha20Poly1305` makes of a message: the ciphertext and the tag.
pub uninterp spec fn xchacha20_poly1305_sealed(
    key: Seq<u8>,
    nonce: Seq<u8>,
    aad: Seq<u8>,
    message: Seq<u8>,
) -> Seq<u8>;

/// What `chacha20poly1305::XChaCha20Poly1305` reads in a sealed message: `None` where the tag
/// does not match.
pub uninterp spec fn xchacha20_poly1305_opened(
    key: Seq<u8>,
    nonce: Seq<u8>,
    aad: Seq<u8>,
    sealed: Seq<u8>,
) -> Option<Seq<u8>>;

/// The view of optional bytes.
pub open spec fn bytes_view(bytes: Option<Vec<u8>>) -> Option<Seq<u8>> {
    match bytes {
        Some(bytes) => Some(bytes@),
        None => None,
    }
}

/// Calls `aes_gcm::aead::Aead::encrypt` of `aes_gcm::Aes256Gcm`. A message within the limits is
/// always sealed, the tag adds its bytes, and the same key, nonce and associated data open it
/// again. How the bytes come about is not stated.
#[verifier::external_body]
fn aes256_gcm_seal(
    key: &[u8; AEAD_KEY_BYTES],
    nonce: [u8; AES256_GCM_NONCE_BYTES],
    aad: &[u8],
    message: &[u8],
) -> (sealed: Option<Vec<u8>>)
    requires
        message@.len() <= AES256_GCM_MAX_BYTES,
        aad@.len() <= AES256_GCM_MAX_BYTES,
    ensures
        bytes_view(sealed) == Some(aes256_gcm_sealed(key@, nonce@, aad@, message@)),
        match sealed {
            Some(sealed) => sealed@.len() == message@.len() + RTP_AEAD_TAG_BYTES
                && aes256_gcm_opened(key@, nonce@, aad@, sealed@) == Some(message@),
            None => false,
        },
{
    let cipher = <aes_gcm::Aes256Gcm as aes_gcm::KeyInit>::new(key.into());
    let payload = aes_gcm::aead::Payload { msg: message, aad };
    aes_gcm::aead::Aead::encrypt(&cipher, &nonce.into(), payload).ok()
}

/// Calls `aes_gcm::aead::Aead::decrypt` of `aes_gcm::Aes256Gcm`. The result is a function of the
/// arguments, and an opened message is shorter by the bytes of the tag.
#[verifier::external_body]
fn aes256_gcm_open(
    key: &[u8; AEAD_KEY_BYTES],
    nonce: [u8; AES256_GCM_NONCE_BYTES],
    aad: &[u8],
    sealed: &[u8],
) -> (message: Option<Vec<u8>>)
    ensures
        bytes_view(message) == aes256_gcm_opened(key@, nonce@, aad@, sealed@),
        match message {
            Some(message) => message@.len() + RTP_AEAD_TAG_BYTES == sealed@.len(),
            None => true,
        },
{
    let cipher = <aes_gcm::Aes256Gcm as aes_gcm::KeyInit>::new(key.into());
    let payload = aes_gcm::aead::Payload { msg: sealed, aad };
    aes_gcm::aead::Aead::decrypt(&cipher, &nonce.into(), payload).ok()
}

/// Calls `chacha20poly1305::aead::Aead::encrypt` of `chacha20poly1305::XChaCha20Poly1305`. A
/// message within the limit is always sealed, the tag adds its bytes, and the same key, nonce
/// and associated data open it again. How the bytes come about is not stated.
#[verifier::external_body]
fn xchacha20_poly1305_seal(
    key: &[u8; AEAD_KEY_BYTES],
    nonce: [u8; XCHACHA20_POLY1305_NONCE_BYTES],
    aad: &[u8],
    message: &[u8],
) -> (sealed: Option<Vec<u8>>)
    requires
        message@.len() <= XCHACHA20_POLY1305_MAX_BYTES,
    ensures
        bytes_view(sealed) == Some(xchacha20_poly1305_sealed(key@, nonce@, aad@, message@)),
        match sealed {
            Some(sealed) => sealed@.len() == message@.len() + RTP_AEAD_TAG_BYTES
                && xchacha20_poly1305_opened(key@, nonce@, aad@, sealed@) == Some(message@),
            None => false,
        },
{
    let cipher = <chacha20poly1305::XChaCha20Poly1305 as chacha20poly1305::KeyInit>::new(key.into());
    let payload = chacha20poly1305::aead::Payload { msg: message, aad };
    chacha20poly1305::aead::Aead::encrypt(&cipher, &nonce.into(), payload).ok()
}

/// Calls `chacha20poly1305::aead::Aead::decrypt` of `chacha20poly1305::XChaCha20Poly1305`. The
/// result is a function of the arguments, and an opened message is shorter by the bytes of the
/// tag.
#[verifier::external_body]
fn xchacha20_poly1305_open(
    key: &[u8; AEAD_KEY_BYTES],
    nonce: [u8; XCHACHA20_POLY1305_NONCE_BYTES],
    aad: &[u8],
    sealed: &[u8],
) -> (message: Option<Vec<u8>>)
    requires
        sealed@.len() <= XCHACHA20_POLY1305_MAX_BYTES + RTP_AEAD_TAG_BYTES,
    ensures
        bytes_view(message) == xchacha20_poly1305_opened(key@, nonce@, aad@, sealed@),
        match message {
            Some(message) => message@.len() + RTP_AEAD_TAG_BYTES == sealed@.len(),
            None => true,
        },
{
    let cipher = <chacha20poly1305::XChaCha20Poly1305 as chacha20poly1305::KeyInit>::new(key.into());
    let payload = chacha20poly1305::aead::Payload { msg: sealed, aad };
    chacha20poly1305::aead::Aead::decrypt(&cipher, &nonce.into(), payload).ok()
}

/// `suffix` followed by zeros, `len` bytes in all.
pub open spec fn padded_nonce(suffix: Seq<u8>, len: nat) -> Seq<u8> {
    Seq::new(
        len,
        |i: int|
            if i < suffix.len() {
                suffix[i]
            } else {
                0
            },
    )
}

impl VoiceAeadMode {
    /// The cipher that a mode name stands for.
    pub open spec fn named(name: Seq<char>) -> Option<VoiceAeadMode> {
        if name == AEAD_AES256_GCM_RTPSIZE@ {
            Some(VoiceAeadMode::Aes256Gcm)
        } else if name == AEAD_XCHACHA20_POLY1305_RTPSIZE@ {
            Some(VoiceAeadMode::XChaCha20Poly1305)
        } else {
            None
        }
    }

    pub fn from_name(name: &str) -> (mode: Option<VoiceAeadMode>)
        ensures
            mode == VoiceAeadMode::named(name@),
    {
        if same_text(name, AEAD_AES256_GCM_RTPSIZE) {
            Some(VoiceAeadMode::Aes256Gcm)
        } else if same_text(name, AEAD_XCHACHA20_POLY1305_RTPSIZE) {
            Some(VoiceAeadMode::XChaCha20Poly1305)
        } else {
            None
        }
    }

    /// The longest message that the cipher takes.
    pub open spec fn max_message(self) -> int {
        match self {
            VoiceAeadMode::Aes256Gcm => AES256_GCM_MAX_BYTES as int,
            VoiceAeadMode::XChaCha20Poly1305 => XCHACHA20_POLY1305_MAX_BYTES as int,
        }
    }

    /// A message sealed under a nonce that is the suffix followed by zeros.
    pub open spec fn sealed(
        self,
        key: Seq<u8>,
        suffix: Seq<u8>,
        aad: Seq<u8>,
        message: Seq<u8>,
    ) -> Seq<u8> {
        match self {
            VoiceAeadMode::Aes256Gcm => aes256_gcm_sealed(
                key,
                padded_nonce(suffix, AES256_GCM_NONCE_BYTES as nat),
                aad,
                message,
            ),
            VoiceAeadMode::XChaCha20Poly1305 => xchacha20_poly1305_sealed(
                key,
                padded_nonce(suffix, XCHACHA20_POLY1305_NONCE_BYTES as nat),
                aad,
                message,
            ),
        }
    }

    /// What a sealed message holds, under a nonce that is the suffix followed by zeros.
    pub open spec fn opened(
        self,
        key: Seq<u8>,
        suffix: Seq<u8>,
        aad: Seq<u8>,
        sealed: Seq<u8>,
    ) -> Option<Seq<u8>> {
        match self {
            VoiceAeadMode::Aes256Gcm => aes256_gcm_opened(
                key,
                padded_nonce(suffix, AES256_GCM_NONCE_BYTES as nat),
                aad,
                sealed,
            ),
            VoiceAeadMode::XChaCha20Poly1305 => xchacha20_poly1305_opened(
                key,
                padded_nonce(suffix, XCHACHA20_POLY1305_NONCE_BYTES as nat),
                aad,
                sealed,
            ),
        }
    }

    /// Seals a message. Only one that is longer than the cipher takes is refused.
    pub fn seal(
        self,
        key: &[u8; AEAD_KEY_BYTES],
        suffix: [u8; RTP_AEAD_NONCE_SUFFIX_BYTES],
        aad: &[u8],
        message: &[u8],
    ) -> (sealed: Option<Vec<u8>>)
        requires
            aad@.len() <= AES256_GCM_MAX_BYTES,
        ensures
            match sealed {
                Some(sealed) => {
                    &&& message@.len() <= self.max_message()
                    &&& sealed@ == self.sealed(key@, suffix@, aad@, message@)
                    &&& sealed@.len() == message@.len() + RTP_AEAD_TAG_BYTES
                    &&& self.opened(key@, suffix@, aad@, sealed@) == Some(message@)
                },
                None => message@.len() > self.max_message(),
            },
    {
        match self {
            VoiceAeadMode::Aes256Gcm => {
                if message.len() as u64 > AES256_GCM_MAX_BYTES {
                    return None;
                }
                let nonce: [u8; AES256_GCM_NONCE_BYTES] = [
                    suffix[0], suffix[1], suffix[2], suffix[3], 0, 0, 0, 0, 0, 0, 0, 0,
                ];
                assert(nonce@ =~= padded_nonce(suffix@, AES256_GCM_NONCE_BYTES as nat));
                aes256_gcm_seal(key, nonce, aad, message)
            },
            VoiceAeadMode::XChaCha20Poly1305 => {
                if message.len() as u64 > XCHACHA20_POLY1305_MAX_BYTES {
                    return None;
                }
                let nonce: [u8; XCHACHA20_POLY1305_NONCE_BYTES] = [
                    suffix[0], suffix[1], suffix[2], suffix[3], 0, 0, 0, 0, 0, 0, 0, 0, 0, 0, 0, 0,
                    0, 0, 0, 0, 0, 0, 0, 0,
                ];
                assert(nonce@ =~= padded_nonce(suffix@, XCHACHA20_POLY1305_NONCE_BYTES as nat));
                xchacha20_poly1305_seal(key, nonce, aad, message)
            },
        }
    }

    /// Opens a sealed message. One that is too long for the cipher, or whose tag does not
    /// match, is refused.
    pub fn open(
        self,
        key: &[u8; AEAD_KEY_BYTES],
        suffix: [u8; RTP_AEAD_NONCE_SUFFIX_BYTES],
        aad: &[u8],
        sealed: &[u8],
    ) -> (message: Option<Vec<u8>>)
        ensures
            bytes_view(message) == if sealed@.len() <= self.max_message() + RTP_AEAD_TAG_BYTES {
                self.opened(key@, suffix@, aad@, sealed@)
            } else {
                None
            },
            match message {
                Some(message) => message@.len() + RTP_AEAD_TAG_BYTES == sealed@.len(),
                None => true,
            },
    {
        match self {
            VoiceAeadMode::Aes256Gcm => {
                if sealed.len() as u64 > AES256_GCM_MAX_BYTES + RTP_AEAD_TAG_BYTES as u64 {
                    return None;
                }
                let nonce: [u8; AES256_GCM_NONCE_BYTES] = [
                    suffix[0], suffix[1], suffix[2], suffix[3], 0, 0, 0, 0, 0, 0, 0, 0,
                ];
                assert(nonce@ =~= padded_nonce(suffix@, AES256_GCM_NONCE_BYTES as nat));
                aes256_gcm_open(key, nonce, aad, sealed)
            },
            VoiceAeadMode::XChaCha20Poly1305 => {
                if sealed.len() as u64 > XCHACHA20_POLY1305_MAX_BYTES + RTP_AEAD_TAG_BYTES as u64 {
                    return None;
                }
                let nonce: [u8; XCHACHA20_POLY1305_NONCE_BYTES] = [
                    suffix[0], suffix[1], suffix[2], suffix[3], 0, 0, 0, 0, 0, 0, 0, 0, 0, 0, 0, 0,
                    0, 0, 0, 0, 0, 0, 0, 0,
                ];
                assert(nonce@ =~= padded_nonce(suffix@, XCHACHA20_POLY1305_NONCE_BYTES as nat));
                xchacha20_poly1305_open(key, nonce, aad, sealed)
            },
        }
    }
}

} // verus!
