//! The recovery escrow: a human-presentable recovery secret and the
//! escrow record that lets it recover the master key without the
//! password.
//!
//! A recovery secret is 18 random bytes, base64-encoded to 24 characters
//! and re-grouped for display into dash-separated groups of four.  The
//! grouping is purely presentational: normalization (stripping dashes and
//! spaces) inverts it exactly, so any equivalent textual form of the
//! secret derives the same key.

use vstd::prelude::*;

use crate::crypto::{encrypt, open_blob, os_random_bytes, BLOB_OVERHEAD};
use crate::errors::VaultError;
use crate::keys::{derive_of, Kek, KEY_LEN, PASSWORD_MAX_CHARS};

verus! {

/// Number of random bytes behind a recovery secret.
pub const RECOVERY_SECRET_LEN: usize = 18;

/// Display groups hold this many characters.
pub const GROUP_LEN: usize = 4;

/// Characters that survive normalization: everything but the dashes and
/// spaces of the display grouping.
pub open spec fn keeps_char(c: char) -> bool {
    c != '-' && c != ' '
}

/// Normalized form of a typed recovery secret: dashes and spaces removed.
pub open spec fn normalize_text(s: Seq<char>) -> Seq<char> {
    s.filter(|c: char| keeps_char(c))
}

/// Display form of an encoded secret: groups of four characters joined
/// by single dashes.
pub open spec fn grouped(s: Seq<char>) -> Seq<char>
    decreases s.len(),
{
    if s.len() <= GROUP_LEN {
        s
    } else {
        s.take(GROUP_LEN as int) + seq!['-'] + grouped(s.skip(GROUP_LEN as int))
    }
}

/// What the standard base64 encoding of a byte sequence reads as.
/// A pure function of the bytes.
pub uninterp spec fn b64_of(bytes: Seq<u8>) -> Seq<char>;

/// Relies on base64's `STANDARD` engine (`Engine::encode`): deterministic
/// in the input bytes, four output characters for every three input bytes
/// (with `=` padding), all drawn from the standard alphabet
/// (`A-Z a-z 0-9 + / =`), which contains neither a dash nor a space.
#[verifier::external_body]
fn b64_encode(bytes: &[u8]) -> (r: String)
    ensures
        r@ == b64_of(bytes@),
        r@.len() == ((bytes@.len() + 2) / 3) * 4,
        forall|i: int| 0 <= i < r@.len() ==> keeps_char(#[trigger] r@[i]),
{
    base64::Engine::encode(&base64::engine::general_purpose::STANDARD, bytes)
}

/// Filtering keeps a sequence whole when the predicate holds everywhere.
proof fn lemma_filter_all(s: Seq<char>, p: spec_fn(char) -> bool)
    requires
        forall|i: int| 0 <= i < s.len() ==> p(#[trigger] s[i]),
    ensures
        s.filter(p) == s,
    decreases s.len(),
{
    reveal(Seq::filter);
    if s.len() == 0 {
        assert(s.filter(p) =~= s);
    } else {
        lemma_filter_all(s.drop_last(), p);
        assert(s.filter(p) =~= s);
    }
}

/// Filtering a one-element push appends the element exactly when the
/// predicate keeps it.
proof fn lemma_filter_push(t: Seq<char>, p: spec_fn(char) -> bool, x: char)
    ensures
        t.push(x).filter(p) == if p(x) {
            t.filter(p).push(x)
        } else {
            t.filter(p)
        },
{
    reveal(Seq::filter);
    assert(t.push(x).drop_last() =~= t);
}

/// Normalization inverts the display grouping: stripping the dashes from
/// `grouped(s)` gives back `s`, for any `s` that itself contains neither
/// dashes nor spaces (as a base64 encoding never does).
pub proof fn lemma_normalize_grouped(s: Seq<char>)
    requires
        forall|i: int| 0 <= i < s.len() ==> keeps_char(#[trigger] s[i]),
    ensures
        normalize_text(grouped(s)) == s,
    decreases s.len(),
{
    let p = |c: char| keeps_char(c);
    if s.len() <= GROUP_LEN {
        lemma_filter_all(s, p);
    } else {
        let head = s.take(GROUP_LEN as int);
        let dash = seq!['-'];
        let tail = s.skip(GROUP_LEN as int);
        Seq::<char>::filter_distributes_over_add(head + dash, grouped(tail), p);
        Seq::<char>::filter_distributes_over_add(head, dash, p);
        lemma_filter_all(head, p);
        reveal_with_fuel(Seq::filter, 2);
        assert(dash.drop_last() =~= Seq::<char>::empty());
        assert(dash.filter(p) =~= Seq::<char>::empty());
        lemma_normalize_grouped(tail);
        assert(normalize_text(grouped(s)) =~= s);
    }
}

/// Normalization is idempotent: a normalized text has no dashes or
/// spaces left to strip.
pub proof fn lemma_normalize_idempotent(s: Seq<char>)
    ensures
        normalize_text(normalize_text(s)) == normalize_text(s),
{
    let p = |c: char| keeps_char(c);
    assert forall|i: int| 0 <= i < s.filter(p).len() implies p(#[trigger] s.filter(p)[i]) by {
        s.lemma_filter_pred(p, i);
    }
    lemma_filter_all(s.filter(p), p);
}

/// Remove the dashes and spaces of a typed recovery secret.
fn normalize_str(s: &str) -> (r: String)
    ensures
        r@ == normalize_text(s@),
{
    let n = s.unicode_len();
    let mut out = String::new();
    let mut i: usize = 0;
    while i < n
        invariant
            n == s@.len(),
            i <= n,
            out@ == normalize_text(s@.take(i as int)),
        decreases n - i,
    {
        let c = s.get_char(i);
        if c != '-' && c != ' ' {
            out.append(s.substring_char(i, i + 1));
        }
        proof {
            let p = |ch: char| keeps_char(ch);
            lemma_filter_push(s@.take(i as int), p, s@[i as int]);
            assert(s@.take(i as int).push(s@[i as int]) =~= s@.take(i as int + 1));
            assert(s@.subrange(i as int, i as int + 1) =~= seq![s@[i as int]]);
            assert(s@.take(i as int).filter(p).push(s@[i as int]) =~= s@.take(i as int).filter(
                p,
            ) + seq![s@[i as int]]);
        }
        i += 1;
    }
    proof {
        assert(s@.take(n as int) =~= s@);
    }
    out
}

/// Insert a dash after every four characters of the encoded secret.
fn format_grouped(s: &str) -> (r: String)
    ensures
        r@ == grouped(s@),
    decreases s@.len(),
{
    let n = s.unicode_len();
    if n <= GROUP_LEN {
        let r = String::from_str(s);
        r
    } else {
        let mut out = String::from_str(s.substring_char(0, GROUP_LEN));
        out.append("-");
        let rest = format_grouped(s.substring_char(GROUP_LEN, n));
        out.append(rest.as_str());
        proof {
            reveal_strlit("-");
            assert(s@.subrange(0, GROUP_LEN as int) =~= s@.take(GROUP_LEN as int));
            assert(s@.subrange(GROUP_LEN as int, n as int) =~= s@.skip(GROUP_LEN as int));
            assert("-"@ =~= seq!['-']);
        }
        out
    }
}

/// A recovery secret in its textual form.
///
/// Freshly generated secrets carry the dash-grouped display form; secrets
/// typed back in are stored normalized.  Key derivation always works on
/// the normalized text, so the two forms derive the same key.
pub struct RecoveryKey(String);

impl View for RecoveryKey {
    type V = Seq<char>;

    closed spec fn view(&self) -> Seq<char> {
        self.0@
    }
}

impl RecoveryKey {
    /// Generate a fresh recovery secret: 18 random bytes, base64-encoded
    /// and grouped for display.  Whatever bytes were drawn, normalizing
    /// the display text gives back their 24-character encoding.
    pub fn generate() -> (r: RecoveryKey)
        ensures
            normalize_text(r@).len() == 24,
            exists|b: Seq<u8>|
                {
                    &&& b.len() == RECOVERY_SECRET_LEN
                    &&& #[trigger] b64_of(b).len() == 24
                    &&& r@ == grouped(b64_of(b))
                    &&& normalize_text(r@) == b64_of(b)
                },
    {
        let bytes = os_random_bytes(RECOVERY_SECRET_LEN);
        let encoded = b64_encode(bytes.as_slice());
        let formatted = format_grouped(encoded.as_str());
        proof {
            lemma_normalize_grouped(encoded@);
            assert(b64_of(bytes@).len() == 24);
        }
        RecoveryKey(formatted)
    }

    /// The textual form, as stored: for a generated secret this is the
    /// dash-grouped display string shown to the user once.
    pub fn as_str(&self) -> (r: &str)
        ensures
            r@ == self@,
    {
        self.0.as_str()
    }

    /// Parse a secret typed by the user: dashes and spaces are stripped,
    /// so any equivalent textual representation is accepted.
    pub fn from_input(input: &str) -> (r: RecoveryKey)
        ensures
            r@ == normalize_text(input@),
    {
        RecoveryKey(normalize_str(input))
    }
}

/// The persisted escrow record: the master key, encrypted under a key
/// derived from the normalized recovery secret and the vault salt.
///
/// Its serialized form is exactly the encrypted blob, so framing and
/// parsing are the identity on the bytes.
pub struct RecoveryData {
    pub kek_bytes: Vec<u8>,
}

impl RecoveryData {
    /// Escrow `kek` under `recovery_key`: derive a recovery master key
    /// from the normalized secret and the same salt as the primary path,
    /// then encrypt the master key's bytes under it.
    pub fn create(kek: &Kek, recovery_key: &RecoveryKey, salt: &[u8]) -> (r: Result<
        RecoveryData,
        VaultError,
    >)
        requires
            salt@.len() == 32,
        ensures
            r matches Ok(rd) ==> {
                &&& open_blob(derive_of(normalize_text(recovery_key@), salt@), rd.kek_bytes@)
                    == Some(kek@)
                &&& rd.kek_bytes@.len() == KEY_LEN + BLOB_OVERHEAD
            },
            normalize_text(recovery_key@).len() <= PASSWORD_MAX_CHARS ==> r is Ok,
            r matches Err(e) ==> e == VaultError::KeyDerivation,
    {
        let normalized = normalize_str(recovery_key.as_str());
        match Kek::derive(normalized.as_str(), salt) {
            Ok(recovery_kek) => {
                match encrypt(recovery_kek.as_bytes(), kek.as_bytes()) {
                    Ok(blob) => Ok(RecoveryData { kek_bytes: blob }),
                    Err(_) => {
                        proof {
                            assert(false);
                        }
                        Err(VaultError::KeyDerivation)
                    },
                }
            },
            Err(e) => Err(e),
        }
    }

    /// Recover the master key from the escrow record.
    ///
    /// Fails with `AuthenticationFailure` when the record does not open
    /// under the key derived from this secret (a wrong or corrupted
    /// secret), and with `InvalidKeySize` when it opens to a payload that
    /// is not exactly 32 bytes.
    pub fn recover_kek(&self, recovery_key: &RecoveryKey, salt: &[u8]) -> (r: Result<
        Kek,
        VaultError,
    >)
        requires
            salt@.len() == 32,
        ensures
            r matches Ok(k) ==> {
                &&& open_blob(derive_of(normalize_text(recovery_key@), salt@), self.kek_bytes@)
                    == Some(k@)
                &&& k@.len() == KEY_LEN
            },
            ({
                let opened = open_blob(
                    derive_of(normalize_text(recovery_key@), salt@),
                    self.kek_bytes@,
                );
                &&& (normalize_text(recovery_key@).len() <= PASSWORD_MAX_CHARS && (opened matches
                Some(p) && p.len() == KEY_LEN)) ==> r is Ok
                &&& (r matches Err(e) ==> {
                    ||| (e == VaultError::KeyDerivation && normalize_text(recovery_key@).len()
                        > PASSWORD_MAX_CHARS)
                    ||| (opened is None && e == VaultError::AuthenticationFailure)
                    ||| (opened matches Some(p) && p.len() != KEY_LEN && e
                        == VaultError::InvalidKeySize)
                })
            }),
    {
        let normalized = normalize_str(recovery_key.as_str());
        match Kek::derive(normalized.as_str(), salt) {
            Ok(recovery_kek) => {
                match crate::crypto::decrypt(recovery_kek.as_bytes(), self.kek_bytes.as_slice()) {
                    Ok(kek_bytes) => {
                        if kek_bytes.len() == KEY_LEN {
                            Ok(Kek::from_bytes(kek_bytes))
                        } else {
                            Err(VaultError::InvalidKeySize)
                        }
                    },
                    Err(e) => Err(e),
                }
            },
            Err(e) => Err(e),
        }
    }

    /// Serialize the record for durable storage: the record is exactly
    /// the encrypted master-key blob.
    pub fn to_bytes(&self) -> (r: Vec<u8>)
        ensures
            r@ == self.kek_bytes@,
    {
        let mut out: Vec<u8> = Vec::new();
        out.extend_from_slice(self.kek_bytes.as_slice());
        proof {
            assert(out@ =~= self.kek_bytes@);
        }
        out
    }

    /// Parse a persisted record: the bytes are the encrypted blob itself.
    /// A record of any length parses; a corrupted one simply fails to
    /// open during recovery.
    pub fn from_bytes(bytes: Vec<u8>) -> (r: RecoveryData)
        ensures
            r.kek_bytes@ == bytes@,
    {
        RecoveryData { kek_bytes: bytes }
    }
}

} // verus!
