//! What the desktop application's commands compute, apart from reading and
//! writing files and talking to the page.
//!
//! The page has no access to encryption: it goes through these commands, and
//! the errors it receives never separate a wrong password from an altered
//! file.
use std::path::PathBuf;

use vstd::prelude::*;
use vstd::string::StringExecFns;

use crate::error::{error_text, Error};
use crate::launch::path_display;
use crate::header::{header_error, header_of, magic_seq, KdfParams};
use crate::primitives::wipe_text;
use crate::session::{after_timeout, elapsed, Session, UnlockedView, IDLE_TIMEOUT_MS};
use crate::error::Result as VaultResult;
use crate::vault::{decrypt, decrypt_result, encrypt, write_outcome, inspect, is_v2, valid_file_len, FileInfo};

verus! {

/// Message given for a file that does not carry the vault signature.
pub const NOT_A_VAULT: &'static str = "ce fichier n'est pas un coffre .coocrypt";

/// Header of a vault as the page can show it, readable without password.
pub struct VaultInfo {
    /// Format version.
    pub version: u8,
    /// Argon2id memory cost, in KiB.
    pub memory_kib: u32,
    /// Argon2id iterations.
    pub iterations: u32,
    /// Argon2id parallelism.
    pub parallelism: u8,
    /// File size, in bytes.
    pub file_len: usize,
    /// Number of padding blocks.
    pub blocks: usize,
    /// Whether the parameters are those of the current version: otherwise the
    /// next save hardens them.
    pub up_to_date: bool,
}

/// Session state as the page can show it.
pub struct SessionState {
    /// Whether a vault is open.
    pub unlocked: bool,
    /// Path of the open vault. A path is not vault content.
    pub path: Option<String>,
    /// Seconds left before the session locks itself.
    pub remaining_secs: Option<u64>,
}

/// A newer release offered to the user.
pub struct Available {
    /// Offered version.
    pub version: String,
    /// Running version.
    pub current: String,
    /// Release notes, when the manifest carries some.
    pub notes: Option<String>,
}

/// The vault description shown for a file description.
pub open spec fn vault_info_view(info: FileInfo) -> VaultInfo {
    VaultInfo {
        version: info.version,
        memory_kib: info.kdf.memory_kib,
        iterations: info.kdf.iterations,
        parallelism: info.kdf.parallelism,
        file_len: info.file_len,
        blocks: info.blocks,
        up_to_date: info.kdf == KdfParams::spec_default(),
    }
}

/// Describes a file's header for the page.
pub fn describe(info: &FileInfo) -> (res: VaultInfo)
    ensures
        res == vault_info_view(*info),
{
    let default = KdfParams::default();
    VaultInfo {
        version: info.version,
        memory_kib: info.kdf.memory_kib,
        iterations: info.kdf.iterations,
        parallelism: info.kdf.parallelism,
        file_len: info.file_len,
        blocks: info.blocks,
        up_to_date: info.kdf == default,
    }
}

/// Reads the header of vault bytes for the page, without password.
pub fn vault_info(bytes: &[u8]) -> (res: Result<VaultInfo, String>)
    ensures
        res is Ok <==> valid_file_len(bytes@.len()) && header_error(bytes@.subrange(0, 64)) is None,
        res matches Ok(v) ==> v == vault_info_view(
            FileInfo {
                version: 2,
                kdf: header_of(bytes@.subrange(0, 64)).kdf,
                file_len: bytes@.len() as usize,
                blocks: ((bytes@.len() - 80) / 4096) as usize,
            },
        ),
        res matches Err(m) ==> exists|e: Error|
            inspect_refusal(bytes@, e) && m@ == #[trigger] error_text(e),
{
    match inspect(bytes) {
        Ok(info) => Ok(describe(&info)),
        Err(e) => Err(e.message()),
    }
}

/// The refusal that inspecting these bytes gives.
pub open spec fn inspect_refusal(bytes: Seq<u8>, e: Error) -> bool {
    if !valid_file_len(bytes.len()) {
        e == Error::InvalidLength { actual: bytes.len() as usize }
    } else {
        header_error(bytes.subrange(0, 64)) == Some(e)
    }
}

/// Opens vault bytes with a password and returns the document.
///
/// Bytes without the vault signature are refused before any derivation:
/// there is no point in making the user wait for a file that is not a vault.
pub fn open_vault(bytes: &[u8], password: &str) -> (res: Result<String, String>)
    ensures
        reply_is(res, open_outcome(bytes@, password@)),
{
    if !is_v2(bytes) {
        return Err(String::from_str(NOT_A_VAULT));
    }
    match decrypt(bytes, password) {
        Ok(content) => Ok(content),
        Err(e) => Err(e.message()),
    }
}

/// Message given when a command needs the open vault and the session is
/// locked.
pub const SESSION_LOCKED: &'static str = "session verrouillée";

/// The reply that opening `bytes` with `password` owes the page: the
/// document, or the message of the first refusal.
pub open spec fn open_outcome(bytes: Seq<u8>, password: Seq<char>) -> Result<Seq<char>, Seq<char>> {
    if !(bytes.len() >= 8 && bytes.subrange(0, 8) == magic_seq()) {
        Err(NOT_A_VAULT@)
    } else {
        match decrypt_result(bytes, password) {
            Ok(content) => Ok(content),
            Err(e) => Err(error_text(e)),
        }
    }
}

/// Whether a reply carries the text of an outcome.
pub open spec fn reply_is(res: Result<String, String>, outcome: Result<Seq<char>, Seq<char>>) -> bool {
    match outcome {
        Ok(content) => res matches Ok(s) && s@ == content,
        Err(message) => res matches Err(m) && m@ == message,
    }
}

/// Opens the vault at `path` from its bytes and, on success only, unlocks the
/// session on that path and password at `now`. A refusal leaves the session
/// as it was.
pub fn vault_open(
    session: &mut Session,
    path: PathBuf,
    bytes: &[u8],
    password: &str,
    now: u64,
) -> (res: Result<String, String>)
    ensures
        reply_is(res, open_outcome(bytes@, password@)),
        res is Ok ==> final(session)@ == Some(
            UnlockedView { path, password: password@, last_activity: now },
        ),
        res is Err ==> final(session)@ == old(session)@,
{
    let res = open_vault(bytes, password);
    if let Ok(_) = &res {
        session.unlock(path, password.to_owned(), now);
    }
    res
}

/// Whether a sealing reply carries the outcome of an encryption: the path
/// and file to write, or the message of the refusal.
pub open spec fn sealed_reply(
    sealed: VaultResult<Vec<u8>>,
    path: PathBuf,
    res: Result<(PathBuf, Vec<u8>), String>,
) -> bool {
    match sealed {
        Ok(file) => res matches Ok(pair) && pair.0 == path && pair.1@ == file@,
        Err(e) => res matches Err(m) && m@ == error_text(e),
    }
}

/// Seals the document for the open vault with its password, and records the
/// activity at `now`. Returns the path and the bytes to write there; the
/// current default parameters are applied, so each save hardens the file.
///
/// A locked session, including one whose delay has just expired, is refused.
pub fn vault_save(session: &mut Session, content: &str, now: u64) -> (res: Result<
    (PathBuf, Vec<u8>),
    String,
>)
    ensures
        final(session)@ == (match after_timeout(old(session)@, now) {
            Some(u) => Some(UnlockedView { last_activity: now, ..u }),
            None => None::<UnlockedView>,
        }),
        after_timeout(old(session)@, now) is None ==> (res matches Err(m) && m@
            == SESSION_LOCKED@),
        after_timeout(old(session)@, now) matches Some(u) ==> exists|sealed: VaultResult<Vec<u8>>|
            write_outcome(content@, u.password, KdfParams::spec_default(), sealed)
                && #[trigger] sealed_reply(sealed, u.path, res),
{
    let (path, mut password) = match session.credentials(now) {
        Some(credentials) => credentials,
        None => {
            return Err(String::from_str(SESSION_LOCKED));
        },
    };
    let ghost used = password@;
    let sealed = encrypt(content, password.as_str());
    wipe_text(&mut password);
    let ghost outcome = sealed;
    let res = match sealed {
        Ok(file) => Ok((path, file)),
        Err(e) => Err(e.message()),
    };
    assert(write_outcome(content@, used, KdfParams::spec_default(), outcome));
    assert(sealed_reply(outcome, path, res));
    res
}

/// Seals the document of the open vault under a new password: full
/// re-encryption with a new salt, nonce and the current defaults. Returns the
/// path and the bytes to write there; once they are written, the caller
/// unlocks the session on the new password.
///
/// A locked session is refused.
pub fn vault_change_password(session: &Session, content: &str, new_password: &str) -> (res: Result<
    (PathBuf, Vec<u8>),
    String,
>)
    ensures
        session@ is None ==> (res matches Err(m) && m@ == SESSION_LOCKED@),
        session@ matches Some(u) ==> exists|sealed: VaultResult<Vec<u8>>|
            write_outcome(content@, new_password@, KdfParams::spec_default(), sealed)
                && #[trigger] sealed_reply(sealed, u.path, res),
{
    let path = match session.path() {
        Some(path) => path,
        None => {
            return Err(String::from_str(SESSION_LOCKED));
        },
    };
    let sealed = encrypt(content, new_password);
    let ghost outcome = sealed;
    let res = match sealed {
        Ok(file) => Ok((path, file)),
        Err(e) => Err(e.message()),
    };
    assert(sealed_reply(outcome, path, res));
    res
}

/// Text of a path, through `Path::to_string_lossy`.
///
/// Claimed: the text is the display text of the path.
#[verifier::external_body]
fn path_text(path: &PathBuf) -> (res: String)
    ensures
        res@ == path_display(*path),
{
    path.to_string_lossy().into_owned()
}

/// The session state at `now`, after applying the inactivity delay.
pub fn session_state(session: &mut Session, now: u64) -> (res: SessionState)
    ensures
        final(session)@ == after_timeout(old(session)@, now),
        res.unlocked == final(session)@ is Some,
        res.path is Some == final(session)@ is Some,
        res.path matches Some(text) ==> final(session)@ matches Some(u) && text@ == path_display(
            u.path,
        ),
        res.remaining_secs == (match final(session)@ {
            Some(u) => Some(((IDLE_TIMEOUT_MS - elapsed(u.last_activity, now)) / 1000) as u64),
            None => None::<u64>,
        }),
{
    let unlocked = session.is_unlocked(now);
    let path = match session.path() {
        Some(p) => Some(path_text(&p)),
        None => None,
    };
    let remaining_secs = session.remaining_secs(now);
    SessionState { unlocked, path, remaining_secs }
}

/// Download progress of an update, reported to the page one percent at a
/// time rather than once per received chunk.
pub struct Progress {
    received: u64,
    last_percent: Option<u8>,
}

/// Percentage of `received` bytes out of `total`, capped at 100.
pub open spec fn percent_of(received: nat, total: nat) -> nat {
    if received * 100 / total > 100 {
        100
    } else {
        received * 100 / total
    }
}

/// Whether a total size was announced, and is not zero.
pub open spec fn total_known(total: Option<u64>) -> bool {
    total matches Some(t) && t > 0
}

impl Progress {
    /// Bytes received so far.
    pub closed spec fn received(&self) -> nat {
        self.received as nat
    }

    /// Last percentage reported, if any.
    pub closed spec fn last_percent(&self) -> Option<u8> {
        self.last_percent
    }

    /// Nothing received, nothing reported.
    pub fn new() -> (p: Progress)
        ensures
            p.received() == 0,
            p.last_percent() is None,
    {
        Progress { received: 0, last_percent: None }
    }

    /// Accounts for a chunk of `chunk` bytes out of an announced `total`, and
    /// returns the percentage to report, if it changed. Nothing is reported
    /// while the total is unknown or zero.
    pub fn advance(&mut self, chunk: u64, total: Option<u64>) -> (res: Option<u8>)
        requires
            (old(self).received() + chunk) * 100 <= u64::MAX,
        ensures
            final(self).received() == old(self).received() + chunk,
            total_known(total) ==> ({
                let p = percent_of(final(self).received(), total->0 as nat);
                &&& final(self).last_percent() == Some(p as u8)
                &&& res == (if old(self).last_percent() == Some(p as u8) {
                    None::<u8>
                } else {
                    Some(p as u8)
                })
            }),
            !total_known(total) ==> res is None && final(self).last_percent() == old(
                self,
            ).last_percent(),
    {
        self.received = self.received + chunk;
        let t = match total {
            Some(t) => t,
            None => {
                return None;
            },
        };
        if t == 0 {
            return None;
        }
        let scaled = self.received * 100 / t;
        let percent: u8 = if scaled > 100 {
            100
        } else {
            scaled as u8
        };
        let changed = match self.last_percent {
            Some(last) => last != percent,
            None => true,
        };
        self.last_percent = Some(percent);
        if changed {
            Some(percent)
        } else {
            None
        }
    }
}

/// A vault is up to date exactly when all three of its parameters are the
/// current defaults: 128 MiB of memory, 4 iterations and 4 lanes. Any other
/// memory, iteration count or parallelism means the next save hardens it.
pub proof fn lemma_up_to_date_iff_all_defaults(info: FileInfo)
    ensures
        vault_info_view(info).up_to_date <==> (info.kdf.memory_kib == 131072
            && info.kdf.iterations == 4 && info.kdf.parallelism == 4),
        vault_info_view(info).memory_kib == info.kdf.memory_kib,
        vault_info_view(info).iterations == info.kdf.iterations,
        vault_info_view(info).parallelism == info.kdf.parallelism,
        vault_info_view(info).blocks == info.blocks,
        vault_info_view(info).file_len == info.file_len,
        vault_info_view(info).version == info.version,
{
}

} // verus!
