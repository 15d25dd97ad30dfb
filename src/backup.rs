//! Configuration of database backups: where to copy, whether to compress
//! and encrypt, how often, and how many copies to keep. Running a backup
//! touches files and clocks and happens outside this library.

use vstd::prelude::*;
use vstd::string::StrSliceExecFns;
use vstd::utf8::encode_utf8;

use crate::schedule::{Schedule, Scheduler};

verus! {

/// When a scheduled backup runs: a frequency such as `daily` or `weekly`
/// and a time of day such as `02:30`.
pub struct ScheduleConfig {
    pub frequency: String,
    pub time: String,
}

/// How many backup files to keep.
pub struct BackupRotationConfig {
    pub max_backups: usize,
}

/// Everything a backup run reads.
pub struct Config {
    pub source_db: String,
    pub backup_path: String,
    pub compression: bool,
    pub encryption: bool,
    pub encryption_key: Option<String>,
    pub schedule: Option<ScheduleConfig>,
    pub chunk_size: usize,
    pub backup_rotation: Option<BackupRotationConfig>,
    pub skip_verification: bool,
}

/// Failures of backup and restore.
#[derive(Debug, Clone, PartialEq, Eq)]
pub enum BackupError {
    SqliteError(String),
    IoError(String),
    CompressionError(String),
    EncryptionError(String),
    VerificationError,
    SchedulingError(String),
    RestoreError(String),
    ConfigurationError(String),
    InvalidPath(String),
}

/// Chunk size of a new backup.
pub const DEFAULT_CHUNK_SIZE: usize = 1024;

fn copy_text(s: &Option<String>) -> (r: Option<String>)
    ensures
        r == *s,
{
    match s {
        Some(t) => Some(t.clone()),
        None => None,
    }
}

impl ScheduleConfig {
    pub fn duplicate(&self) -> (r: ScheduleConfig)
        ensures
            r == *self,
    {
        ScheduleConfig { frequency: self.frequency.clone(), time: self.time.clone() }
    }
}

impl Config {
    pub fn duplicate(&self) -> (r: Config)
        ensures
            r == *self,
    {
        Config {
            source_db: self.source_db.clone(),
            backup_path: self.backup_path.clone(),
            compression: self.compression,
            encryption: self.encryption,
            encryption_key: copy_text(&self.encryption_key),
            schedule: match &self.schedule {
                Some(s) => Some(s.duplicate()),
                None => None,
            },
            chunk_size: self.chunk_size,
            backup_rotation: match &self.backup_rotation {
                Some(b) => Some(BackupRotationConfig { max_backups: b.max_backups }),
                None => None,
            },
            skip_verification: self.skip_verification,
        }
    }
}

/// A configured backup of one database file.
pub struct Backup {
    config: Config,
}

impl Backup {
    pub closed spec fn settings(&self) -> Config {
        self.config
    }

    /// A plain copy of `source_db` to `backup_path`: no compression,
    /// encryption, schedule or rotation, verification on, chunks of 1024.
    pub fn new(source_db: &str, backup_path: &str) -> (r: Result<Backup, BackupError>)
        ensures
            r matches Ok(b) && b.settings().source_db@ == source_db@
                && b.settings().backup_path@ == backup_path@ && !b.settings().compression
                && !b.settings().encryption && b.settings().encryption_key is None
                && b.settings().schedule is None && b.settings().chunk_size == DEFAULT_CHUNK_SIZE
                && b.settings().backup_rotation is None && !b.settings().skip_verification,
    {
        let config = Config {
            source_db: source_db.to_owned(),
            backup_path: backup_path.to_owned(),
            compression: false,
            encryption: false,
            encryption_key: None,
            schedule: None,
            chunk_size: DEFAULT_CHUNK_SIZE,
            backup_rotation: None,
            skip_verification: false,
        };
        Ok(Backup { config })
    }

    /// The settings of this backup.
    pub fn config(&self) -> (r: &Config)
        ensures
            *r == self.settings(),
    {
        &self.config
    }

    pub fn set_compression(&mut self, enable: bool)
        ensures
            final(self).settings() == (Config { compression: enable, ..old(self).settings() }),
    {
        self.config.compression = enable;
    }

    pub fn set_encryption(&mut self, enable: bool, key: Option<String>)
        ensures
            final(self).settings() == (Config {
                encryption: enable,
                encryption_key: key,
                ..old(self).settings()
            }),
    {
        self.config.encryption = enable;
        self.config.encryption_key = key;
    }

    pub fn set_schedule(&mut self, schedule: Schedule)
        ensures
            final(self).settings() == (Config {
                schedule: Some(ScheduleConfig { frequency: schedule.frequency, time: schedule.time }),
                ..old(self).settings()
            }),
    {
        self.config.schedule = Some(schedule.to_config());
    }

    pub fn set_chunk_size(&mut self, chunk_size: usize)
        ensures
            final(self).settings() == (Config { chunk_size, ..old(self).settings() }),
    {
        self.config.chunk_size = chunk_size;
    }

    pub fn set_backup_rotation(&mut self, rotation: BackupRotationConfig)
        ensures
            final(self).settings() == (Config {
                backup_rotation: Some(rotation),
                ..old(self).settings()
            }),
    {
        self.config.backup_rotation = Some(rotation);
    }

    pub fn set_backup_path(&mut self, path: String)
        ensures
            final(self).settings() == (Config { backup_path: path, ..old(self).settings() }),
    {
        self.config.backup_path = path;
    }

    pub fn set_skip_verification(&mut self, skip: bool)
        ensures
            final(self).settings() == (Config { skip_verification: skip, ..old(self).settings() }),
    {
        self.config.skip_verification = skip;
    }

    /// A copy of this backup with the same settings.
    pub fn duplicate(&self) -> (r: Backup)
        ensures
            r.settings() == self.settings(),
    {
        Backup { config: self.config.duplicate() }
    }

    /// The scheduler that runs this backup on `schedule`; starting it is
    /// left to the caller.
    pub fn schedule(&self, schedule: Schedule) -> (r: Result<Scheduler, BackupError>)
        ensures
            r matches Ok(s) && s.plan() == schedule && s.job().settings() == self.settings(),
    {
        Ok(Scheduler::new(schedule, self.duplicate()))
    }
}

/// Length of the key of backup file encryption (AES-256).
pub const BACKUP_KEY_LENGTH: usize = 32;

/// The key bytes made from a key text: its first 32 bytes, padded with
/// zeros when it is shorter.
pub open spec fn key_material(text: Seq<u8>) -> Seq<u8> {
    Seq::new(BACKUP_KEY_LENGTH as nat, |i: int| if i < text.len() { text[i] } else { 0u8 })
}

/// The 32-byte key that encrypts backup files, made from a key text.
pub fn backup_key(key: &str) -> (r: Vec<u8>)
    ensures
        r@ == key_material(encode_utf8(key@)),
{
    let bytes = key.as_bytes();
    let mut out: Vec<u8> = Vec::new();
    let mut i: usize = 0;
    while i < BACKUP_KEY_LENGTH
        invariant
            i <= BACKUP_KEY_LENGTH,
            bytes@ == encode_utf8(key@),
            out@ == key_material(bytes@).take(i as int),
        decreases BACKUP_KEY_LENGTH - i,
    {
        let b = if i < bytes.len() {
            bytes[i]
        } else {
            0u8
        };
        out.push(b);
        proof {
            assert(out@ =~= key_material(bytes@).take(i + 1));
        }
        i = i + 1;
    }
    proof {
        assert(out@ =~= key_material(bytes@));
    }
    out
}

/// Names of rotated backup files start with this.
pub const BACKUP_PREFIX: &'static str = "backup_";

/// Names of rotated backup files end with this.
pub const BACKUP_SUFFIX: &'static str = ".db";

/// `p` begins `t`.
pub open spec fn starts_with(t: Seq<char>, p: Seq<char>) -> bool {
    p.len() <= t.len() && t.take(p.len() as int) == p
}

/// `s` ends `t`.
pub open spec fn ends_with(t: Seq<char>, s: Seq<char>) -> bool {
    s.len() <= t.len() && t.skip(t.len() - s.len()) == s
}

/// A file name of the form `backup_*.db`.
pub open spec fn is_backup_name(n: Seq<char>) -> bool {
    starts_with(n, BACKUP_PREFIX@) && ends_with(n, BACKUP_SUFFIX@)
}

/// `a` comes after `b` in code-point order (which is also the byte order
/// of their UTF-8 encodings).
pub open spec fn later_name(a: Seq<char>, b: Seq<char>) -> bool
    decreases a.len(),
{
    if b.len() == 0 {
        a.len() > 0
    } else if a.len() == 0 {
        false
    } else if a[0] != b[0] {
        (a[0] as u32) > (b[0] as u32)
    } else {
        later_name(a.drop_first(), b.drop_first())
    }
}

/// How many backup names among `names` come after `n`.
pub open spec fn count_later(names: Seq<Seq<char>>, n: Seq<char>) -> nat
    decreases names.len(),
{
    if names.len() == 0 {
        0
    } else {
        count_later(names.drop_last(), n) + if is_backup_name(names.last()) && later_name(
            names.last(),
            n,
        ) {
            1nat
        } else {
            0nat
        }
    }
}

/// The names of `prefix` that rotation removes from the directory listing
/// `all`: backup names with at least `keep` later backup names, that is
/// every backup past the `keep` newest in descending name order.
pub open spec fn rotated_out(prefix: Seq<Seq<char>>, all: Seq<Seq<char>>, keep: nat) -> Seq<Seq<char>>
    decreases prefix.len(),
{
    if prefix.len() == 0 {
        Seq::empty()
    } else {
        rotated_out(prefix.drop_last(), all, keep) + if is_backup_name(prefix.last()) && count_later(
            all,
            prefix.last(),
        ) >= keep {
            seq![prefix.last()]
        } else {
            Seq::empty()
        }
    }
}

fn text_starts_with(t: &str, p: &str) -> (r: bool)
    ensures
        r == starts_with(t@, p@),
{
    let n = p.unicode_len();
    if n > t.unicode_len() {
        return false;
    }
    let mut i: usize = 0;
    while i < n
        invariant
            n == p@.len(),
            n <= t@.len(),
            i <= n,
            t@.take(i as int) == p@.take(i as int),
        decreases n - i,
    {
        if t.get_char(i) != p.get_char(i) {
            proof {
                assert(t@.take(n as int)[i as int] != p@[i as int]);
            }
            return false;
        }
        proof {
            assert(t@.take(i + 1) =~= t@.take(i as int).push(t@[i as int]));
            assert(p@.take(i + 1) =~= p@.take(i as int).push(p@[i as int]));
        }
        i = i + 1;
    }
    proof {
        assert(p@.take(n as int) =~= p@);
    }
    true
}

fn text_ends_with(t: &str, s: &str) -> (r: bool)
    ensures
        r == ends_with(t@, s@),
{
    let n = s.unicode_len();
    let m = t.unicode_len();
    if n > m {
        return false;
    }
    let start = m - n;
    let mut i: usize = 0;
    while i < n
        invariant
            n == s@.len(),
            m == t@.len(),
            start == m - n,
            i <= n,
            forall|k: int| 0 <= k < i ==> t@[start + k] == s@[k],
        decreases n - i,
    {
        if t.get_char(start + i) != s.get_char(i) {
            proof {
                assert(t@.skip(start as int)[i as int] != s@[i as int]);
            }
            return false;
        }
        i = i + 1;
    }
    proof {
        assert(t@.skip(start as int) =~= s@);
    }
    true
}

proof fn lemma_later_step(a: Seq<char>, b: Seq<char>, i: int)
    requires
        0 <= i < a.len(),
        i < b.len(),
        a[i] == b[i],
    ensures
        later_name(a.skip(i), b.skip(i)) == later_name(a.skip(i + 1), b.skip(i + 1)),
{
    assert(a.skip(i).drop_first() =~= a.skip(i + 1));
    assert(b.skip(i).drop_first() =~= b.skip(i + 1));
}

fn text_later(a: &str, b: &str) -> (r: bool)
    ensures
        r == later_name(a@, b@),
{
    let n = a.unicode_len();
    let m = b.unicode_len();
    let mut i: usize = 0;
    proof {
        assert(a@.skip(0) =~= a@);
        assert(b@.skip(0) =~= b@);
    }
    while i < n && i < m
        invariant
            n == a@.len(),
            m == b@.len(),
            i <= n,
            i <= m,
            later_name(a@, b@) == later_name(a@.skip(i as int), b@.skip(i as int)),
        decreases n - i,
    {
        let x = a.get_char(i);
        let y = b.get_char(i);
        if x != y {
            proof {
                assert(a@.skip(i as int)[0] == x);
                assert(b@.skip(i as int)[0] == y);
            }
            return (x as u32) > (y as u32);
        }
        proof {
            lemma_later_step(a@, b@, i as int);
        }
        i = i + 1;
    }
    proof {
        assert(a@.skip(i as int).len() == n - i);
        assert(b@.skip(i as int).len() == m - i);
    }
    i < n
}

/// Among the names of one directory listing, the backup files that
/// rotation removes so that at most `keep` backups remain: every
/// `backup_*.db` name after the `keep` newest in descending name order.
/// Names are returned in listing order.
pub fn backups_to_remove(names: &Vec<String>, keep: usize) -> (r: Vec<String>)
    ensures
        crate::sql_builder::views(r@) == rotated_out(
            crate::sql_builder::views(names@),
            crate::sql_builder::views(names@),
            keep as nat,
        ),
{
    let ghost all = crate::sql_builder::views(names@);
    let mut out: Vec<String> = Vec::new();
    let mut i: usize = 0;
    while i < names.len()
        invariant
            i <= names.len(),
            all == crate::sql_builder::views(names@),
            crate::sql_builder::views(out@) == rotated_out(all.take(i as int), all, keep as nat),
        decreases names.len() - i,
    {
        let name = names[i].as_str();
        let candidate = text_starts_with(name, BACKUP_PREFIX) && text_ends_with(name, BACKUP_SUFFIX);
        let mut later: usize = 0;
        if candidate {
            let mut j: usize = 0;
            while j < names.len()
                invariant
                    j <= names.len(),
                    all == crate::sql_builder::views(names@),
                    name@ == all[i as int],
                    i < names.len(),
                    later as nat == count_later(all.take(j as int), all[i as int]),
                    later <= j,
                decreases names.len() - j,
            {
                let other = names[j].as_str();
                proof {
                    assert(all.take(j + 1).drop_last() =~= all.take(j as int));
                }
                if text_starts_with(other, BACKUP_PREFIX) && text_ends_with(other, BACKUP_SUFFIX)
                    && text_later(other, name) {
                    later = later + 1;
                }
                j = j + 1;
            }
            proof {
                assert(all.take(names.len() as int) =~= all);
            }
        }
        proof {
            assert(all.take(i + 1).drop_last() =~= all.take(i as int));
        }
        if candidate && later >= keep {
            let kept = names[i].clone();
            proof {
                crate::sql_builder::lemma_views_push(out@, kept);
            }
            out.push(kept);
        } else {
            proof {
                assert(crate::sql_builder::views(out@) =~= crate::sql_builder::views(out@) + Seq::empty());
            }
        }
        i = i + 1;
    }
    proof {
        assert(all.take(names.len() as int) =~= all);
    }
    out
}

/// Restoring a database from a backup file; the work itself touches files
/// and happens outside this library.
pub struct Restore;

} // verus!
