//! Settings and the identity of a node.

use crate::backend::BackendChoice;
use crate::outside::{
    format_uuid, parse_uuid, parsed_uuid, random_id, random_uuid, uuid_text,
};
use crate::text::{joined, trim, trimmed, trimmed_is_unique, whitespace};
use vstd::prelude::*;

verus! {

/// The largest number of units that may be claimed together.
pub const MAX_BATCH_SIZE: usize = 128;

/// The largest number of batches that may be worked on at once.
pub const MAX_CONCURRENCY: usize = 0xffff_ffff;

/// How many batches are worked on at once, unless configured.
pub const DEFAULT_CONCURRENCY: usize = 1;

/// How many units are claimed together, unless configured.
pub const DEFAULT_BATCH_SIZE: usize = 1;

/// Milliseconds of pause where there is no work, unless configured.
pub const DEFAULT_POLL_INTERVAL_MS: u64 = 2_000;

/// The longest delay before a request is repeated, in milliseconds, unless
/// configured.
pub const DEFAULT_MAX_BACKOFF_MS: u64 = 30_000;

/// Seconds that a request may take, unless configured.
pub const DEFAULT_REQUEST_TIMEOUT_SECS: u64 = 30;

/// The settings that decide how the worker behaves.
pub struct Config {
    pub coordinator_url: String,
    pub node_id: Option<u128>,
    pub work_concurrency: usize,
    pub work_batch_size: usize,
    pub cpu_threads: Option<usize>,
    pub compute_backend: BackendChoice,
    pub poll_interval_ms: u64,
    pub max_backoff_ms: u64,
    pub request_timeout_secs: u64,
}

#[derive(Clone, Copy, Debug, PartialEq, Eq, Structural)]
pub enum ConfigError {
    NoConcurrency,
    ConcurrencyTooLarge,
    BatchSizeOutOfRange,
    NoThreads,
    NoPollInterval,
    NoBackoff,
    NoTimeout,
}

impl ConfigError {
    pub open spec fn message_spec(self) -> Seq<char> {
        match self {
            ConfigError::NoConcurrency => "work concurrency must be positive"@,
            ConfigError::ConcurrencyTooLarge => "work concurrency is too large"@,
            ConfigError::BatchSizeOutOfRange => "work batch size must be between 1 and 128"@,
            ConfigError::NoThreads => "CPU threads must be positive"@,
            ConfigError::NoPollInterval => "poll interval must be positive"@,
            ConfigError::NoBackoff => "maximum backoff must be positive"@,
            ConfigError::NoTimeout => "request timeout must be positive"@,
        }
    }

    pub fn message(self) -> (r: &'static str)
        ensures
            r@ == self.message_spec(),
    {
        match self {
            ConfigError::NoConcurrency => "work concurrency must be positive",
            ConfigError::ConcurrencyTooLarge => "work concurrency is too large",
            ConfigError::BatchSizeOutOfRange => "work batch size must be between 1 and 128",
            ConfigError::NoThreads => "CPU threads must be positive",
            ConfigError::NoPollInterval => "poll interval must be positive",
            ConfigError::NoBackoff => "maximum backoff must be positive",
            ConfigError::NoTimeout => "request timeout must be positive",
        }
    }
}

impl Config {
    /// The first setting that is out of range, if any.
    pub open spec fn fault(self) -> Option<ConfigError> {
        if self.work_concurrency == 0 {
            Some(ConfigError::NoConcurrency)
        } else if self.work_concurrency > u32::MAX {
            Some(ConfigError::ConcurrencyTooLarge)
        } else if self.work_batch_size < 1 || self.work_batch_size > 128 {
            Some(ConfigError::BatchSizeOutOfRange)
        } else if self.cpu_threads == Some(0usize) {
            Some(ConfigError::NoThreads)
        } else if self.poll_interval_ms == 0 {
            Some(ConfigError::NoPollInterval)
        } else if self.max_backoff_ms == 0 {
            Some(ConfigError::NoBackoff)
        } else if self.request_timeout_secs == 0 {
            Some(ConfigError::NoTimeout)
        } else {
            None
        }
    }

    pub fn validate(&self) -> (r: Result<(), ConfigError>)
        ensures
            match r {
                Ok(_) => self.fault() is None,
                Err(error) => self.fault() == Some(error),
            },
    {
        if self.work_concurrency == 0 {
            return Err(ConfigError::NoConcurrency);
        }
        if self.work_concurrency > MAX_CONCURRENCY {
            return Err(ConfigError::ConcurrencyTooLarge);
        }
        if self.work_batch_size < 1 || self.work_batch_size > MAX_BATCH_SIZE {
            return Err(ConfigError::BatchSizeOutOfRange);
        }
        if let Some(threads) = self.cpu_threads {
            if threads == 0 {
                return Err(ConfigError::NoThreads);
            }
        }
        if self.poll_interval_ms == 0 {
            return Err(ConfigError::NoPollInterval);
        }
        if self.max_backoff_ms == 0 {
            return Err(ConfigError::NoBackoff);
        }
        if self.request_timeout_secs == 0 {
            return Err(ConfigError::NoTimeout);
        }
        Ok(())
    }

    /// How many seconds a request may take.
    pub fn timeout(&self) -> (r: u64)
        ensures
            r == self.request_timeout_secs,
    {
        self.request_timeout_secs
    }

    /// How the identity of the node is found: a configured one is taken, else
    /// the stored one is looked for.
    pub fn node_identity(&self) -> (r: Identity)
        ensures
            match self.node_id {
                Some(id) => r == Identity::Known(id),
                None => r is ReadStored,
            },
    {
        match self.node_id {
            Some(id) => Identity::Known(id),
            None => Identity::ReadStored,
        }
    }
}

/// Settings are accepted exactly where each is in its range, and a fault names a
/// setting that is not, where all that are looked at earlier are.
pub proof fn faults_name_a_setting_out_of_range(config: Config)
    ensures
        config.fault() is None <==> 1 <= config.work_concurrency <= 0xffff_ffff && 1
            <= config.work_batch_size <= 128 && (config.cpu_threads matches Some(threads)
            ==> threads >= 1) && config.poll_interval_ms >= 1 && config.max_backoff_ms >= 1
            && config.request_timeout_secs >= 1,
        config.fault() matches Some(error) ==> match error {
            ConfigError::NoConcurrency => config.work_concurrency == 0,
            ConfigError::ConcurrencyTooLarge => config.work_concurrency > 0xffff_ffff,
            ConfigError::BatchSizeOutOfRange => config.work_batch_size == 0
                || config.work_batch_size > 128,
            ConfigError::NoThreads => config.cpu_threads == Some(0usize),
            ConfigError::NoPollInterval => config.poll_interval_ms == 0 && config.cpu_threads
                != Some(0usize),
            ConfigError::NoBackoff => config.max_backoff_ms == 0 && config.poll_interval_ms > 0,
            ConfigError::NoTimeout => config.request_timeout_secs == 0 && config.max_backoff_ms > 0,
        },
{
}

/// A worker that is configured with no more than an address has settings in
/// range.
pub proof fn default_settings_are_in_range(config: Config)
    requires
        config.work_concurrency == DEFAULT_CONCURRENCY,
        config.work_batch_size == DEFAULT_BATCH_SIZE,
        config.cpu_threads is None,
        config.poll_interval_ms == DEFAULT_POLL_INTERVAL_MS,
        config.max_backoff_ms == DEFAULT_MAX_BACKOFF_MS,
        config.request_timeout_secs == DEFAULT_REQUEST_TIMEOUT_SECS,
    ensures
        config.fault() is None,
{
}

/// The next step in finding a node's identity.
pub enum Identity {
    /// The identity is known.
    Known(u128),
    /// Read the stored identity.
    ReadStored,
    /// Create the directory that holds the stored identity.
    CreateDirectory,
    /// Store this identity, unless one is stored already.
    Store(NewIdentity),
    /// Read the identity that was stored meanwhile.
    ReadAgain,
    /// There is no identity, for this reason.
    Failed(String),
}

/// A fresh identity and the text that is stored for it.
pub struct NewIdentity {
    pub id: u128,
    pub contents: String,
}

/// How an attempt to read the stored identity ended.
pub enum StoredRead {
    Contents(String),
    NotFound,
    Failed(String),
}

/// How an attempt to store a fresh identity ended.
pub enum StoreAttempt {
    Stored,
    AlreadyStored,
    Failed(String),
}

/// What a stored text says: surrounding whitespace is of no account.
pub open spec fn stored_identity(contents: Seq<char>, r: Identity) -> bool {
    exists|part: Seq<char>| #[trigger]
        trimmed(contents, part) && match parsed_uuid(part) {
            Ok(id) => r == Identity::Known(id),
            Err(reason) => r matches Identity::Failed(text) && text@ == reason,
        }
}

/// Reads a stored identity.
pub fn read_identity(contents: &str) -> (r: Identity)
    ensures
        stored_identity(contents@, r),
{
    let part = trim(contents);
    assert(trimmed(contents@, part@));
    match parse_uuid(part) {
        Ok(id) => Identity::Known(id),
        Err(reason) => Identity::Failed(reason),
    }
}

/// What follows the first look at the stored identity.
pub fn stored_read(read: StoredRead) -> (r: Identity)
    ensures
        match read {
            StoredRead::Contents(contents) => stored_identity(contents@, r),
            StoredRead::NotFound => r is CreateDirectory,
            StoredRead::Failed(reason) => r == Identity::Failed(reason),
        },
{
    match read {
        StoredRead::Contents(contents) => read_identity(contents.as_str()),
        StoredRead::NotFound => Identity::CreateDirectory,
        StoredRead::Failed(reason) => Identity::Failed(reason),
    }
}

/// Reading the stored text of an identity gives that identity.
pub open spec fn reads_back(fresh: NewIdentity) -> bool {
    forall|again: Identity| #[trigger]
        stored_identity(fresh.contents@, again) ==> again == Identity::Known(fresh.id)
}

/// The text that is stored for an identity. It reads back as that identity.
pub fn new_identity(id: u128) -> (r: NewIdentity)
    ensures
        r.id == id,
        r.contents@ == uuid_text(id) + "\n"@,
        reads_back(r),
{
    let text = format_uuid(id);
    let fresh = NewIdentity { id, contents: joined(text.as_str(), "\n") };
    assert forall|again: Identity| stored_identity(fresh.contents@, again) implies again
        == Identity::Known(id) by {
        stored_identity_is_stable(id, fresh.contents@, again);
    }
    fresh
}

/// What follows the creation of the directory: a random identity is stored.
pub fn directory_created(created: Result<(), String>) -> (r: Identity)
    ensures
        match created {
            Ok(_) => r matches Identity::Store(fresh) && random_uuid(fresh.id) && fresh.contents@
                == uuid_text(fresh.id) + "\n"@ && reads_back(fresh),
            Err(reason) => r == Identity::Failed(reason),
        },
{
    match created {
        Ok(()) => Identity::Store(new_identity(random_id())),
        Err(reason) => Identity::Failed(reason),
    }
}

/// What follows the attempt to store a fresh identity: an identity that was
/// stored meanwhile is kept.
pub fn store_attempted(id: u128, attempt: StoreAttempt) -> (r: Identity)
    ensures
        match attempt {
            StoreAttempt::Stored => r == Identity::Known(id),
            StoreAttempt::AlreadyStored => r is ReadAgain,
            StoreAttempt::Failed(reason) => r == Identity::Failed(reason),
        },
{
    match attempt {
        StoreAttempt::Stored => Identity::Known(id),
        StoreAttempt::AlreadyStored => Identity::ReadAgain,
        StoreAttempt::Failed(reason) => Identity::Failed(reason),
    }
}

/// What follows the second look at the stored identity.
pub fn read_again(read: Result<String, String>) -> (r: Identity)
    ensures
        match read {
            Ok(contents) => stored_identity(contents@, r),
            Err(reason) => r == Identity::Failed(reason),
        },
{
    match read {
        Ok(contents) => read_identity(contents.as_str()),
        Err(reason) => Identity::Failed(reason),
    }
}

/// Where the text of an identity parses to it, what is stored for the identity
/// reads back as that identity.
proof fn stored_identity_is_stable(id: u128, contents: Seq<char>, r: Identity)
    requires
        contents == uuid_text(id) + "\n"@,
        stored_identity(contents, r),
        parsed_uuid(uuid_text(id)) is Ok && parsed_uuid(uuid_text(id))->Ok_0 == id,
    ensures
        r == Identity::Known(id),
{
    let text = uuid_text(id);
    reveal_strlit("\n");
    assert(!whitespace(text[0]));
    assert(!whitespace(text[35]));
    assert(whitespace('\n'));
    assert(contents.subrange(0, 36) =~= text);
    assert(trimmed(contents, text));
    let part = choose|part: Seq<char>| #[trigger]
        trimmed(contents, part) && match parsed_uuid(part) {
            Ok(id) => r == Identity::Known(id),
            Err(reason) => r matches Identity::Failed(text) && text@ == reason,
        };
    trimmed_is_unique(contents, part, text);
}

/// Whitespace around a stored identity is of no account: more of it changes
/// nothing.
pub proof fn whitespace_around_an_identity_does_not_matter(
    before: Seq<char>,
    contents: Seq<char>,
    after: Seq<char>,
    r: Identity,
)
    requires
        forall|i: int| 0 <= i < before.len() ==> whitespace(#[trigger] before[i]),
        forall|i: int| 0 <= i < after.len() ==> whitespace(#[trigger] after[i]),
        stored_identity(contents, r),
    ensures
        stored_identity(before + contents + after, r),
{
    let part = choose|part: Seq<char>| #[trigger]
        trimmed(contents, part) && match parsed_uuid(part) {
            Ok(id) => r == Identity::Known(id),
            Err(reason) => r matches Identity::Failed(text) && text@ == reason,
        };
    let (start, end) = choose|start: int, end: int|
        #![trigger contents.subrange(start, end)]
        {
            &&& 0 <= start <= end <= contents.len()
            &&& part == contents.subrange(start, end)
            &&& forall|i: int| 0 <= i < start ==> whitespace(#[trigger] contents[i])
            &&& forall|i: int| end <= i < contents.len() ==> whitespace(#[trigger] contents[i])
            &&& start < end ==> !whitespace(contents[start]) && !whitespace(contents[end - 1])
        };
    let whole = before + contents + after;
    let (s, e) = (before.len() + start, before.len() + end);
    assert(whole.subrange(s, e) =~= part);
    assert forall|i: int| 0 <= i < s implies whitespace(#[trigger] whole[i]) by {
        if i < before.len() {
            assert(whole[i] == before[i]);
        } else {
            assert(whole[i] == contents[i - before.len()]);
        }
    }
    assert forall|i: int| e <= i < whole.len() implies whitespace(#[trigger] whole[i]) by {
        if i < before.len() + contents.len() {
            assert(whole[i] == contents[i - before.len()]);
        } else {
            assert(whole[i] == after[i - before.len() - contents.len()]);
        }
    }
    assert(trimmed(whole, part));
}

} // verus!
