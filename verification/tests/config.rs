use openstar_linux_worker::backend::BackendChoice;
use openstar_linux_worker::config::{
    directory_created, new_identity, read_again, read_identity, store_attempted, stored_read,
    Config, ConfigError, Identity, StoreAttempt, StoredRead, DEFAULT_BATCH_SIZE,
    DEFAULT_CONCURRENCY, DEFAULT_MAX_BACKOFF_MS, DEFAULT_POLL_INTERVAL_MS,
    DEFAULT_REQUEST_TIMEOUT_SECS,
};

fn config() -> Config {
    Config {
        coordinator_url: "http://localhost/".to_owned(),
        node_id: None,
        work_concurrency: 1,
        work_batch_size: 1,
        cpu_threads: Some(1),
        compute_backend: BackendChoice::Cpu,
        poll_interval_ms: 1,
        max_backoff_ms: 2,
        request_timeout_secs: 1,
    }
}

/// A state directory that holds at most one file.
struct State {
    stored: Option<String>,
}

impl State {
    fn identity(&mut self, config: &Config) -> Result<u128, String> {
        let mut step = config.node_identity();
        loop {
            step = match step {
                Identity::Known(id) => return Ok(id),
                Identity::Failed(reason) => return Err(reason),
                Identity::ReadStored => stored_read(match &self.stored {
                    Some(contents) => StoredRead::Contents(contents.clone()),
                    None => StoredRead::NotFound,
                }),
                Identity::CreateDirectory => directory_created(Ok(())),
                Identity::Store(fresh) => {
                    self.stored = Some(fresh.contents);
                    store_attempted(fresh.id, StoreAttempt::Stored)
                }
                Identity::ReadAgain => read_again(self.stored.clone().ok_or_else(String::new)),
            };
        }
    }
}

#[test]
fn generated_identity_is_stable() {
    let config = config();
    let mut state = State { stored: None };
    assert_eq!(state.identity(&config).unwrap(), state.identity(&config).unwrap());
}

#[test]
fn generated_identities_are_random_and_version_four() {
    let (mut one, mut other) = (State { stored: None }, State { stored: None });
    let (a, b) = (one.identity(&config()).unwrap(), other.identity(&config()).unwrap());
    assert_ne!(a, b);
    let text = one.stored.unwrap();
    assert_eq!(text.len(), 37);
    assert!(text.ends_with('\n'));
    assert_eq!(&text[14..15], "4");
    assert!(["8", "9", "a", "b"].contains(&&text[19..20]));
    assert_eq!(uuid::Uuid::from_u128(a).get_version_num(), 4);
}

#[test]
fn a_configured_identity_is_taken() {
    let mut config = config();
    config.node_id = Some(7);
    assert_eq!(State { stored: None }.identity(&config), Ok(7));
}

#[test]
fn an_identity_is_stored_in_hyphenated_form() {
    let fresh = new_identity(0x00000000_0000_4000_8000_000000000001);
    assert_eq!(fresh.contents, "00000000-0000-4000-8000-000000000001\n");
    let other = new_identity(0x0123_4567_89ab_cdef_0123_4567_89ab_cdef);
    assert_eq!(other.contents, "01234567-89ab-cdef-0123-456789abcdef\n");
    assert!(matches!(
        read_identity(&other.contents),
        Identity::Known(0x0123_4567_89ab_cdef_0123_4567_89ab_cdef)
    ));
}

#[test]
fn whitespace_around_a_stored_identity_is_ignored() {
    for text in [
        " \t00000000-0000-4000-8000-000000000001\r\n",
        "00000000-0000-4000-8000-000000000001",
        "\u{3000}00000000-0000-4000-8000-000000000001\u{a0}",
    ] {
        assert!(matches!(
            read_identity(text),
            Identity::Known(0x00000000_0000_4000_8000_000000000001)
        ));
    }
    assert!(matches!(read_identity("not an identity"), Identity::Failed(_)));
    assert!(matches!(read_identity(" \n"), Identity::Failed(_)));
}

#[test]
fn failures_on_the_way_to_an_identity_are_final() {
    let failed = |identity: Identity| match identity {
        Identity::Failed(reason) => reason,
        _ => panic!(),
    };
    assert_eq!(failed(stored_read(StoredRead::Failed("denied".to_owned()))), "denied");
    assert_eq!(failed(directory_created(Err("full".to_owned()))), "full");
    assert_eq!(failed(store_attempted(1, StoreAttempt::Failed("read-only".to_owned()))), "read-only");
    assert_eq!(failed(read_again(Err("gone".to_owned()))), "gone");
    assert!(matches!(store_attempted(1, StoreAttempt::AlreadyStored), Identity::ReadAgain));
    assert!(matches!(
        read_again(Ok("00000000-0000-4000-8000-000000000001\n".to_owned())),
        Identity::Known(_)
    ));
}

#[test]
fn settings_out_of_range_are_named() {
    assert!(config().validate().is_ok());
    assert_eq!(config().timeout(), 1);
    let fault = |change: fn(&mut Config)| {
        let mut config = config();
        change(&mut config);
        config.validate().unwrap_err()
    };
    assert_eq!(fault(|c| c.work_concurrency = 0), ConfigError::NoConcurrency);
    assert_eq!(
        fault(|c| c.work_concurrency = 0x1_0000_0000),
        ConfigError::ConcurrencyTooLarge
    );
    assert_eq!(fault(|c| c.work_batch_size = 0), ConfigError::BatchSizeOutOfRange);
    assert_eq!(fault(|c| c.work_batch_size = 129), ConfigError::BatchSizeOutOfRange);
    assert_eq!(fault(|c| c.cpu_threads = Some(0)), ConfigError::NoThreads);
    assert_eq!(fault(|c| c.poll_interval_ms = 0), ConfigError::NoPollInterval);
    assert_eq!(fault(|c| c.max_backoff_ms = 0), ConfigError::NoBackoff);
    assert_eq!(fault(|c| c.request_timeout_secs = 0), ConfigError::NoTimeout);
    let mut largest = config();
    largest.work_concurrency = 0xffff_ffff;
    largest.work_batch_size = 128;
    largest.cpu_threads = None;
    assert!(largest.validate().is_ok());
}

#[test]
fn config_errors_speak_plainly() {
    assert_eq!(ConfigError::NoConcurrency.message(), "work concurrency must be positive");
    assert_eq!(ConfigError::ConcurrencyTooLarge.message(), "work concurrency is too large");
    assert_eq!(
        ConfigError::BatchSizeOutOfRange.message(),
        "work batch size must be between 1 and 128"
    );
    assert_eq!(ConfigError::NoThreads.message(), "CPU threads must be positive");
    assert_eq!(ConfigError::NoPollInterval.message(), "poll interval must be positive");
    assert_eq!(ConfigError::NoBackoff.message(), "maximum backoff must be positive");
    assert_eq!(ConfigError::NoTimeout.message(), "request timeout must be positive");
}

#[test]
fn defaults_are_in_range() {
    let mut config = config();
    config.work_concurrency = DEFAULT_CONCURRENCY;
    config.work_batch_size = DEFAULT_BATCH_SIZE;
    config.cpu_threads = None;
    config.poll_interval_ms = DEFAULT_POLL_INTERVAL_MS;
    config.max_backoff_ms = DEFAULT_MAX_BACKOFF_MS;
    config.request_timeout_secs = DEFAULT_REQUEST_TIMEOUT_SECS;
    assert!(config.validate().is_ok());
    assert_eq!((config.work_concurrency, config.work_batch_size), (1, 1));
    assert_eq!((config.poll_interval_ms, config.max_backoff_ms), (2_000, 30_000));
    assert_eq!(config.timeout(), 30);
}
