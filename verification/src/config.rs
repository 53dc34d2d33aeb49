//! The options that the collector runs with, and their defaults.

use crate::client::default_retryable_statuses;
use crate::text::{parse_u64, parse_u64_spec};
use vstd::prelude::*;
use vstd::string::*;

verus! {

/// The number of addresses queried at once unless the options say
/// otherwise.
pub const DEFAULT_BATCH_SIZE: usize = 3;

/// The number of times a throttled address is tried again in one cycle
/// unless the options say otherwise.
pub const DEFAULT_MAX_TRIES: u32 = 3;

/// The pause, in milliseconds, before the registry is read again after it
/// was found empty.
pub const IDLE_INTERVAL_MS: u64 = 1000;

/// The options of one run. The batch size is never zero.
#[derive(Debug)]
pub struct Config {
    broker_host: String,
    store_url: String,
    api_url: String,
    batch_size: usize,
    max_tries: u32,
    retryable_statuses: Vec<u16>,
}

/// The mathematical value of a [`Config`].
pub struct ConfigView {
    pub broker_host: Seq<char>,
    pub store_url: Seq<char>,
    pub api_url: Seq<char>,
    pub batch_size: usize,
    pub max_tries: u32,
    pub retryable_statuses: Seq<u16>,
}

impl View for Config {
    type V = ConfigView;

    closed spec fn view(&self) -> ConfigView {
        ConfigView {
            broker_host: self.broker_host@,
            store_url: self.store_url@,
            api_url: self.api_url@,
            batch_size: self.batch_size,
            max_tries: self.max_tries,
            retryable_statuses: self.retryable_statuses@,
        }
    }
}

/// The options that hold when nothing is set.
pub open spec fn default_options() -> ConfigView {
    ConfigView {
        broker_host: "localhost"@,
        store_url: "redis://127.0.0.1:6381/"@,
        api_url: "https://apilist.tronscanapi.com/api/token_trc20/transfers"@,
        batch_size: DEFAULT_BATCH_SIZE,
        max_tries: DEFAULT_MAX_TRIES,
        retryable_statuses: default_retryable_statuses(),
    }
}

/// The text of an option, or the default where it is not set.
pub open spec fn text_or(option: Option<Seq<char>>, default: Seq<char>) -> Seq<char> {
    match option {
        Some(text) => text,
        None => default,
    }
}

/// The batch size that an option's bytes spell: a positive integer that
/// fits `usize`. Anything else leaves the default.
pub open spec fn batch_size_of(option: Option<Seq<u8>>) -> usize {
    match option {
        Some(bytes) => match parse_u64_spec(bytes) {
            Some(n) => if 1 <= n <= usize::MAX {
                n as usize
            } else {
                DEFAULT_BATCH_SIZE
            },
            None => DEFAULT_BATCH_SIZE,
        },
        None => DEFAULT_BATCH_SIZE,
    }
}

/// The number of retries that an option's bytes spell: an integer that
/// fits `u32`. Anything else leaves the default.
pub open spec fn max_tries_of(option: Option<Seq<u8>>) -> u32 {
    match option {
        Some(bytes) => match parse_u64_spec(bytes) {
            Some(n) => if n <= u32::MAX {
                n as u32
            } else {
                DEFAULT_MAX_TRIES
            },
            None => DEFAULT_MAX_TRIES,
        },
        None => DEFAULT_MAX_TRIES,
    }
}

/// The characters of an optional text.
pub open spec fn option_text(option: Option<String>) -> Option<Seq<char>> {
    match option {
        Some(text) => Some(text@),
        None => None,
    }
}

/// The bytes of an optional text, in UTF-8.
pub open spec fn option_bytes(option: Option<String>) -> Option<Seq<u8>> {
    match option {
        Some(text) => Some(vstd::utf8::encode_utf8(text@)),
        None => None,
    }
}

impl Config {
    /// A batch holds one wallet at least.
    #[verifier::type_invariant]
    spec fn batch_size_is_positive(&self) -> bool {
        self.batch_size >= 1
    }

    /// The options that hold when nothing is set.
    pub fn defaults() -> (r: Config)
        ensures
            r@ == default_options(),
    {
        let mut retryable_statuses: Vec<u16> = Vec::new();
        retryable_statuses.push(403);
        retryable_statuses.push(408);
        retryable_statuses.push(504);
        assert(retryable_statuses@ =~= default_retryable_statuses());
        Config {
            broker_host: String::from_str("localhost"),
            store_url: String::from_str("redis://127.0.0.1:6381/"),
            api_url: String::from_str("https://apilist.tronscanapi.com/api/token_trc20/transfers"),
            batch_size: DEFAULT_BATCH_SIZE,
            max_tries: DEFAULT_MAX_TRIES,
            retryable_statuses,
        }
    }

    /// The options of a run: each one as it was set, and the default where
    /// it was not. A batch size or a number of retries that cannot be read
    /// leaves the default.
    pub fn from_options(
        broker_host: Option<String>,
        store_url: Option<String>,
        api_url: Option<String>,
        batch_size: Option<String>,
        max_tries: Option<String>,
    ) -> (r: Config)
        ensures
            r@.broker_host == text_or(option_text(broker_host), default_options().broker_host),
            r@.store_url == text_or(option_text(store_url), default_options().store_url),
            r@.api_url == text_or(option_text(api_url), default_options().api_url),
            r@.batch_size == batch_size_of(option_bytes(batch_size)),
            r@.max_tries == max_tries_of(option_bytes(max_tries)),
            r@.retryable_statuses == default_retryable_statuses(),
    {
        let d = Config::defaults();
        let size: usize = match &batch_size {
            Some(text) => match parse_u64(text.as_str().as_bytes()) {
                Some(n) => if 1 <= n && n <= usize::MAX as u64 {
                    n as usize
                } else {
                    DEFAULT_BATCH_SIZE
                },
                None => DEFAULT_BATCH_SIZE,
            },
            None => DEFAULT_BATCH_SIZE,
        };
        let tries: u32 = match &max_tries {
            Some(text) => match parse_u64(text.as_str().as_bytes()) {
                Some(n) => if n <= u32::MAX as u64 {
                    n as u32
                } else {
                    DEFAULT_MAX_TRIES
                },
                None => DEFAULT_MAX_TRIES,
            },
            None => DEFAULT_MAX_TRIES,
        };
        Config {
            broker_host: match broker_host {
                Some(text) => text,
                None => d.broker_host,
            },
            store_url: match store_url {
                Some(text) => text,
                None => d.store_url,
            },
            api_url: match api_url {
                Some(text) => text,
                None => d.api_url,
            },
            batch_size: size,
            max_tries: tries,
            retryable_statuses: d.retryable_statuses,
        }
    }

    /// The same options with another list of status codes on which a
    /// query is tried again.
    pub fn with_retryable_statuses(self, statuses: Vec<u16>) -> (r: Config)
        ensures
            r@ == (ConfigView { retryable_statuses: statuses@, ..self@ }),
    {
        proof {
            use_type_invariant(&self);
        }
        Config {
            broker_host: self.broker_host,
            store_url: self.store_url,
            api_url: self.api_url,
            batch_size: self.batch_size,
            max_tries: self.max_tries,
            retryable_statuses: statuses,
        }
    }

    /// The host of the message broker.
    pub fn broker_host(&self) -> (r: &String)
        ensures
            r@ == self@.broker_host,
    {
        &self.broker_host
    }

    /// The address of the key-value store.
    pub fn store_url(&self) -> (r: &String)
        ensures
            r@ == self@.store_url,
    {
        &self.store_url
    }

    /// The base address of the upstream API.
    pub fn api_url(&self) -> (r: &String)
        ensures
            r@ == self@.api_url,
    {
        &self.api_url
    }

    /// The number of addresses queried at once.
    pub fn batch_size(&self) -> (r: usize)
        ensures
            r == self@.batch_size,
            r >= 1,
    {
        proof {
            use_type_invariant(self);
        }
        self.batch_size
    }

    /// The number of times a throttled address is tried again in one
    /// cycle.
    pub fn max_tries(&self) -> (r: u32)
        ensures
            r == self@.max_tries,
    {
        self.max_tries
    }

    /// The status codes on which a query is tried again.
    pub fn retryable_statuses(&self) -> (r: &Vec<u16>)
        ensures
            r@ == self@.retryable_statuses,
    {
        &self.retryable_statuses
    }
}

} // verus!
