//! Service configuration: the values, their defaults, and the parsing
//! rules, computed from whatever the environment handed over.
//!
//! Reading the environment itself happens outside; this module decides
//! what each raw value means: which fields are required, which defaults
//! apply, and how numeric fields parse.

use vstd::prelude::*;
use vstd::string::StringSliceAdditionalSpecFns;

verus! {

/// The UTF-8 bytes of a text value.
pub open spec fn bytes_of(t: Seq<char>) -> Seq<u8> {
    vstd::utf8::encode_utf8(t)
}

/// The digits of a decimal rendering, most significant first.
pub open spec fn dec_val(bs: Seq<u8>) -> int
    decreases bs.len(),
{
    if bs.len() == 0 {
        0
    } else {
        dec_val(bs.drop_last()) * 10 + (bs.last() - 48)
    }
}

pub open spec fn all_digits(bs: Seq<u8>) -> bool {
    forall|i: int| 0 <= i < bs.len() ==> 48 <= #[trigger] bs[i] <= 57
}

/// What a byte string parses to as an unsigned 64-bit decimal: its value,
/// when it is one or more digits and in range; nothing otherwise.
pub open spec fn dec_u64_of(bs: Seq<u8>) -> Option<u64> {
    if bs.len() > 0 && all_digits(bs) && dec_val(bs) <= u64::MAX {
        Some(dec_val(bs) as u64)
    } else {
        None
    }
}

pub proof fn lemma_dec_val_nonneg(bs: Seq<u8>)
    requires
        all_digits(bs),
    ensures
        dec_val(bs) >= 0,
    decreases bs.len(),
{
    if bs.len() > 0 {
        assert(all_digits(bs.drop_last()));
        lemma_dec_val_nonneg(bs.drop_last());
    }
}

/// A longer digit string never has a smaller value than its prefix.
pub proof fn lemma_dec_val_prefix(bs: Seq<u8>, i: int)
    requires
        all_digits(bs),
        0 <= i <= bs.len(),
    ensures
        dec_val(bs) >= dec_val(bs.take(i)),
    decreases bs.len() - i,
{
    if i < bs.len() {
        lemma_dec_val_prefix(bs, i + 1);
        assert(bs.take(i + 1).drop_last() =~= bs.take(i));
        assert(all_digits(bs.take(i)));
        lemma_dec_val_nonneg(bs.take(i));
        assert(dec_val(bs.take(i + 1)) == dec_val(bs.take(i)) * 10 + (bs.take(i + 1).last()
            - 48));
    } else {
        assert(bs.take(i) =~= bs);
    }
}

/// Parse a string of decimal digits as a `u64`; any other shape, or a
/// value out of range, is rejected.
#[verifier::loop_isolation(false)]
pub fn parse_u64_dec(s: &str) -> (r: Option<u64>)
    ensures
        r == dec_u64_of(s.spec_bytes()),
{
    let bs = s.as_bytes();
    let n = bs.len();
    if n == 0 {
        return None;
    }
    let mut acc: u64 = 0;
    let mut i: usize = 0;
    proof {
        assert(bs@.take(0) =~= Seq::<u8>::empty());
    }
    while i < n
        invariant
            i <= n,
            all_digits(bs@.take(i as int)),
            acc == dec_val(bs@.take(i as int)),
        decreases n - i,
    {
        let b = bs[i];
        if b < 48 || b > 57 {
            proof {
                assert(!all_digits(bs@));
            }
            return None;
        }
        let d = (b - 48) as u64;
        proof {
            assert(bs@.take(i + 1 as int).drop_last() =~= bs@.take(i as int));
            assert(bs@.take(i + 1 as int).last() == bs@[i as int]);
            assert(all_digits(bs@.take(i + 1 as int)));
        }
        let next = match acc.checked_mul(10) {
            Some(x) => x.checked_add(d),
            None => None,
        };
        match next {
            Some(x) => {
                acc = x;
            },
            None => {
                proof {
                    assert(dec_val(bs@.take(i + 1 as int)) > u64::MAX);
                    if all_digits(bs@) {
                        lemma_dec_val_prefix(bs@, i + 1);
                    }
                }
                return None;
            },
        }
        i = i + 1;
    }
    proof {
        assert(bs@.take(n as int) =~= bs@);
    }
    Some(acc)
}

/// Why a set of raw configuration values was rejected.
#[derive(Clone, Copy, Debug, PartialEq, Eq, Structural)]
pub enum ConfigError {
    MissingContractId,
    InvalidApiPort,
    InvalidPollInterval,
    InvalidEventsPerPage,
    InvalidStartLedger,
}

pub open spec fn config_error_text(e: ConfigError) -> Seq<char> {
    match e {
        ConfigError::MissingContractId => "CONTRACT_ID environment variable is required"@,
        ConfigError::InvalidApiPort => "Invalid API_PORT"@,
        ConfigError::InvalidPollInterval => "Invalid POLL_INTERVAL_SECS"@,
        ConfigError::InvalidEventsPerPage => "Invalid EVENTS_PER_PAGE"@,
        ConfigError::InvalidStartLedger => "Invalid START_LEDGER"@,
    }
}

impl ConfigError {
    /// The message each rejection surfaces with.
    pub fn message(&self) -> (r: &'static str)
        ensures
            r@ == config_error_text(*self),
    {
        match self {
            ConfigError::MissingContractId => "CONTRACT_ID environment variable is required",
            ConfigError::InvalidApiPort => "Invalid API_PORT",
            ConfigError::InvalidPollInterval => "Invalid POLL_INTERVAL_SECS",
            ConfigError::InvalidEventsPerPage => "Invalid EVENTS_PER_PAGE",
            ConfigError::InvalidStartLedger => "Invalid START_LEDGER",
        }
    }
}

/// The service's configuration values.
#[derive(Debug, PartialEq, Eq)]
pub struct Config {
    /// RPC endpoint to poll for events.
    pub rpc_url: String,
    /// The protocol's contract address; required.
    pub contract_id: String,
    /// Where the event database lives.
    pub database_url: String,
    /// Port for the query API server.
    pub api_port: u16,
    /// How often, in seconds, to poll for new events.
    pub poll_interval_secs: u64,
    /// Most events to fetch per request.
    pub events_per_page: u32,
    /// Ledger to start from when no cursor was saved.
    pub start_ledger: u32,
}

impl Clone for Config {
    fn clone(&self) -> (r: Self)
        ensures
            r.rpc_url@ == self.rpc_url@,
            r.contract_id@ == self.contract_id@,
            r.database_url@ == self.database_url@,
            r.api_port == self.api_port,
            r.poll_interval_secs == self.poll_interval_secs,
            r.events_per_page == self.events_per_page,
            r.start_ledger == self.start_ledger,
    {
        Config {
            rpc_url: self.rpc_url.clone(),
            contract_id: self.contract_id.clone(),
            database_url: self.database_url.clone(),
            api_port: self.api_port,
            poll_interval_secs: self.poll_interval_secs,
            events_per_page: self.events_per_page,
            start_ledger: self.start_ledger,
        }
    }
}

/// What a raw numeric field parses to: the given string as a decimal in
/// `0..=max`, or the default when the field was absent.
pub open spec fn field_u64(o: Option<String>, default_val: u64, max: int) -> Option<u64> {
    match o {
        Some(s) => match dec_u64_of(bytes_of(s@)) {
            Some(v) => if v <= max {
                Some(v)
            } else {
                None
            },
            None => None,
        },
        None => Some(default_val),
    }
}

fn parse_field(o: &Option<String>, default_val: u64, max: u64) -> (r: Option<u64>)
    ensures
        r == field_u64(*o, default_val, max as int),
{
    match o {
        Some(s) => match parse_u64_dec(s.as_str()) {
            Some(v) => if v <= max {
                Some(v)
            } else {
                None
            },
            None => None,
        },
        None => Some(default_val),
    }
}

impl Config {
    /// Build the configuration from raw environment values, applying the
    /// defaults and parsing rules; each raw value is `None` when the
    /// corresponding variable was not set.
    ///
    /// The contract address is required; every other field has a default.
    /// Numeric fields must be decimal digits in range for their type.
    pub fn from_vars(
        rpc_url: Option<String>,
        contract_id: Option<String>,
        database_url: Option<String>,
        api_port: Option<String>,
        poll_interval_secs: Option<String>,
        events_per_page: Option<String>,
        start_ledger: Option<String>,
    ) -> (r: Result<Config, ConfigError>)
        ensures
            contract_id is None ==> r == Err::<Config, ConfigError>(
                ConfigError::MissingContractId,
            ),
            contract_id is Some && field_u64(api_port, 3001, u16::MAX as int) is None ==> r
                == Err::<Config, ConfigError>(ConfigError::InvalidApiPort),
            contract_id is Some && field_u64(api_port, 3001, u16::MAX as int) is Some
                && field_u64(poll_interval_secs, 5, u64::MAX as int) is None ==> r == Err::<
                Config,
                ConfigError,
            >(ConfigError::InvalidPollInterval),
            contract_id is Some && field_u64(api_port, 3001, u16::MAX as int) is Some
                && field_u64(poll_interval_secs, 5, u64::MAX as int) is Some && field_u64(
                events_per_page,
                100,
                u32::MAX as int,
            ) is None ==> r == Err::<Config, ConfigError>(ConfigError::InvalidEventsPerPage),
            contract_id is Some && field_u64(api_port, 3001, u16::MAX as int) is Some
                && field_u64(poll_interval_secs, 5, u64::MAX as int) is Some && field_u64(
                events_per_page,
                100,
                u32::MAX as int,
            ) is Some && field_u64(start_ledger, 0, u32::MAX as int) is None ==> r == Err::<
                Config,
                ConfigError,
            >(ConfigError::InvalidStartLedger),
            r matches Ok(c) ==> {
                &&& contract_id matches Some(cid) && c.contract_id@ == cid@
                &&& c.rpc_url@ == (match rpc_url {
                    Some(u) => u@,
                    None => "https://soroban-testnet.stellar.org"@,
                })
                &&& c.database_url@ == (match database_url {
                    Some(u) => u@,
                    None => "sqlite:./pifp_events.db"@,
                })
                &&& Some(c.api_port as u64) == field_u64(api_port, 3001, u16::MAX as int)
                &&& Some(c.poll_interval_secs) == field_u64(
                    poll_interval_secs,
                    5,
                    u64::MAX as int,
                )
                &&& Some(c.events_per_page as u64) == field_u64(
                    events_per_page,
                    100,
                    u32::MAX as int,
                )
                &&& Some(c.start_ledger as u64) == field_u64(start_ledger, 0, u32::MAX as int)
            },
            r is Ok <==> (contract_id is Some && field_u64(api_port, 3001, u16::MAX as int)
                is Some && field_u64(poll_interval_secs, 5, u64::MAX as int) is Some
                && field_u64(events_per_page, 100, u32::MAX as int) is Some && field_u64(
                start_ledger,
                0,
                u32::MAX as int,
            ) is Some),
    {
        let cid = match contract_id {
            Some(c) => c,
            None => {
                return Err(ConfigError::MissingContractId);
            },
        };
        let port = match parse_field(&api_port, 3001, 65535) {
            Some(v) => v as u16,
            None => {
                return Err(ConfigError::InvalidApiPort);
            },
        };
        let poll = match parse_field(&poll_interval_secs, 5, u64::MAX) {
            Some(v) => v,
            None => {
                return Err(ConfigError::InvalidPollInterval);
            },
        };
        let per_page = match parse_field(&events_per_page, 100, 4294967295) {
            Some(v) => v as u32,
            None => {
                return Err(ConfigError::InvalidEventsPerPage);
            },
        };
        let start = match parse_field(&start_ledger, 0, 4294967295) {
            Some(v) => v as u32,
            None => {
                return Err(ConfigError::InvalidStartLedger);
            },
        };
        let rpc = match rpc_url {
            Some(u) => u,
            None => "https://soroban-testnet.stellar.org".to_owned(),
        };
        let db = match database_url {
            Some(u) => u,
            None => "sqlite:./pifp_events.db".to_owned(),
        };
        Ok(
            Config {
                rpc_url: rpc,
                contract_id: cid,
                database_url: db,
                api_port: port,
                poll_interval_secs: poll,
                events_per_page: per_page,
                start_ledger: start,
            },
        )
    }
}

} // verus!
