//! The cranker's settings and the parsers for the values they are read from.
use vstd::prelude::*;
use std::time::Duration;
use crate::error::CrankerError;
use crate::text::{
    case_variants, chars_of, decimal, is_digit, is_space, lemma_case_variants_match,
    lemma_decimal_is_digits, lemma_decimal_round_trip, matches_ignoring_case, parse_u64,
    parse_u64_chars, same_ignoring_case, slice_chars, trim_chars, trim_end, trim_start, trimmed,
};

verus! {

/// The pool family whose crank cycle the cranker runs.
#[derive(Debug, Clone, Copy, PartialEq, Eq, Structural)]
pub enum PoolType {
    Sanctum,
    Native,
}

/// Where the last cranked epoch is kept.
#[derive(Debug, Clone, Copy, PartialEq, Eq, Structural)]
pub enum EpochStorageType {
    Memory,
    File,
}

/// The pool family that `s` names, in any mix of cases.
pub open spec fn pool_type_named(s: Seq<char>) -> Option<PoolType> {
    if same_ignoring_case(s, "sanctum"@) {
        Some(PoolType::Sanctum)
    } else if same_ignoring_case(s, "native"@) {
        Some(PoolType::Native)
    } else {
        None
    }
}

/// The storage backend that `s` names, in any mix of cases.
pub open spec fn storage_type_named(s: Seq<char>) -> Option<EpochStorageType> {
    if same_ignoring_case(s, "memory"@) {
        Some(EpochStorageType::Memory)
    } else if same_ignoring_case(s, "file"@) {
        Some(EpochStorageType::File)
    } else {
        None
    }
}

/// Seconds in one of the units a duration may end with.
pub open spec fn unit_seconds(c: char) -> Option<u64> {
    if c == 's' {
        Some(1)
    } else if c == 'm' {
        Some(60)
    } else if c == 'h' {
        Some(3600)
    } else if c == 'd' {
        Some(86400)
    } else {
        None
    }
}

/// The length in seconds of a duration written as a number followed by one
/// of the units `s`, `m`, `h`, `d`, with whitespace around it ignored; none
/// when the text is of another form or the length does not fit in 64 bits.
pub open spec fn duration_seconds(s: Seq<char>) -> Option<u64> {
    let t = trimmed(s);
    if t.len() == 0 {
        None
    } else {
        match (parse_u64(t.drop_last()), unit_seconds(t.last())) {
            (Some(n), Some(k)) => if n * k <= u64::MAX {
                Some((n * k) as u64)
            } else {
                None
            },
            _ => None,
        }
    }
}

/// What `Duration::from_secs` builds from a number of seconds.
pub uninterp spec fn duration_of_secs(secs: u64) -> Duration;

/// Relies on `Duration::from_secs`: a duration of whole seconds.
#[verifier::external_body]
fn duration_from_secs(secs: u64) -> (r: Duration)
    ensures
        r == duration_of_secs(secs),
{
    Duration::from_secs(secs)
}

impl PoolType {
    pub fn from_str(s: &str) -> (r: Result<PoolType, CrankerError>)
        ensures
            match r {
                Ok(t) => pool_type_named(s@) == Some(t),
                Err(e) => pool_type_named(s@) is None && e is InvalidPoolType,
            },
    {
        if matches_ignoring_case(s, "sanctum") {
            Ok(PoolType::Sanctum)
        } else if matches_ignoring_case(s, "native") {
            Ok(PoolType::Native)
        } else {
            let mut msg = String::from_str("Invalid pool type '");
            msg.append(s);
            msg.append("'. Expected 'sanctum' or 'native'");
            Err(CrankerError::InvalidPoolType(msg))
        }
    }
}

impl EpochStorageType {
    pub fn from_str(s: &str) -> (r: Result<EpochStorageType, CrankerError>)
        ensures
            match r {
                Ok(t) => storage_type_named(s@) == Some(t),
                Err(e) => storage_type_named(s@) is None && e is Config,
            },
    {
        if matches_ignoring_case(s, "memory") {
            Ok(EpochStorageType::Memory)
        } else if matches_ignoring_case(s, "file") {
            Ok(EpochStorageType::File)
        } else {
            let mut msg = String::from_str("Invalid epoch storage type '");
            msg.append(s);
            msg.append("'. Expected 'memory' or 'file'");
            Err(CrankerError::Config(msg))
        }
    }
}

/// The number of seconds that the duration text `s` stands for.
pub fn parse_duration_secs(s: &str) -> (r: Result<u64, CrankerError>)
    ensures
        match r {
            Ok(n) => duration_seconds(s@) == Some(n),
            Err(e) => duration_seconds(s@) is None && e is Parse,
        },
{
    let t = trim_chars(s);
    if t.len() == 0 {
        return Err(CrankerError::Parse(String::from_str("Empty duration string")));
    }
    let last = t.len() - 1;
    let digits = slice_chars(&t, 0, last);
    assert(digits@ =~= t@.drop_last());
    let number = match parse_u64_chars(&digits) {
        Some(n) => n,
        None => {
            let mut msg = String::from_str("Invalid duration number in '");
            msg.append(s);
            msg.append("'");
            return Err(CrankerError::Parse(msg));
        },
    };
    let unit = t[last];
    let per_unit: u64 = if unit == 's' {
        1
    } else if unit == 'm' {
        60
    } else if unit == 'h' {
        3600
    } else if unit == 'd' {
        86400
    } else {
        let mut msg = String::from_str("Invalid duration unit in '");
        msg.append(s);
        msg.append("'. Use 's', 'm', 'h', or 'd'");
        return Err(CrankerError::Parse(msg));
    };
    match number.checked_mul(per_unit) {
        Some(secs) => Ok(secs),
        None => {
            let mut msg = String::from_str("Duration too long: '");
            msg.append(s);
            msg.append("'");
            Err(CrankerError::Parse(msg))
        },
    }
}

/// The poll interval that the duration text `s` stands for.
pub fn parse_duration(s: &str) -> (r: Result<Duration, CrankerError>)
    ensures
        match r {
            Ok(d) => exists|n: u64| duration_seconds(s@) == Some(n) && d == duration_of_secs(n),
            Err(e) => duration_seconds(s@) is None && e is Parse,
        },
{
    match parse_duration_secs(s) {
        Ok(n) => Ok(duration_from_secs(n)),
        Err(e) => Err(e),
    }
}

/// The cranker's settings, fixed for the life of the process.
pub struct CrankerConfig {
    pub pool_type: PoolType,
    pub rpc_url: String,
    pub admin_private_key: String,
    pub pool_reserve_address: String,
    /// The pool account; the reserve account stands in for it where absent.
    pub pool_address: Option<String>,
    pub crank_amount: u64,
    pub epoch_poll_interval: Duration,
    pub epoch_storage_type: EpochStorageType,
    pub epoch_state_file: String,
}

/// The settings as they were found in the environment, each absent where it
/// is not set.
pub struct ConfigValues {
    pub pool_type: Option<String>,
    pub rpc_url: Option<String>,
    pub admin_private_key: Option<String>,
    pub pool_reserve_address: Option<String>,
    pub pool_address: Option<String>,
    pub crank_amount: Option<String>,
    pub epoch_poll_interval: Option<String>,
    pub epoch_storage_type: Option<String>,
    pub epoch_state_file: Option<String>,
}

/// A setting's text, or its default where it is not set.
pub open spec fn setting_or(v: Option<String>, default: Seq<char>) -> Seq<char> {
    match v {
        Some(s) => s@,
        None => default,
    }
}

pub open spec fn default_poll_interval() -> Seq<char> {
    "5m"@
}

pub open spec fn default_storage_type() -> Seq<char> {
    "memory"@
}

pub open spec fn default_state_file() -> Seq<char> {
    ".epoch_state"@
}

/// The pool family is set but names no known family.
pub open spec fn pool_name_bad(v: ConfigValues) -> bool {
    v.pool_type is Some && pool_type_named(v.pool_type->Some_0@) is None
}

/// The settings before the poll interval are all present and well formed;
/// the crank amount is positive.
pub open spec fn leading_settings_ok(v: ConfigValues) -> bool {
    &&& v.pool_type is Some
    &&& pool_type_named(v.pool_type->Some_0@) is Some
    &&& v.rpc_url is Some
    &&& v.admin_private_key is Some
    &&& v.pool_reserve_address is Some
    &&& v.crank_amount is Some
    &&& parse_u64(v.crank_amount->Some_0@) is Some
    &&& parse_u64(v.crank_amount->Some_0@)->Some_0 > 0
}

/// The poll interval that the settings give, in seconds, where it is well
/// formed and positive.
pub open spec fn interval_ok(v: ConfigValues) -> bool {
    match duration_seconds(setting_or(v.epoch_poll_interval, default_poll_interval())) {
        Some(n) => n > 0,
        None => false,
    }
}

/// The first setting at fault is the poll interval: malformed, or zero.
pub open spec fn interval_bad(v: ConfigValues) -> bool {
    leading_settings_ok(v) && !interval_ok(v)
}

/// Every required setting is present and each one is well formed.
pub open spec fn config_valid(v: ConfigValues) -> bool {
    &&& leading_settings_ok(v)
    &&& interval_ok(v)
    &&& storage_type_named(setting_or(v.epoch_storage_type, default_storage_type())) is Some
}

/// The configuration that valid settings give.
pub open spec fn config_matches(c: CrankerConfig, v: ConfigValues) -> bool {
    &&& Some(c.pool_type) == pool_type_named(v.pool_type->Some_0@)
    &&& c.rpc_url@ == v.rpc_url->Some_0@
    &&& c.admin_private_key@ == v.admin_private_key->Some_0@
    &&& c.pool_reserve_address@ == v.pool_reserve_address->Some_0@
    &&& match v.pool_address {
        Some(p) => c.pool_address is Some && c.pool_address->Some_0@ == p@,
        None => c.pool_address is None,
    }
    &&& Some(c.crank_amount) == parse_u64(v.crank_amount->Some_0@)
    &&& exists|n: u64|
        duration_seconds(setting_or(v.epoch_poll_interval, default_poll_interval())) == Some(n)
            && c.epoch_poll_interval == duration_of_secs(n)
    &&& Some(c.epoch_storage_type) == storage_type_named(
        setting_or(v.epoch_storage_type, default_storage_type()),
    )
    &&& c.epoch_state_file@ == setting_or(v.epoch_state_file, default_state_file())
}

/// A setting's text, or the default where it is not set.
fn text_or(v: Option<String>, default: &str) -> (r: String)
    ensures
        r@ == setting_or(v, default@),
{
    match v {
        Some(s) => s,
        None => String::from_str(default),
    }
}

/// A required setting, or the error that names it as missing.
fn required(v: Option<String>, name: &str) -> (r: Result<String, CrankerError>)
    ensures
        match r {
            Ok(s) => v is Some && s@ == v->Some_0@,
            Err(e) => v is None && e is Config,
        },
{
    match v {
        Some(s) => Ok(s),
        None => {
            let mut msg = String::from_str(name);
            msg.append(" not set");
            Err(CrankerError::Config(msg))
        },
    }
}

impl CrankerConfig {
    /// Checks the settings found in the environment and gives the
    /// configuration they describe; unset optional settings take their
    /// defaults (a poll every `5m`, memory storage, `.epoch_state`). The
    /// crank amount and the poll interval must be positive: a zero amount is
    /// a configuration error, a zero interval a parse error.
    pub fn from_values(v: ConfigValues) -> (r: Result<CrankerConfig, CrankerError>)
        ensures
            match r {
                Ok(c) => config_valid(v) && config_matches(c, v),
                Err(e) => !config_valid(v) && (e is InvalidPoolType <==> pool_name_bad(v)) && (
                e is Parse <==> interval_bad(v)) && (e is Config <==> !pool_name_bad(v)
                    && !interval_bad(v)),
            },
    {
        proof {
            reveal_strlit("5m");
            reveal_strlit("memory");
            reveal_strlit(".epoch_state");
        }
        let ghost v0 = v;
        let ConfigValues {
            pool_type,
            rpc_url,
            admin_private_key,
            pool_reserve_address,
            pool_address,
            crank_amount,
            epoch_poll_interval,
            epoch_storage_type,
            epoch_state_file,
        } = v;
        let pool_type_text = required(pool_type, "POOL_TYPE")?;
        let pool_type = PoolType::from_str(pool_type_text.as_str())?;
        let rpc_url = required(rpc_url, "RPC_URL")?;
        let admin_private_key = required(admin_private_key, "ADMIN_PRIVATE_KEY")?;
        let pool_reserve_address = required(pool_reserve_address, "POOL_RESERVE_ADDRESS")?;
        let crank_amount_text = required(crank_amount, "CRANK_AMOUNT")?;
        let amount_chars = chars_of(crank_amount_text.as_str());
        let crank_amount = match parse_u64_chars(&amount_chars) {
            Some(n) if n > 0 => n,
            _ => {
                let mut msg = String::from_str("Invalid CRANK_AMOUNT (a positive integer): ");
                msg.append(crank_amount_text.as_str());
                return Err(CrankerError::Config(msg));
            },
        };
        let interval_text = text_or(epoch_poll_interval, "5m");
        let interval_secs = parse_duration_secs(interval_text.as_str())?;
        if interval_secs == 0 {
            return Err(CrankerError::Parse(String::from_str("Poll interval must be positive")));
        }
        let epoch_poll_interval = duration_from_secs(interval_secs);
        let storage_text = text_or(epoch_storage_type, "memory");
        let epoch_storage_type = EpochStorageType::from_str(storage_text.as_str())?;
        let epoch_state_file = text_or(epoch_state_file, ".epoch_state");
        Ok(CrankerConfig {
            pool_type,
            rpc_url,
            admin_private_key,
            pool_reserve_address,
            pool_address,
            crank_amount,
            epoch_poll_interval,
            epoch_storage_type,
            epoch_state_file,
        })
    }
}

/// The names of the pool families and of the storage backends are read
/// without regard to letter case: texts that differ only in the case of
/// their letters name the same one, or both name none.
pub proof fn lemma_names_case_insensitive(s: Seq<char>, t: Seq<char>)
    requires
        case_variants(s, t),
    ensures
        pool_type_named(s) == pool_type_named(t),
        storage_type_named(s) == storage_type_named(t),
{
    reveal_strlit("sanctum");
    reveal_strlit("native");
    reveal_strlit("memory");
    reveal_strlit("file");
    lemma_case_variants_match(s, t, "sanctum"@);
    lemma_case_variants_match(s, t, "native"@);
    lemma_case_variants_match(s, t, "memory"@);
    lemma_case_variants_match(s, t, "file"@);
}

/// A number written in decimal and followed by one of the units `s`, `m`,
/// `h`, `d` reads as that number times the seconds in the unit, when the
/// product fits in 64 bits; followed by any other character it is refused,
/// and so is the empty text.
pub proof fn lemma_duration_text(n: u64, unit: char)
    ensures
        duration_seconds(Seq::<char>::empty()) is None,
        unit_seconds(unit) is None ==> duration_seconds(decimal(n as nat).push(unit)) is None,
        match unit_seconds(unit) {
            Some(k) => n * k <= u64::MAX ==> duration_seconds(decimal(n as nat).push(unit))
                == Some((n * k) as u64),
            None => true,
        },
{
    let d = decimal(n as nat);
    let s = d.push(unit);
    lemma_decimal_round_trip(n);
    lemma_decimal_is_digits(n as nat);
    assert(s[0] == d[0]);
    assert(trim_start(s) == s);
    assert(s.drop_last() =~= d);
    if is_space(unit) {
        assert(trim_end(d) == d);
        assert(trimmed(s) == d);
        assert(is_digit(d.last()));
    } else {
        assert(trimmed(s) == s);
    }
}

} // verus!
