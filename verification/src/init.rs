//! Configuration of NNG's thread pools, checked and converted into the parameters that NNG's
//! initialization reads.
use crate::nonzero::NonZeroUsize;
use crate::sys::{nng_err, nng_init_params, NNG_EBUSY, NNG_OK};
use crate::text::{decimal, push_decimal};
use vstd::prelude::*;
use vstd::string::StringExecFns;

verus! {

/// Thread limit configuration for NNG thread pools.
#[derive(Clone, Copy, Debug, PartialEq, Eq)]
pub enum ThreadLimit {
    /// No limit on thread count.
    Unlimited,
    /// Specific limit on thread count.
    Limit(NonZeroUsize),
}

/// Configuration for a NNG thread pool.
///
/// When `max` is [`ThreadLimit::Limit`], it must be greater than or equal to `num`;
/// [`init_params`] checks this and returns [`InitError::Invalid`] if violated.
#[derive(Clone, Copy, Debug)]
pub struct ThreadPoolConfig {
    /// Number of threads to create initially.
    pub num: NonZeroUsize,
    /// Maximum thread count. [`ThreadLimit::Unlimited`] removes the cap.
    pub max: ThreadLimit,
}

/// Configuration parameters for NNG library initialization.
///
/// All fields use `None` to indicate "use NNG's default value".
#[derive(Clone, Copy, Debug, Default)]
pub struct NngConfig {
    /// Task queue threads. `None` = use NNG defaults.
    pub task_threads: Option<ThreadPoolConfig>,
    /// Expiration threads. `None` = use NNG defaults.
    pub expire_threads: Option<ThreadPoolConfig>,
    /// Poller threads. `None` = use NNG defaults.
    pub poller_threads: Option<ThreadPoolConfig>,
    /// Number of resolver threads. `None` = use NNG default.
    pub num_resolver_threads: Option<NonZeroUsize>,
}

/// Error returned when initialization fails.
#[derive(Clone, Debug, PartialEq, Eq)]
pub enum InitError {
    /// Invalid configuration parameter.
    Invalid(String),
    /// NNG was already initialized with configuration parameters.
    AlreadyInitialized,
}

/// The message describing an initialization error.
pub open spec fn init_error_text(e: InitError) -> Seq<char> {
    match e {
        InitError::Invalid(msg) => "invalid config: "@ + msg@,
        InitError::AlreadyInitialized => "NNG already initialized"@,
    }
}

impl InitError {
    /// Returns the message describing this error.
    pub fn to_string(&self) -> (r: String)
        ensures
            r@ == init_error_text(*self),
    {
        match self {
            InitError::Invalid(msg) => {
                let mut r = String::from_str("invalid config: ");
                r.append(msg.as_str());
                proof {
                    reveal_strlit("invalid config: ");
                }
                r
            },
            InitError::AlreadyInitialized => {
                let r = String::from_str("NNG already initialized");
                proof {
                    reveal_strlit("NNG already initialized");
                }
                r
            },
        }
    }
}

/// Whether an initialization result agrees with a result whose error is a message: the same
/// value, or [`InitError::Invalid`] with the same message.
pub open spec fn init_result_is<T>(r: Result<T, InitError>, s: Result<T, Seq<char>>) -> bool {
    match (r, s) {
        (Ok(a), Ok(b)) => a == b,
        (Err(InitError::Invalid(m)), Err(t)) => m@ == t,
        _ => false,
    }
}

/// The largest value of an `i16`.
pub open spec fn i16_max() -> nat {
    0x7fff
}

/// The conversion of a non-zero count into an `i16`, or the message refusing it.
pub open spec fn nonzero_to_i16_spec(name: Seq<char>, n: nat) -> Result<i16, Seq<char>> {
    if n > i16_max() {
        Err(name + " value "@ + decimal(n) + " exceeds max "@ + decimal(i16_max()))
    } else {
        Ok(n as i16)
    }
}

/// The conversion of an optional count, zero standing for "default".
pub open spec fn to_i16_spec(name: Seq<char>, v: Option<NonZeroUsize>) -> Result<
    i16,
    Seq<char>,
> {
    match v {
        None => Ok(0),
        Some(n) => nonzero_to_i16_spec(name, n@ as nat),
    }
}

/// The conversion of a thread limit, `-1` standing for "unlimited".
pub open spec fn limit_to_i16_spec(name: Seq<char>, limit: ThreadLimit) -> Result<
    i16,
    Seq<char>,
> {
    match limit {
        ThreadLimit::Unlimited => Ok(-1i16),
        ThreadLimit::Limit(n) => nonzero_to_i16_spec(name, n@ as nat),
    }
}

/// The conversion of a pool's initial thread count, zero for an absent pool.
pub open spec fn pool_num_to_i16_spec(name: Seq<char>, pool: Option<ThreadPoolConfig>) -> Result<
    i16,
    Seq<char>,
> {
    match pool {
        None => Ok(0),
        Some(p) => nonzero_to_i16_spec(name, p.num@ as nat),
    }
}

/// The conversion of a pool's thread limit, zero for an absent pool.
pub open spec fn pool_max_to_i16_spec(name: Seq<char>, pool: Option<ThreadPoolConfig>) -> Result<
    i16,
    Seq<char>,
> {
    match pool {
        None => Ok(0),
        Some(p) => limit_to_i16_spec(name, p.max),
    }
}

/// The check that a pool's initial thread count does not exceed its limit.
pub open spec fn validate_pool_config_spec(name: Seq<char>, pool: ThreadPoolConfig) -> Result<
    (),
    Seq<char>,
> {
    match pool.max {
        ThreadLimit::Limit(max) => if pool.num@ > max@ {
            Err(name + ".num ("@ + decimal(pool.num@ as nat) + ") exceeds "@ + name + ".max ("@
                + decimal(max@ as nat) + ")"@)
        } else {
            Ok(())
        },
        ThreadLimit::Unlimited => Ok(()),
    }
}

/// The check of an optional pool: an absent pool passes.
pub open spec fn validate_opt_spec(name: Seq<char>, pool: Option<ThreadPoolConfig>) -> Result<
    (),
    Seq<char>,
> {
    match pool {
        None => Ok(()),
        Some(p) => validate_pool_config_spec(name, p),
    }
}

/// The parameters for a configuration, or the message of the first check or conversion that
/// refuses it: the three pools are checked in order, then the seven fields are converted in
/// order.
pub open spec fn init_params_spec(cfg: NngConfig) -> Result<nng_init_params, Seq<char>> {
    if let Err(m) = validate_opt_spec("task_threads"@, cfg.task_threads) {
        Err(m)
    } else if let Err(m) = validate_opt_spec("expire_threads"@, cfg.expire_threads) {
        Err(m)
    } else if let Err(m) = validate_opt_spec("poller_threads"@, cfg.poller_threads) {
        Err(m)
    } else if let Err(m) = pool_num_to_i16_spec("task_threads.num"@, cfg.task_threads) {
        Err(m)
    } else if let Err(m) = pool_max_to_i16_spec("task_threads.max"@, cfg.task_threads) {
        Err(m)
    } else if let Err(m) = pool_num_to_i16_spec("expire_threads.num"@, cfg.expire_threads) {
        Err(m)
    } else if let Err(m) = pool_max_to_i16_spec("expire_threads.max"@, cfg.expire_threads) {
        Err(m)
    } else if let Err(m) = pool_num_to_i16_spec("poller_threads.num"@, cfg.poller_threads) {
        Err(m)
    } else if let Err(m) = pool_max_to_i16_spec("poller_threads.max"@, cfg.poller_threads) {
        Err(m)
    } else if let Err(m) = to_i16_spec("num_resolver_threads"@, cfg.num_resolver_threads) {
        Err(m)
    } else {
        Ok(
            nng_init_params {
                num_task_threads: pool_num_to_i16_spec(
                    "task_threads.num"@,
                    cfg.task_threads,
                )->Ok_0,
                max_task_threads: pool_max_to_i16_spec(
                    "task_threads.max"@,
                    cfg.task_threads,
                )->Ok_0,
                num_expire_threads: pool_num_to_i16_spec(
                    "expire_threads.num"@,
                    cfg.expire_threads,
                )->Ok_0,
                max_expire_threads: pool_max_to_i16_spec(
                    "expire_threads.max"@,
                    cfg.expire_threads,
                )->Ok_0,
                num_poller_threads: pool_num_to_i16_spec(
                    "poller_threads.num"@,
                    cfg.poller_threads,
                )->Ok_0,
                max_poller_threads: pool_max_to_i16_spec(
                    "poller_threads.max"@,
                    cfg.poller_threads,
                )->Ok_0,
                num_resolver_threads: to_i16_spec(
                    "num_resolver_threads"@,
                    cfg.num_resolver_threads,
                )->Ok_0,
            },
        )
    }
}

/// Converts a non-zero count to an `i16`, refusing counts above `i16::MAX`.
pub fn nonzero_to_i16(name: &str, n: NonZeroUsize) -> (r: Result<i16, InitError>)
    ensures
        init_result_is(r, nonzero_to_i16_spec(name@, n@ as nat)),
{
    let val = n.get();
    if val > 0x7fff {
        let mut msg = String::from_str(name);
        msg.append(" value ");
        push_decimal(&mut msg, val as u64);
        msg.append(" exceeds max ");
        push_decimal(&mut msg, 0x7fff);
        proof {
            reveal_strlit(" value ");
            reveal_strlit(" exceeds max ");
        }
        Err(InitError::Invalid(msg))
    } else {
        Ok(val as i16)
    }
}

/// Converts an optional count to an `i16`; `None` (use the default) becomes zero.
pub fn to_i16(name: &str, v: Option<NonZeroUsize>) -> (r: Result<i16, InitError>)
    ensures
        init_result_is(r, to_i16_spec(name@, v)),
{
    match v {
        None => Ok(0),
        Some(n) => nonzero_to_i16(name, n),
    }
}

/// Converts a thread limit to an `i16`; [`ThreadLimit::Unlimited`] becomes `-1`.
pub fn limit_to_i16(name: &str, limit: ThreadLimit) -> (r: Result<i16, InitError>)
    ensures
        init_result_is(r, limit_to_i16_spec(name@, limit)),
{
    match limit {
        ThreadLimit::Unlimited => Ok(-1),
        ThreadLimit::Limit(n) => nonzero_to_i16(name, n),
    }
}

/// Converts a pool's initial thread count to an `i16`; an absent pool becomes zero.
pub fn pool_num_to_i16(name: &str, pool: Option<ThreadPoolConfig>) -> (r: Result<i16, InitError>)
    ensures
        init_result_is(r, pool_num_to_i16_spec(name@, pool)),
{
    match pool {
        None => Ok(0),
        Some(p) => nonzero_to_i16(name, p.num),
    }
}

/// Converts a pool's thread limit to an `i16`; an absent pool becomes zero.
pub fn pool_max_to_i16(name: &str, pool: Option<ThreadPoolConfig>) -> (r: Result<i16, InitError>)
    ensures
        init_result_is(r, pool_max_to_i16_spec(name@, pool)),
{
    match pool {
        None => Ok(0),
        Some(p) => limit_to_i16(name, p.max),
    }
}

/// Checks that a pool's initial thread count does not exceed its limit.
pub fn validate_pool_config(name: &str, pool: &ThreadPoolConfig) -> (r: Result<(), InitError>)
    ensures
        init_result_is(r, validate_pool_config_spec(name@, *pool)),
{
    if let ThreadLimit::Limit(max) = pool.max {
        let num = pool.num.get();
        let max = max.get();
        if num > max {
            let mut msg = String::from_str(name);
            msg.append(".num (");
            push_decimal(&mut msg, num as u64);
            msg.append(") exceeds ");
            msg.append(name);
            msg.append(".max (");
            push_decimal(&mut msg, max as u64);
            msg.append(")");
            proof {
                reveal_strlit(".num (");
                reveal_strlit(") exceeds ");
                reveal_strlit(".max (");
                reveal_strlit(")");
            }
            return Err(InitError::Invalid(msg));
        }
    }
    Ok(())
}

/// Checks a configuration and converts it into the parameters that NNG's initialization reads.
///
/// The task, expiration and poller pools are checked in that order
/// ([`validate_pool_config`]); then each count is converted in turn, and the first refusal is
/// returned.
pub fn init_params(cfg: NngConfig) -> (r: Result<nng_init_params, InitError>)
    ensures
        init_result_is(r, init_params_spec(cfg)),
{
    if let Some(ref pool) = cfg.task_threads {
        validate_pool_config("task_threads", pool)?;
    }
    if let Some(ref pool) = cfg.expire_threads {
        validate_pool_config("expire_threads", pool)?;
    }
    if let Some(ref pool) = cfg.poller_threads {
        validate_pool_config("poller_threads", pool)?;
    }
    let num_task_threads = pool_num_to_i16("task_threads.num", cfg.task_threads)?;
    let max_task_threads = pool_max_to_i16("task_threads.max", cfg.task_threads)?;
    let num_expire_threads = pool_num_to_i16("expire_threads.num", cfg.expire_threads)?;
    let max_expire_threads = pool_max_to_i16("expire_threads.max", cfg.expire_threads)?;
    let num_poller_threads = pool_num_to_i16("poller_threads.num", cfg.poller_threads)?;
    let max_poller_threads = pool_max_to_i16("poller_threads.max", cfg.poller_threads)?;
    let num_resolver_threads = to_i16("num_resolver_threads", cfg.num_resolver_threads)?;
    Ok(
        nng_init_params {
            num_task_threads,
            max_task_threads,
            num_expire_threads,
            max_expire_threads,
            num_poller_threads,
            max_poller_threads,
            num_resolver_threads,
        },
    )
}

/// Maps the result of NNG's initialization: success, or [`InitError::AlreadyInitialized`]
/// when NNG reports that it is busy (already initialized). NNG documents no other result.
pub fn init_outcome(err: nng_err) -> (r: Result<(), InitError>)
    requires
        err.0 == NNG_OK || err.0 == NNG_EBUSY,
    ensures
        err.0 == NNG_OK ==> r == Ok::<(), InitError>(()),
        err.0 == NNG_EBUSY ==> r == Err::<(), InitError>(InitError::AlreadyInitialized),
{
    if err.0 == NNG_OK {
        Ok(())
    } else {
        Err(InitError::AlreadyInitialized)
    }
}


/// What NNG is told of one pool by accepted parameters: zero for both counts when the pool is
/// absent (NNG's default); else its initial count, and its limit, which is `-1` when unlimited
/// and else no less than the initial count.
pub open spec fn pool_params_respect(pool: Option<ThreadPoolConfig>, num: i16, max: i16) -> bool {
    match pool {
        None => num == 0 && max == 0,
        Some(p) => num == p.num@ && match p.max {
            ThreadLimit::Unlimited => max == -1,
            ThreadLimit::Limit(m) => max == m@ && num <= max,
        },
    }
}

/// A configuration is accepted only if each pool's initial thread count is within its limit,
/// and the accepted parameters then hand NNG exactly the configured counts.
pub proof fn lemma_accepted_pools_respect_limits(cfg: NngConfig)
    ensures
        init_params_spec(cfg) matches Ok(p) ==> {
            &&& pool_params_respect(cfg.task_threads, p.num_task_threads, p.max_task_threads)
            &&& pool_params_respect(
                cfg.expire_threads,
                p.num_expire_threads,
                p.max_expire_threads,
            )
            &&& pool_params_respect(
                cfg.poller_threads,
                p.num_poller_threads,
                p.max_poller_threads,
            )
        },
        (cfg.task_threads matches Some(t) && t.max matches ThreadLimit::Limit(m) && t.num@ > m@)
            ==> init_params_spec(cfg) is Err,
{
    lemma_pool_respects(
        cfg.task_threads,
        "task_threads"@,
        "task_threads.num"@,
        "task_threads.max"@,
    );
    lemma_pool_respects(
        cfg.expire_threads,
        "expire_threads"@,
        "expire_threads.num"@,
        "expire_threads.max"@,
    );
    lemma_pool_respects(
        cfg.poller_threads,
        "poller_threads"@,
        "poller_threads.num"@,
        "poller_threads.max"@,
    );
}

/// A pool that passes its check and whose counts convert is handed to NNG as configured.
proof fn lemma_pool_respects(
    pool: Option<ThreadPoolConfig>,
    name: Seq<char>,
    num_name: Seq<char>,
    max_name: Seq<char>,
)
    ensures
        validate_opt_spec(name, pool) is Ok ==> (pool_num_to_i16_spec(num_name, pool) matches Ok(num)
            ==> (pool_max_to_i16_spec(max_name, pool) matches Ok(max) ==> pool_params_respect(
            pool,
            num,
            max,
        ))),
{
}

} // verus!
