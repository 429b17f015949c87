//! Startup configuration of a sustained load run, with its validation.
//! An invalid configuration is rejected before the run loop starts.

use vstd::prelude::*;
use crate::controller::TARGET_FLOOR;

verus! {

/// Default headroom multiplier: the target is capped at
/// `rate_per_second * max_in_flight_multiplier`.
pub const DEFAULT_MAX_IN_FLIGHT_MULTIPLIER: u32 = 50;

/// Validated parameters of a sustained load run.
pub struct LoadConfig {
    /// Steady-state admission ceiling: new calls started per second.
    pub rate_per_second: u32,
    /// Bound of the pool the two distinct call identifiers are drawn from.
    pub account_pool_size: u32,
    /// Multiplies `rate_per_second` to cap the concurrency target.
    pub max_in_flight_multiplier: u32,
}

/// Why a configuration was rejected.
#[derive(Clone, Copy, Debug, PartialEq, Eq, Structural)]
pub enum ConfigError {
    /// The requested rate was zero.
    ZeroRate,
    /// The identifier pool cannot supply two distinct identifiers.
    PoolTooSmall,
    /// The headroom cap would fall below the controller's floor.
    HeadroomTooSmall,
}

impl LoadConfig {
    /// The cap on the concurrency target.
    pub open spec fn spec_max_in_flight(self) -> int {
        self.rate_per_second * self.max_in_flight_multiplier
    }

    /// A valid configuration has a nonzero rate, a pool of at least two
    /// identifiers, and a headroom cap no lower than the target floor.
    pub open spec fn valid(self) -> bool {
        &&& self.rate_per_second >= 1
        &&& self.account_pool_size >= 2
        &&& self.spec_max_in_flight() >= TARGET_FLOOR
    }

    /// Exactly when `new` accepts a configuration.
    pub open spec fn spec_accepts(rate_per_second: u32, account_pool_size: u32, multiplier: u32) -> bool {
        &&& rate_per_second >= 1
        &&& account_pool_size >= 2
        &&& rate_per_second * multiplier >= TARGET_FLOOR
    }

    /// Validate the startup parameters. Rejects a zero rate, a pool of fewer
    /// than two identifiers, and a headroom cap below the target floor, in
    /// that order of precedence.
    pub fn new(rate_per_second: u32, account_pool_size: u32, multiplier: u32) -> (r: Result<
        LoadConfig,
        ConfigError,
    >)
        ensures
            r is Ok <==> Self::spec_accepts(rate_per_second, account_pool_size, multiplier),
            r matches Ok(c) ==> c == (LoadConfig {
                rate_per_second,
                account_pool_size,
                max_in_flight_multiplier: multiplier,
            }),
            r matches Ok(c) ==> c.valid(),
            rate_per_second == 0 ==> r == Result::<LoadConfig, ConfigError>::Err(ConfigError::ZeroRate),
            rate_per_second >= 1 && account_pool_size < 2 ==> r == Result::<
                LoadConfig,
                ConfigError,
            >::Err(ConfigError::PoolTooSmall),
            rate_per_second >= 1 && account_pool_size >= 2 && rate_per_second * multiplier
                < TARGET_FLOOR ==> r == Result::<LoadConfig, ConfigError>::Err(
                ConfigError::HeadroomTooSmall,
            ),
    {
        if rate_per_second == 0 {
            Err(ConfigError::ZeroRate)
        } else if account_pool_size < 2 {
            Err(ConfigError::PoolTooSmall)
        } else {
            proof {
                lemma_u32_product_fits_u64(rate_per_second, multiplier);
            }
            let cap: u64 = (rate_per_second as u64) * (multiplier as u64);
            if cap < TARGET_FLOOR {
                Err(ConfigError::HeadroomTooSmall)
            } else {
                Ok(LoadConfig { rate_per_second, account_pool_size, max_in_flight_multiplier: multiplier })
            }
        }
    }

    /// Validate with the default headroom multiplier.
    pub fn with_default_multiplier(rate_per_second: u32, account_pool_size: u32) -> (r: Result<
        LoadConfig,
        ConfigError,
    >)
        ensures
            r is Ok <==> Self::spec_accepts(
                rate_per_second,
                account_pool_size,
                DEFAULT_MAX_IN_FLIGHT_MULTIPLIER,
            ),
            r matches Ok(c) ==> c == (LoadConfig {
                rate_per_second,
                account_pool_size,
                max_in_flight_multiplier: DEFAULT_MAX_IN_FLIGHT_MULTIPLIER,
            }),
            r matches Ok(c) ==> c.valid(),
    {
        LoadConfig::new(rate_per_second, account_pool_size, DEFAULT_MAX_IN_FLIGHT_MULTIPLIER)
    }

    /// The cap on the concurrency target, as the run uses it.
    pub fn max_in_flight(&self) -> (r: u64)
        ensures
            r == self.spec_max_in_flight(),
    {
        proof {
            lemma_u32_product_fits_u64(self.rate_per_second, self.max_in_flight_multiplier);
        }
        (self.rate_per_second as u64) * (self.max_in_flight_multiplier as u64)
    }
}

/// The product of two 32-bit values always fits in 64 bits.
proof fn lemma_u32_product_fits_u64(a: u32, b: u32)
    ensures
        a * b <= u64::MAX,
{
    assert(a * b <= 0xffff_ffff * 0xffff_ffff) by (nonlinear_arith)
        requires
            a <= 0xffff_ffffu32,
            b <= 0xffff_ffffu32,
    ;
}

impl ConfigError {
    /// A short description of the rejection, for the program's own report.
    pub fn describe(&self) -> (r: &'static str)
        ensures
            self is ZeroRate ==> r@ == "rate per second must be at least 1"@,
            self is PoolTooSmall ==> r@ == "account pool must hold at least 2 accounts"@,
            self is HeadroomTooSmall ==> r@ == "rate times multiplier must reach the target floor"@,
    {
        match self {
            ConfigError::ZeroRate => "rate per second must be at least 1",
            ConfigError::PoolTooSmall => "account pool must hold at least 2 accounts",
            ConfigError::HeadroomTooSmall => "rate times multiplier must reach the target floor",
        }
    }
}

} // verus!
