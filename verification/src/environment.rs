//! Ambient conditions and the derived air density.
//!
//! The environment is an immutable record of temperature (micro-°F),
//! station pressure (micro-inHg), humidity (micro-%), wind speed
//! (micro-mph), wind angle (micro-degrees), altitude (micro-feet) and
//! latitude (micro-degrees). Humidity, wind angle and latitude are
//! validated at construction, in that order; the first failing check
//! wins.
//!
//! Air density starts from the dry-air relation
//! `pressure / 29.92 * 518.67 / T_rankine * 0.0751` (lb/ft^3) and is
//! then corrected for humidity: the saturation vapor pressure comes
//! from `6.11 * 10^(7.5 Tc / (237.3 + Tc))`, is scaled by the humidity
//! fraction, and feeds the factor
//! `(dry_pressure + 0.3783 * vapor) / pressure`. At 59 °F, 29.92 inHg
//! and 0 % humidity this yields exactly 0.0751 lb/ft^3, within the
//! accepted tolerance of the standard-atmosphere reference value.
//!
//! The fractional power of ten is evaluated in fixed point by binary
//! exponentiation over twenty square-root-of-ten constants; a clamp at
//! ten units keeps the partial products representable (the true partial
//! products never exceed ten, so the clamp never alters a value).

use vstd::prelude::*;
use crate::arith::{iabs, in64, tmd, c64, mul_div, mul_div_checked, lemma_tmd_mag,
    lemma_tmd_nonneg};

verus! {

/// Offset from Fahrenheit to Rankine, micro-degrees.
pub const RANKINE_OFFSET: i64 = 459_670_000;

/// Largest magnitude accepted for temperature and pressure, micro-units.
pub const ENV_FIELD_MAX: i64 = 1_000_000_000_000;

/// Largest magnitude accepted for wind speed, micro-mph.
pub const WIND_SPEED_MAX: i64 = 100_000_000_000;

/// Failure of the environment factory: each variant names the one
/// offending field.
#[derive(Debug, Clone, Copy, PartialEq, Eq, Structural)]
pub enum EnvironmentError {
    /// Humidity outside [0, 100] %.
    InvalidHumidity,
    /// Wind angle outside [0, 360] degrees.
    InvalidWindAngle,
    /// Latitude outside [-90, 90] degrees.
    InvalidLatitude,
}

impl EnvironmentError {
    /// A user-facing description of the failure.
    pub fn message(&self) -> &'static str {
        match self {
            EnvironmentError::InvalidHumidity => "Humidity must be between 0 and 100",
            EnvironmentError::InvalidWindAngle => "Wind angle must be between 0 and 360",
            EnvironmentError::InvalidLatitude => "Latitude must be between -90 and 90",
        }
    }
}

/// Immutable ambient conditions, in micro-units.
#[derive(Debug, Clone, Copy, PartialEq, Eq, Structural)]
pub struct Environment {
    /// Temperature, micro-°F.
    pub temperature: i64,
    /// Station pressure, micro-inHg.
    pub pressure: i64,
    /// Relative humidity, micro-%.
    pub humidity: i64,
    /// Wind speed, micro-mph.
    pub wind_speed: i64,
    /// Wind angle, micro-degrees.
    pub wind_angle: i64,
    /// Altitude, micro-feet.
    pub altitude: i64,
    /// Latitude, micro-degrees.
    pub latitude: i64,
}

/// `10^k` for small nonnegative `k`.
pub open spec fn spec_ten_pow(k: int) -> int
    decreases k,
{
    if k <= 0 {
        1
    } else {
        10 * spec_ten_pow(k - 1)
    }
}

/// The binary-exponentiation constant for bit `k`: `10^(2^-k)` in
/// micro-units, rounded to nearest.
pub open spec fn spec_frac_const(k: int) -> int {
    if k == 1 {
        3_162_278
    } else if k == 2 {
        1_778_279
    } else if k == 3 {
        1_333_521
    } else if k == 4 {
        1_154_782
    } else if k == 5 {
        1_074_608
    } else if k == 6 {
        1_036_633
    } else if k == 7 {
        1_018_152
    } else if k == 8 {
        1_009_035
    } else if k == 9 {
        1_004_507
    } else if k == 10 {
        1_002_251
    } else if k == 11 {
        1_001_125
    } else if k == 12 {
        1_000_562
    } else if k == 13 {
        1_000_281
    } else if k == 14 {
        1_000_141
    } else if k == 15 {
        1_000_070
    } else if k == 16 {
        1_000_035
    } else if k == 17 {
        1_000_018
    } else if k == 18 {
        1_000_009
    } else if k == 19 {
        1_000_004
    } else {
        1_000_002
    }
}

/// `10^(rem / 2^k)` in micro-units, where `rem` holds `k` binary
/// fraction bits (bit for `2^-k` lowest): the partial product of the
/// binary exponentiation, clamped into [0, 10^7] (ten units; the true
/// values never reach the clamp).
pub open spec fn spec_pow10_frac(rem: int, k: int) -> int
    decreases k,
{
    if k <= 0 {
        1_000_000
    } else {
        let prev = spec_pow10_frac(rem / 2, k - 1);
        let m = if rem % 2 == 1 {
            tmd(prev, spec_frac_const(k), 1_000_000)
        } else {
            prev
        };
        if m < 0 {
            0
        } else if m > 10_000_000 {
            10_000_000
        } else {
            m
        }
    }
}

/// `10^(f/10^6)` in micro-units: `None` above `10^12` (not
/// representable), zero below `10^-12` (truncates to nothing).
pub open spec fn spec_pow10(f: int) -> Option<int> {
    if f > 12_000_000 {
        None
    } else if f < -12_000_000 {
        Some(0)
    } else {
        let g = f + 12_000_000;
        let n = g / 1_000_000;
        let frac = g % 1_000_000;
        let frac2 = tmd(frac, 1_048_576, 1_000_000);
        let base = spec_pow10_frac(frac2, 20);
        if n >= 12 {
            Some(tmd(base, spec_ten_pow(n - 12), 1))
        } else {
            Some(tmd(base, 1, spec_ten_pow(12 - n)))
        }
    }
}

/// Saturation vapor pressure times the humidity fraction:
/// `(h/100) * 6.11 * 10^(7.5 Tc / (237.3 + Tc))`, micro-inHg-equivalent.
/// `None` when the exponent denominator vanishes or the power is not
/// representable.
pub open spec fn spec_vapor_pressure(t: int, h: int) -> Option<int> {
    let tc = tmd(t - 32_000_000, 5, 9);
    let den = 237_300_000 + tc;
    if den == 0 {
        None
    } else {
        let f = tmd(tc, 7_500_000, den);
        match spec_pow10(f) {
            None => None,
            Some(p) => {
                let es = tmd(6_110_000, p, 1_000_000);
                Some(tmd(h, es, 100_000_000))
            },
        }
    }
}

/// Humidity-corrected air density in micro-lb/ft^3:
/// the dry-air density `p/29.92 * 518.67/T_R * 0.0751` scaled by
/// `(dry_pressure + 0.3783 * vapor) / pressure`. `None` when an
/// intermediate leaves the representable range.
pub open spec fn spec_air_density(t: int, p: int, h: int) -> Option<int> {
    let temp_r = t + RANKINE_OFFSET;
    let d1 = tmd(p, 1_000_000, 29_920_000);
    match c64(tmd(d1, 518_670_000, temp_r)) {
        None => None,
        Some(d2) => {
            let d3 = tmd(d2 as int, 75_100, 1_000_000);
            match spec_vapor_pressure(t, h) {
                None => None,
                Some(vp) => {
                    let dry = p - vp;
                    let corr = dry + tmd(vp, 3783, 10000);
                    if in64(tmd(d3, corr, p)) {
                        Some(tmd(d3, corr, p))
                    } else {
                        None
                    }
                },
            }
        },
    }
}

/// `10^k`, executable form.
fn ten_pow(k: u64) -> (r: i64)
    requires
        k <= 12,
    ensures
        r as int == spec_ten_pow(k as int),
        1 <= r <= 1_000_000_000_000,
    decreases k,
{
    if k == 0 {
        1
    } else {
        let p = ten_pow(k - 1);
        proof {
            lemma_ten_pow_bound((k - 1) as int);
            assert(spec_ten_pow(k as int) == 10 * spec_ten_pow(k as int - 1));
        }
        10 * p
    }
}

/// The binary-exponentiation constants, executable form.
fn frac_const(k: u64) -> (r: i64)
    requires
        1 <= k <= 20,
    ensures
        r as int == spec_frac_const(k as int),
        1_000_000 <= r <= 3_162_278,
{
    if k == 1 {
        3_162_278
    } else if k == 2 {
        1_778_279
    } else if k == 3 {
        1_333_521
    } else if k == 4 {
        1_154_782
    } else if k == 5 {
        1_074_608
    } else if k == 6 {
        1_036_633
    } else if k == 7 {
        1_018_152
    } else if k == 8 {
        1_009_035
    } else if k == 9 {
        1_004_507
    } else if k == 10 {
        1_002_251
    } else if k == 11 {
        1_001_125
    } else if k == 12 {
        1_000_562
    } else if k == 13 {
        1_000_281
    } else if k == 14 {
        1_000_141
    } else if k == 15 {
        1_000_070
    } else if k == 16 {
        1_000_035
    } else if k == 17 {
        1_000_018
    } else if k == 18 {
        1_000_009
    } else if k == 19 {
        1_000_004
    } else {
        1_000_002
    }
}

/// Binary exponentiation over the fraction bits, executable form.
fn pow10_frac(rem: u64, k: u64) -> (r: i64)
    requires
        k <= 20,
    ensures
        r as int == spec_pow10_frac(rem as int, k as int),
        0 <= r <= 10_000_000,
    decreases k,
{
    if k == 0 {
        1_000_000
    } else {
        let prev = pow10_frac(rem / 2, k - 1);
        proof {
            assert(rem as int / 2 == (rem / 2) as int);
            assert(rem as int % 2 == (rem % 2) as int);
        }
        let m: i64 = if rem % 2 == 1 {
            proof {
                lemma_tmd_mag(prev as int, spec_frac_const(k as int), 1_000_000, 10_000_000, 3_162_278);
                lemma_tmd_nonneg(prev as int, spec_frac_const(k as int), 1_000_000);
            }
            mul_div(prev, frac_const(k), 1_000_000)
        } else {
            prev
        };
        if m > 10_000_000 {
            10_000_000
        } else {
            m
        }
    }
}

/// `10^(f/10^6)` in micro-units, or `None` when not representable.
pub fn pow10(f: i64) -> (r: Option<i64>)
    ensures
        r is Some <==> spec_pow10(f as int) is Some,
        r matches Some(v) ==> Some(v as int) == spec_pow10(f as int),
        r matches Some(v) ==> 0 <= v <= 1_000_000_000_000_000_000,
{
    if f > 12_000_000 {
        return None;
    }
    if f < -12_000_000 {
        return Some(0);
    }
    let g: u64 = (f + 12_000_000) as u64;
    let n: u64 = g / 1_000_000;
    let frac: u64 = g % 1_000_000;
    proof {
        assert(g as int == f as int + 12_000_000);
        assert(n as int == (f as int + 12_000_000) / 1_000_000);
        assert(frac as int == (f as int + 12_000_000) % 1_000_000);
        vstd::arithmetic::div_mod::lemma_mod_bound(g as int, 1_000_000);
        vstd::arithmetic::div_mod::lemma_div_is_ordered(g as int, 24_000_000, 1_000_000);
        vstd::arithmetic::div_mod::lemma_div_pos_is_pos(g as int, 1_000_000);
        lemma_tmd_mag(frac as int, 1_048_576, 1_000_000, 999_999, 1_048_576);
        lemma_tmd_nonneg(frac as int, 1_048_576, 1_000_000);
    }
    let frac2: i64 = mul_div(frac as i64, 1_048_576, 1_000_000);
    let base: i64 = pow10_frac(frac2 as u64, 20);
    if n >= 12 {
        if n == 24 {
            proof {
                vstd::arithmetic::div_mod::lemma_fundamental_div_mod(g as int, 1_000_000);
                assert(frac == 0);
                lemma_pow10_frac_of_zero(20);
                assert(crate::arith::tmd(0, 1_048_576, 1_000_000) == 0) by {
                    crate::arith::lemma_tmd_zero(1_048_576, 1_000_000);
                }
                lemma_ten_pow_bound(12);
                lemma_tmd_times_one(base as int, spec_ten_pow(12));
            }
            let r: i64 = base * 1_000_000_000_000;
            return Some(r);
        }
        proof {
            lemma_tmd_times_one(base as int, spec_ten_pow(n as int - 12));
            lemma_ten_pow_bound(n as int - 12);
        }
        let tp: i64 = ten_pow(n - 12);
        proof {
            assert(base as int * tp as int <= 10_000_000 * 100_000_000_000) by (nonlinear_arith)
                requires
                    0 <= base as int <= 10_000_000,
                    0 <= tp as int <= 100_000_000_000,
            ;
        }
        Some(base * tp)
    } else {
        let tp: i64 = ten_pow(12 - n);
        proof {
            crate::arith::lemma_tdiv_bound(base as int * 1, tp as int, iabs(base as int));
            assert(base as int * 1 == base as int);
            lemma_tmd_nonneg(base as int, 1, tp as int);
        }
        Some(mul_div(base, 1, tp))
    }
}

/// `spec_pow10_frac` of an all-zero fraction is exactly one unit.
proof fn lemma_pow10_frac_of_zero(k: int)
    requires
        0 <= k,
    ensures
        spec_pow10_frac(0, k) == 1_000_000,
    decreases k,
{
    if k > 0 {
        lemma_pow10_frac_of_zero(k - 1);
        vstd::arithmetic::div_mod::lemma_div_of0(2);
        assert(0int % 2 == 0) by {
            vstd::arithmetic::div_mod::lemma_mod_bound(0int, 2);
            vstd::arithmetic::div_mod::lemma_fundamental_div_mod(0int, 2);
        }
    }
}

/// `a * b / 1 == a * b` for the truncating multiply.
proof fn lemma_tmd_times_one(a: int, b: int)
    ensures
        tmd(a, b, 1) == a * b,
    decreases 0int,
{
    crate::arith::lemma_iabs_mul(a, b);
    assert(iabs(a * b) / 1 == iabs(a * b)) by {
        vstd::arithmetic::div_mod::lemma_div_basics(iabs(a * b));
    }
}

/// `10^k` is at least one, at most `10^11` for `k <= 11`, and exactly
/// `10^12` at twelve.
proof fn lemma_ten_pow_bound(k: int)
    requires
        0 <= k <= 12,
    ensures
        spec_ten_pow(k) >= 1,
        k <= 11 ==> spec_ten_pow(k) <= 100_000_000_000,
        spec_ten_pow(k) <= 1_000_000_000_000,
        k == 12 ==> spec_ten_pow(k) == 1_000_000_000_000,
{
    assert(spec_ten_pow(0) == 1);
    assert(spec_ten_pow(1) == 10);
    assert(spec_ten_pow(2) == 100);
    assert(spec_ten_pow(3) == 1000);
    assert(spec_ten_pow(4) == 10000);
    assert(spec_ten_pow(5) == 100000);
    assert(spec_ten_pow(6) == 1000000);
    assert(spec_ten_pow(7) == 10000000);
    assert(spec_ten_pow(8) == 100000000);
    assert(spec_ten_pow(9) == 1000000000);
    assert(spec_ten_pow(10) == 10000000000);
    assert(spec_ten_pow(11) == 100000000000);
    assert(spec_ten_pow(12) == 1000000000000);
    if k == 0 {
    } else if k == 1 {
    } else if k == 2 {
    } else if k == 3 {
    } else if k == 4 {
    } else if k == 5 {
    } else if k == 6 {
    } else if k == 7 {
    } else if k == 8 {
    } else if k == 9 {
    } else if k == 10 {
    } else if k == 11 {
    } else {
    }
}

impl Environment {
    /// Well-formedness: validated ranges for humidity, wind angle and
    /// latitude, plus the machine limits of the fixed-point engine
    /// (temperature above absolute zero, nonzero pressure, bounded
    /// magnitudes).
    pub open spec fn wf(self) -> bool {
        &&& 0 <= self.humidity <= 100_000_000
        &&& 0 <= self.wind_angle <= 360_000_000
        &&& -90_000_000 <= self.latitude <= 90_000_000
        &&& self.temperature > -RANKINE_OFFSET
        &&& self.temperature <= ENV_FIELD_MAX
        &&& self.pressure != 0
        &&& iabs(self.pressure as int) <= ENV_FIELD_MAX as int
        &&& iabs(self.wind_speed as int) <= WIND_SPEED_MAX as int
    }

    /// Validating factory. Checks humidity, then wind angle, then
    /// latitude; the first failing check names the error, and success
    /// returns the environment with the given fields.
    ///
    /// The `requires` bounds are machine limits of the fixed-point
    /// representation (temperature above absolute zero, nonzero
    /// pressure, bounded magnitudes), not validation rules.
    pub fn new(temperature: i64, pressure: i64, humidity: i64, wind_speed: i64, wind_angle: i64,
        altitude: i64, latitude: i64) -> (r: Result<Environment, EnvironmentError>)
        requires
            temperature > -RANKINE_OFFSET,
            temperature <= ENV_FIELD_MAX,
            pressure != 0,
            iabs(pressure as int) <= ENV_FIELD_MAX as int,
            iabs(wind_speed as int) <= WIND_SPEED_MAX as int,
        ensures
            r is Ok <==> (0 <= humidity <= 100_000_000 && 0 <= wind_angle <= 360_000_000
                && -90_000_000 <= latitude <= 90_000_000),
            r matches Ok(e) ==> e == (Environment {
                temperature,
                pressure,
                humidity,
                wind_speed,
                wind_angle,
                altitude,
                latitude,
            }),
            r matches Ok(e) ==> e.wf(),
            (humidity < 0 || humidity > 100_000_000) ==> r == Result::<
                Environment,
                EnvironmentError,
            >::Err(EnvironmentError::InvalidHumidity),
            (0 <= humidity <= 100_000_000 && (wind_angle < 0 || wind_angle > 360_000_000)) ==> r
                == Result::<Environment, EnvironmentError>::Err(EnvironmentError::InvalidWindAngle),
            (0 <= humidity <= 100_000_000 && 0 <= wind_angle <= 360_000_000 && (latitude
                < -90_000_000 || latitude > 90_000_000)) ==> r == Result::<
                Environment,
                EnvironmentError,
            >::Err(EnvironmentError::InvalidLatitude),
    {
        if humidity < 0 || humidity > 100_000_000 {
            return Err(EnvironmentError::InvalidHumidity);
        }
        if wind_angle < 0 || wind_angle > 360_000_000 {
            return Err(EnvironmentError::InvalidWindAngle);
        }
        if latitude < -90_000_000 || latitude > 90_000_000 {
            return Err(EnvironmentError::InvalidLatitude);
        }
        Ok(
            Environment {
                temperature,
                pressure,
                humidity,
                wind_speed,
                wind_angle,
                altitude,
                latitude,
            },
        )
    }

    /// Humidity-scaled vapor pressure, self-guarding form.
    fn vapor_pressure_checked(&self) -> (r: Option<i64>)
        requires
            self.wf(),
        ensures
            r is Some <==> spec_vapor_pressure(self.temperature as int, self.humidity as int)
                is Some,
            r matches Some(v) ==> Some(v as int) == spec_vapor_pressure(
                self.temperature as int,
                self.humidity as int,
            ),
    {
        proof {
            lemma_tmd_mag(
                self.temperature as int - 32_000_000,
                5,
                9,
                2_000_000_000_000,
                5,
            );
        }
        let tc: i64 = mul_div(self.temperature - 32_000_000, 5, 9);
        if tc == -237_300_000 {
            return None;
        }
        let den: i64 = 237_300_000 + tc;
        proof {
            lemma_tmd_mag(tc as int, 7_500_000, den as int, 1_111_111_111_200, 7_500_000);
        }
        let f: i64 = mul_div(tc, 7_500_000, den);
        let p = match pow10(f) {
            None => {
                return None;
            },
            Some(v) => v,
        };
        proof {
            lemma_tmd_mag(6_110_000, p as int, 1_000_000, 6_110_000, 1_000_000_000_000_000_000);
            vstd::arithmetic::div_mod::lemma_div_multiples_vanish(
                6_110_000_000_000_000_000,
                1_000_000,
            );
        }
        let es: i64 = mul_div(6_110_000, p, 1_000_000);
        proof {
            assert(iabs(es as int) <= 6_110_000_000_000_000_000);
            lemma_tmd_mag(
                self.humidity as int,
                es as int,
                100_000_000,
                100_000_000,
                6_110_000_000_000_000_000,
            );
            vstd::arithmetic::div_mod::lemma_div_multiples_vanish(
                6_110_000_000_000_000_000,
                100_000_000,
            );
        }
        Some(mul_div(self.humidity, es, 100_000_000))
    }

    /// Air density, self-guarding form: `None` when an intermediate of
    /// the fixed-point evaluation leaves the representable range.
    pub fn air_density_checked(&self) -> (r: Option<i64>)
        requires
            self.wf(),
        ensures
            r is Some <==> spec_air_density(
                self.temperature as int,
                self.pressure as int,
                self.humidity as int,
            ) is Some,
            r matches Some(v) ==> Some(v as int) == spec_air_density(
                self.temperature as int,
                self.pressure as int,
                self.humidity as int,
            ),
    {
        let temp_r: i64 = self.temperature + RANKINE_OFFSET;
        proof {
            lemma_tmd_mag(self.pressure as int, 1_000_000, 29_920_000, ENV_FIELD_MAX as int, 1_000_000);
        }
        let d1: i64 = mul_div(self.pressure, 1_000_000, 29_920_000);
        let d2 = match mul_div_checked(d1, 518_670_000, temp_r) {
            None => {
                return None;
            },
            Some(v) => v,
        };
        proof {
            lemma_tmd_mag(d2 as int, 75_100, 1_000_000, crate::arith::MAG_MAX as int, 75_100);
        }
        let d3: i64 = mul_div(d2, 75_100, 1_000_000);
        let vp = match self.vapor_pressure_checked() {
            None => {
                return None;
            },
            Some(v) => v,
        };
        proof {
            lemma_vapor_pressure_bounded(self.temperature as int, self.humidity as int);
        }
        let dry: i64 = self.pressure - vp;
        proof {
            lemma_tmd_mag(vp as int, 3783, 10000, 6_200_000_000_000_000_000, 3783);
        }
        let corr: i64 = dry + mul_div(vp, 3783, 10000);
        mul_div_checked(d3, corr, self.pressure)
    }

    /// Air density in micro-lb/ft^3.
    ///
    /// The caller guarantees the evaluation stays representable;
    /// `air_density_checked` is the self-guarding form.
    pub fn air_density(&self) -> (r: i64)
        requires
            self.wf(),
            spec_air_density(self.temperature as int, self.pressure as int, self.humidity as int)
                is Some,
        ensures
            Some(r as int) == spec_air_density(
                self.temperature as int,
                self.pressure as int,
                self.humidity as int,
            ),
    {
        match self.air_density_checked() {
            Some(v) => v,
            None => {
                proof {
                    assert(false);
                }
                0
            },
        }
    }
}

/// The humidity-scaled vapor pressure, when defined, stays within
/// `6.11 * 10^12` micro-units.
proof fn lemma_vapor_pressure_bounded(t: int, h: int)
    requires
        0 <= h <= 100_000_000,
        spec_vapor_pressure(t, h) is Some,
    ensures
        iabs(spec_vapor_pressure(t, h)->Some_0) <= 6_110_000_000_000_000_000,
{
    let tc = tmd(t - 32_000_000, 5, 9);
    let den = 237_300_000 + tc;
    let f = tmd(tc, 7_500_000, den);
    let p = spec_pow10(f)->Some_0;
    lemma_pow10_bounded(f);
    let es = tmd(6_110_000, p, 1_000_000);
    lemma_tmd_mag(6_110_000, p, 1_000_000, 6_110_000, 1_000_000_000_000_000_000);
    vstd::arithmetic::div_mod::lemma_div_multiples_vanish(
        6_110_000_000_000_000_000,
        1_000_000,
    );
    lemma_tmd_mag(h, es, 100_000_000, 100_000_000, 6_110_000_000_000_000_000);
    vstd::arithmetic::div_mod::lemma_div_multiples_vanish(
        6_110_000_000_000_000_000,
        100_000_000,
    );
}

/// A defined power of ten stays within `10^12` units.
proof fn lemma_pow10_bounded(f: int)
    requires
        spec_pow10(f) is Some,
    ensures
        0 <= spec_pow10(f)->Some_0 <= 1_000_000_000_000_000_000,
{
    if f < -12_000_000 {
    } else {
        let g = f + 12_000_000;
        let n = g / 1_000_000;
        let frac = g % 1_000_000;
        let frac2 = tmd(frac, 1_048_576, 1_000_000);
        let base = spec_pow10_frac(frac2, 20);
        lemma_pow10_frac_range(frac2, 20);
        vstd::arithmetic::div_mod::lemma_mod_bound(g, 1_000_000);
        vstd::arithmetic::div_mod::lemma_div_is_ordered(g, 24_000_000, 1_000_000);
        vstd::arithmetic::div_mod::lemma_div_pos_is_pos(g, 1_000_000);
        if n >= 12 {
            lemma_tmd_times_one(base, spec_ten_pow(n - 12));
            if n == 24 {
                vstd::arithmetic::div_mod::lemma_fundamental_div_mod(g, 1_000_000);
                assert(frac == 0);
                crate::arith::lemma_tmd_zero(1_048_576, 1_000_000);
                lemma_pow10_frac_of_zero(20);
                lemma_ten_pow_bound(12);
                assert(base * spec_ten_pow(12) == 1_000_000_000_000_000_000);
            } else {
                lemma_ten_pow_bound(n - 12);
                assert(base * spec_ten_pow(n - 12) <= 10_000_000 * 100_000_000_000)
                    by (nonlinear_arith)
                    requires
                        0 <= base <= 10_000_000,
                        1 <= spec_ten_pow(n - 12) <= 100_000_000_000,
                ;
                assert(base * spec_ten_pow(n - 12) >= 0) by (nonlinear_arith)
                    requires
                        0 <= base,
                        1 <= spec_ten_pow(n - 12),
                ;
            }
        } else {
            lemma_ten_pow_bound(12 - n);
            crate::arith::lemma_tdiv_bound(base * 1, spec_ten_pow(12 - n), iabs(base));
            lemma_tmd_nonneg(base, 1, spec_ten_pow(12 - n));
        }
    }
}

/// The clamped partial product of the binary exponentiation stays in
/// its clamp band.
proof fn lemma_pow10_frac_range(rem: int, k: int)
    ensures
        0 <= spec_pow10_frac(rem, k) <= 10_000_000,
    decreases k,
{
    if k > 0 {
        lemma_pow10_frac_range(rem / 2, k - 1);
    }
}

} // verus!
