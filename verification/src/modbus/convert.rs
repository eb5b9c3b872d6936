//! Register encodings: 16-bit two's complement parameters, the reserved
//! "no data" band, the decimal-point (dPt) scale and the writable range.
use vstd::prelude::*;
use crate::error::{AppError, ErrorModel};

verus! {

pub const SENTINEL_NO_DATA: u16 = 0x7FFF;

/// Reads whose high byte is 127 mark an invalid or reserved parameter code
/// (protocol V8.x); the controller never stores values in this band.
pub const INVALID_READ_MIN: u16 = 32512;

pub const INVALID_READ_MAX: u16 = 0x7FFF;

/// Registers hold 16-bit two's complement values, and the controller accepts
/// at most 32000 for any parameter. Staying within this range guarantees a
/// written value reads back unchanged.
pub const WRITABLE_MIN: i64 = -32768;

pub const WRITABLE_MAX: i64 = 32000;

/// Lowest and highest temperature (degrees Celsius) the tool accepts.
pub const TEMP_MIN: i64 = -200;

pub const TEMP_MAX: i64 = 1800;

/// How register values map to engineering values:
/// `value = signed_raw / scale_factor / 10^decimal_point`.
#[derive(Debug, Clone, Copy, PartialEq, Eq, Structural)]
pub struct ScaleConfig {
    pub decimal_point: u8,
    pub scale_factor: u8,
}

impl Default for ScaleConfig {
    fn default() -> (s: Self)
        ensures
            s == (ScaleConfig { decimal_point: 1, scale_factor: 1 }),
    {
        ScaleConfig { decimal_point: 1, scale_factor: 1 }
    }
}

/// `10^n`.
pub open spec fn pow10(n: nat) -> nat
    decreases n,
{
    if n == 0 {
        1
    } else {
        10 * pow10((n - 1) as nat)
    }
}

/// The number a register value is divided by to give the engineering value.
pub open spec fn scale_divisor(scale: ScaleConfig) -> int {
    scale.scale_factor as int * pow10(scale.decimal_point as nat) as int
}

/// The 16-bit two's complement reading of a register.
pub open spec fn signed_of(raw: u16) -> int {
    if raw < 32768 {
        raw as int
    } else {
        raw as int - 65536
    }
}

/// The register that holds `v` in 16-bit two's complement.
pub open spec fn register_of(v: int) -> int {
    if v < 0 {
        v + 65536
    } else {
        v
    }
}

pub open spec fn is_invalid_marker(raw: u16) -> bool {
    INVALID_READ_MIN <= raw <= INVALID_READ_MAX
}

pub open spec fn is_writable(v: int) -> bool {
    WRITABLE_MIN <= v <= WRITABLE_MAX
}

/// The scale a dPt register value selects; `None` (read failed) falls back
/// to one decimal place and no extra factor.
pub open spec fn dpt_scale(raw_dpt: Option<u16>) -> ScaleConfig {
    match raw_dpt {
        Some(raw) => if raw >= 128 {
            ScaleConfig { decimal_point: ((raw - 128) % 256) as u8, scale_factor: 10 }
        } else {
            ScaleConfig { decimal_point: raw as u8, scale_factor: 1 }
        },
        None => ScaleConfig { decimal_point: 1, scale_factor: 1 },
    }
}

/// Whether the engineering value `signed / scale_divisor(scale)` is a finite
/// temperature within `TEMP_MIN..=TEMP_MAX`.
pub open spec fn temperature_valid(signed: int, scale: ScaleConfig) -> bool {
    &&& scale.scale_factor > 0
    &&& TEMP_MIN * scale_divisor(scale) <= signed <= TEMP_MAX * scale_divisor(scale)
}

/// `n / d` rounded to the nearest integer, halves away from zero.
pub open spec fn round_div(n: int, d: int) -> int {
    if n >= 0 {
        (2 * n + d) / (2 * d)
    } else {
        -((2 * (-n) + d) / (2 * d))
    }
}

pub fn parse_dpt(raw_dpt: Option<u16>) -> (s: ScaleConfig)
    ensures
        s == dpt_scale(raw_dpt),
{
    match raw_dpt {
        Some(raw) => {
            if raw >= 128 {
                ScaleConfig { decimal_point: ((raw - 128) % 256) as u8, scale_factor: 10 }
            } else {
                ScaleConfig { decimal_point: raw as u8, scale_factor: 1 }
            }
        },
        None => ScaleConfig::default(),
    }
}

/// Interprets a parameter register; the reserved band reads as `None`.
pub fn parameter_from_raw(raw: u16) -> (r: Option<i16>)
    ensures
        r is None <==> is_invalid_marker(raw),
        r matches Some(v) ==> v as int == signed_of(raw),
{
    if INVALID_READ_MIN <= raw && raw <= INVALID_READ_MAX {
        None
    } else {
        let v = raw as i16;
        assert(v as int == signed_of(raw)) by (bit_vector)
            requires
                v == raw as i16,
        ;
        Some(v)
    }
}

/// Encodes a register value, rejecting anything the controller would store
/// differently from what was written (no truncation, no sign flips).
pub fn encode_i16(value: i64, label: &str) -> (r: Result<u16, AppError>)
    ensures
        r is Ok <==> is_writable(value as int),
        r matches Ok(raw) ==> raw as int == register_of(value as int),
        r matches Err(e) ==> e@ == (ErrorModel::OutOfRange {
            label: label@,
            value: value as int,
            min: WRITABLE_MIN as int,
            max: WRITABLE_MAX as int,
        }),
{
    if value < WRITABLE_MIN || value > WRITABLE_MAX {
        return Err(AppError::out_of_range(label, value, WRITABLE_MIN, WRITABLE_MAX));
    }
    let raw = value as i16 as u16;
    assert(raw as int == register_of(value as int)) by (bit_vector)
        requires
            raw == value as i16 as u16,
            -32768 <= value <= 32000,
    ;
    Ok(raw)
}

/// A value that lies in the writable range reads back unchanged.
pub proof fn law_written_value_reads_back(value: int)
    requires
        is_writable(value),
    ensures
        0 <= register_of(value) < 65536,
        !is_invalid_marker(register_of(value) as u16),
        signed_of(register_of(value) as u16) == value,
{
}

/// The integer part of a scaled write: `rounded` is the engineering value
/// already multiplied by `10^decimal_point` and rounded; the scale factor is
/// applied (saturating) and the result encoded.
pub fn encode_scaled(rounded: i64, scale: ScaleConfig) -> (r: Result<u16, AppError>)
    ensures
        ({
            let product = rounded as int * scale.scale_factor as int;
            let clamped = if product > i64::MAX {
                i64::MAX as int
            } else if product < i64::MIN {
                i64::MIN as int
            } else {
                product
            };
            &&& r is Ok <==> is_writable(clamped)
            &&& r matches Ok(raw) ==> raw as int == register_of(clamped)
            &&& r matches Err(e) ==> e@ == (ErrorModel::OutOfRange {
                label: "scaled value"@,
                value: clamped,
                min: WRITABLE_MIN as int,
                max: WRITABLE_MAX as int,
            })
        }),
{
    assert(-(i64::MAX as int) * 256 <= rounded as int * scale.scale_factor as int
        <= (i64::MAX as int) * 256) by (nonlinear_arith)
        requires
            -(i64::MAX as int) - 1 <= rounded as int <= i64::MAX as int,
            0 <= scale.scale_factor as int <= 255,
    ;
    let wide = rounded as i128 * scale.scale_factor as i128;
    let product: i64 = if wide > i64::MAX as i128 {
        i64::MAX
    } else if wide < i64::MIN as i128 {
        i64::MIN
    } else {
        wide as i64
    };
    encode_i16(product, "scaled value")
}

/// `10^n` for small `n`.
fn pow10_small(n: u8) -> (p: i64)
    requires
        n <= 4,
    ensures
        p as int == pow10(n as nat),
        1 <= p <= 10000,
{
    let mut p: i64 = 1;
    let mut i: u8 = 0;
    while i < n
        invariant
            i <= n <= 4,
            p as int == pow10(i as nat),
            1 <= p <= 10000,
        decreases n - i,
    {
        proof {
            reveal_with_fuel(pow10, 2);
        }
        assert(i + 1 <= 4);
        assert(p * 10 <= 10000) by {
            lemma_pow10_monotone(i as nat, 3);
            reveal_with_fuel(pow10, 4);
        }
        p = p * 10;
        i = i + 1;
    }
    p
}

proof fn lemma_pow10_monotone(a: nat, b: nat)
    requires
        a <= b,
    ensures
        pow10(a) <= pow10(b),
    decreases b,
{
    if a < b {
        lemma_pow10_monotone(a, (b - 1) as nat);
    }
}

/// Whether a register value, read with `scale`, is a valid temperature.
/// Exact: the comparison is made on the rational value, not a rounded one.
pub fn temperature_in_range(signed: i16, scale: ScaleConfig) -> (ok: bool)
    ensures
        ok == temperature_valid(signed as int, scale),
{
    if scale.scale_factor == 0 {
        return false;
    }
    if scale.decimal_point >= 5 {
        proof {
            lemma_pow10_monotone(5, scale.decimal_point as nat);
            reveal_with_fuel(pow10, 6);
            assert(pow10(5) == 100000);
            lemma_mul_grows(scale.scale_factor as int, pow10(scale.decimal_point as nat) as int);
        }
        return true;
    }
    let p = pow10_small(scale.decimal_point);
    let sf = scale.scale_factor as i64;
    assert(sf * p <= 255 * 10000) by (nonlinear_arith)
        requires
            1 <= p <= 10000,
            0 <= sf <= 255,
    ;
    let divisor = sf * p;
    TEMP_MIN * divisor <= signed as i64 && signed as i64 <= TEMP_MAX * divisor
}

proof fn lemma_mul_grows(a: int, b: int)
    requires
        a >= 1,
        b >= 100000,
    ensures
        a * b >= 100000,
{
    assert(a * b >= b) by (nonlinear_arith)
        requires
            a >= 1,
            b >= 0,
    ;
}

/// The register a valid decoded temperature is written back as: the value
/// is rounded to whole units of `10^-decimal_point` (halves away from zero)
/// and multiplied by the scale factor again, then encoded.
pub fn reencode_temperature(signed: i16, scale: ScaleConfig) -> (r: Result<u16, AppError>)
    requires
        scale.scale_factor > 0,
    ensures
        ({
            let v = round_div(signed as int, scale.scale_factor as int) * scale.scale_factor;
            &&& r is Ok <==> is_writable(v)
            &&& r matches Ok(raw) ==> raw as int == register_of(v)
            &&& r matches Err(e) ==> e@ == (ErrorModel::OutOfRange {
                label: "scaled value"@,
                value: v,
                min: WRITABLE_MIN as int,
                max: WRITABLE_MAX as int,
            })
        }),
{
    let s = signed as i64;
    let d = scale.scale_factor as i64;
    let rounded: i64 = if s >= 0 {
        (2 * s + d) / (2 * d)
    } else {
        -((2 * (-s) + d) / (2 * d))
    };
    assert(-32768 <= rounded <= 32768) by (nonlinear_arith)
        requires
            d >= 1,
            -32768 <= s <= 32767,
            s >= 0 ==> rounded == (2 * s + d) / (2 * d),
            s < 0 ==> rounded == -((2 * (-s) + d) / (2 * d)),
    {
    }
    assert(rounded as int == round_div(s as int, d as int));
    assert(-32768 * 255 <= rounded as int * d as int <= 32768 * 255) by (nonlinear_arith)
        requires
            -32768 <= rounded <= 32768,
            1 <= d <= 255,
    ;
    encode_scaled(rounded, scale)
}

/// The bands and scales the protocol fixes: a write is accepted for
/// -32768..=32000; a register reading 32512..=32767 holds no data; a dPt
/// below 128 gives that many decimal places and no factor, one of 128 or
/// more gives `dPt - 128` places (modulo 256) and a factor of ten, and a dPt
/// that could not be read gives one place and no factor; a temperature is
/// valid when its engineering value lies within -200..=1800.
pub proof fn law_protocol_bands(v: int, raw: u16, signed: int, scale: ScaleConfig)
    ensures
        is_writable(v) <==> -32768 <= v <= 32000,
        is_invalid_marker(raw) <==> 32512 <= raw <= 32767,
        raw < 128 ==> dpt_scale(Some(raw)) == (ScaleConfig { decimal_point: raw as u8, scale_factor: 1 }),
        raw >= 128 ==> dpt_scale(Some(raw)).decimal_point as int == (raw - 128) % 256
            && dpt_scale(Some(raw)).scale_factor == 10,
        dpt_scale(None) == (ScaleConfig { decimal_point: 1, scale_factor: 1 }),
        temperature_valid(signed, scale) <==> scale.scale_factor > 0 && -200 * (
        scale.scale_factor as int * pow10(scale.decimal_point as nat) as int) <= signed <= 1800 * (
        scale.scale_factor as int * pow10(scale.decimal_point as nat) as int),
{
}

} // verus!
