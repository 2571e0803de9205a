//! Mapping of an RMS amplitude to a bounded bar height.
//!
//! The mapping runs in two steps. First the amplitude is turned into a
//! decibel level: a non-positive amplitude has no logarithm, so it maps to a
//! fixed floor value; a positive amplitude maps to the measured level that
//! the caller obtained from the logarithm of the amplitude, which is not
//! computable here. Second the decibel level is normalized against the floor
//! magnitude and scaled to a row count, clamped to the terminal height.
//! All decibel values are in milli-decibels.

use vstd::prelude::*;

verus! {

/// Default floor magnitude: a floor of minus thirty decibels.
pub const DEFAULT_FLOOR_MAGNITUDE_MILLI: i64 = 30_000;

/// Largest decibel magnitude the mapper accepts, in milli-decibels. Two
/// thousand decibels cover the level of every finite 32-bit amplitude.
pub const MAX_DECIBEL_MAGNITUDE_MILLI: i64 = 2_000_000;

/// Largest floor magnitude the mapper accepts, in milli-decibels.
pub const MAX_FLOOR_MAGNITUDE_MILLI: i64 = 1_000_000;

/// The decibel level of an amplitude: the floor value when the amplitude is
/// not positive, else the measured level.
pub open spec fn spec_decibel(
    amp_milli: int,
    measured_db_milli: int,
    floor_magnitude_milli: int,
) -> int {
    if amp_milli <= 0 {
        -floor_magnitude_milli
    } else {
        measured_db_milli
    }
}

/// The bar height of a decibel level: the level is offset by the floor
/// magnitude, scaled to the row count against the floor magnitude, rounded
/// down, and clamped to `[0, rows]`.
pub open spec fn spec_height(db_milli: int, floor_magnitude_milli: int, rows: int) -> int {
    if db_milli + floor_magnitude_milli <= 0 {
        0
    } else if (db_milli + floor_magnitude_milli) * rows / floor_magnitude_milli > rows {
        rows
    } else {
        (db_milli + floor_magnitude_milli) * rows / floor_magnitude_milli
    }
}

/// Turn an amplitude into a decibel level, substituting the fixed floor for
/// any amplitude that is zero or negative. `measured_db_milli` is the level
/// that the caller measured from the logarithm of the amplitude; it is used
/// only when the amplitude is positive.
pub fn decibel_from_amplitude(
    amp_milli: i64,
    measured_db_milli: i64,
    floor_magnitude_milli: i64,
) -> (db: i64)
    requires
        0 < floor_magnitude_milli,
    ensures
        db == spec_decibel(amp_milli as int, measured_db_milli as int, floor_magnitude_milli as int),
{
    if amp_milli <= 0 {
        -floor_magnitude_milli
    } else {
        measured_db_milli
    }
}

/// Turn a decibel level into a bar height within `[0, rows]`. A level at or
/// below the floor maps to zero rows; a level of zero decibels maps to the
/// full row count.
pub fn height_from_decibel(db_milli: i64, floor_magnitude_milli: i64, rows: u16) -> (h: u16)
    requires
        0 < floor_magnitude_milli <= MAX_FLOOR_MAGNITUDE_MILLI,
        -MAX_DECIBEL_MAGNITUDE_MILLI <= db_milli <= MAX_DECIBEL_MAGNITUDE_MILLI,
    ensures
        h == spec_height(db_milli as int, floor_magnitude_milli as int, rows as int),
        h <= rows,
        db_milli <= -floor_magnitude_milli ==> h == 0,
        db_milli == 0 ==> h == rows,
{
    if db_milli <= -floor_magnitude_milli {
        0
    } else {
        assert(0 <= (db_milli + floor_magnitude_milli) * (rows as int) <= 3_000_000 * 65_535)
            by (nonlinear_arith)
            requires
                0 < db_milli + floor_magnitude_milli <= 3_000_000,
                0 <= rows <= 65_535,
        ;
        let num: i64 = (db_milli + floor_magnitude_milli) * (rows as i64);
        assert(num / floor_magnitude_milli >= 0) by (nonlinear_arith)
            requires
                num >= 0,
                floor_magnitude_milli > 0,
        ;
        let h64: i64 = num / floor_magnitude_milli;
        if h64 > rows as i64 {
            rows
        } else {
            proof {
                if db_milli == 0 {
                    assert((floor_magnitude_milli as int) * (rows as int)
                        / (floor_magnitude_milli as int) == rows as int) by (nonlinear_arith)
                        requires
                            floor_magnitude_milli > 0,
                    ;
                }
            }
            h64 as u16
        }
    }
}

/// Map an amplitude straight to a bar height: the floor substitution
/// followed by the height mapping.
pub fn map_amplitude_to_height(
    amp_milli: i64,
    measured_db_milli: i64,
    floor_magnitude_milli: i64,
    rows: u16,
) -> (h: u16)
    requires
        0 < floor_magnitude_milli <= MAX_FLOOR_MAGNITUDE_MILLI,
        -MAX_DECIBEL_MAGNITUDE_MILLI <= measured_db_milli <= MAX_DECIBEL_MAGNITUDE_MILLI,
    ensures
        h == spec_height(
            spec_decibel(amp_milli as int, measured_db_milli as int, floor_magnitude_milli as int),
            floor_magnitude_milli as int,
            rows as int,
        ),
        h <= rows,
{
    let db: i64 = decibel_from_amplitude(amp_milli, measured_db_milli, floor_magnitude_milli);
    height_from_decibel(db, floor_magnitude_milli, rows)
}

/// The height mapping never leaves `[0, rows]`, whatever the decibel level.
pub proof fn lemma_height_bounds(db_milli: int, floor_magnitude_milli: int, rows: int)
    requires
        0 < floor_magnitude_milli,
        0 <= rows,
    ensures
        0 <= spec_height(db_milli, floor_magnitude_milli, rows) <= rows,
{
    if db_milli + floor_magnitude_milli > 0 {
        assert((db_milli + floor_magnitude_milli) * rows >= 0) by (nonlinear_arith)
            requires
                db_milli + floor_magnitude_milli > 0,
                rows >= 0,
        ;
        let num = (db_milli + floor_magnitude_milli) * rows;
        assert(num / floor_magnitude_milli >= 0) by (nonlinear_arith)
            requires
                num >= 0,
                floor_magnitude_milli > 0,
        ;
    }
}

} // verus!
