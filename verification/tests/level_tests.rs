use sparkles::decibel_from_amplitude;
use sparkles::height_from_decibel;
use sparkles::map_amplitude_to_height;
use sparkles::DEFAULT_FLOOR_MAGNITUDE_MILLI;

#[test]
fn test_decibel_floor_for_nonpositive_amplitude() {
    let floor = DEFAULT_FLOOR_MAGNITUDE_MILLI;
    // A zero or negative amplitude maps to the fixed floor, whatever level
    // the caller measured.
    assert_eq!(decibel_from_amplitude(0, 123_456, floor), -30_000);
    assert_eq!(decibel_from_amplitude(-5, 123_456, floor), -30_000);
    // A positive amplitude keeps the measured level.
    assert_eq!(decibel_from_amplitude(1000, -7_000, floor), -7_000);
}

#[test]
fn test_height_stays_within_bounds() {
    let floor = DEFAULT_FLOOR_MAGNITUDE_MILLI;
    let rows: u16 = 50;
    // At or below the floor: zero rows.
    assert_eq!(height_from_decibel(-30_000, floor, rows), 0);
    assert_eq!(height_from_decibel(-2_000_000, floor, rows), 0);
    // At zero decibels: the full row count, saturating rather than overflowing.
    assert_eq!(height_from_decibel(0, floor, rows), rows);
    assert_eq!(height_from_decibel(1_000_000, floor, rows), rows);
    // Between floor and zero: proportional, rounded down.
    assert_eq!(height_from_decibel(-15_000, floor, rows), 25);
    assert_eq!(height_from_decibel(-20_000, floor, rows), 16);
    // Every result stays within [0, rows].
    let mut db: i64 = -2_000_000;
    while db <= 2_000_000 {
        let h = height_from_decibel(db, floor, rows);
        assert!(h <= rows);
        db += 61_803;
    }
}

#[test]
fn test_map_amplitude_to_height_silence() {
    let floor = DEFAULT_FLOOR_MAGNITUDE_MILLI;
    // Silence goes through the floor rule and lands at zero rows.
    assert_eq!(map_amplitude_to_height(0, 0, floor, 40), 0);
    // A full-scale amplitude measured at zero decibels fills the bar.
    assert_eq!(map_amplitude_to_height(1000, 0, floor, 40), 40);
}
