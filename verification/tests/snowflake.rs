use snowflake::{Snowflake, SnowflakeError, EPOCH_MILLIS, RANDOM_MASK};

#[test]
fn test_random_snowflake_properties() {
    // Generate a few snowflakes to increase the chance of catching issues
    // with the random part.
    for _ in 0..100 {
        let sf = Snowflake::random().expect("clock should be past the epoch");
        let val = sf.as_u64();

        // 1. The most significant bit (bit 63) must be 0.
        assert_eq!((val >> 63) & 1, 0, "Bit 63 (MSB) should be 0. Value: {val:064b}");

        // 2. The 22nd bit (bit 21, 0-indexed) must be 0.
        assert_eq!((val >> 21) & 1, 0, "Bit 21 (22nd bit) should be 0. Value: {val:064b}");

        // 3. The timestamp part (bits 22-62) should generally be non-zero if
        //    time has passed since EPOCH. Mask for bits 22 to 62.
        let timestamp_mask: u64 = ((1u64 << 41) - 1) << 22;
        assert_ne!(
            val & timestamp_mask,
            0,
            "Timestamp portion (bits 22-62) should generally be non-zero. Value: {:064b}",
            val & timestamp_mask
        );
    }
}

#[test]
fn from_raw_zero_round_trips() {
    assert_eq!(Snowflake::from(0u64).as_u64(), 0u64);
}

#[test]
fn from_raw_all_ones_round_trips() {
    assert_eq!(
        Snowflake::from(0xFFFF_FFFF_FFFF_FFFFu64).as_u64(),
        0xFFFF_FFFF_FFFF_FFFFu64
    );
}

#[test]
fn from_raw_round_trips_arbitrary_values() {
    let samples: Vec<u64> = vec![
        1,
        0x0020_0000,
        0x8000_0000_0000_0000,
        0x01FF_FFFF_FFFF,
        1_546_300_800_000,
        u64::MAX - 1,
    ];
    for v in samples {
        assert_eq!(Snowflake::from(v).as_u64(), v);
    }
}

#[test]
fn generated_identifiers_obey_the_layout() {
    for _ in 0..100 {
        let val = Snowflake::random().expect("clock should be past the epoch").as_u64();

        // Bit 63, the sign guard, is clear.
        assert_eq!((val >> 63) & 1, 0);

        // Bit 21, the separator, is clear.
        assert_eq!((val >> 21) & 1, 0);

        // The timestamp field is non-zero once time has passed the epoch.
        let timestamp_mask: u64 = ((1u64 << 41) - 1) << 22;
        assert_ne!(val & timestamp_mask, 0);

        // The random field lies in the 21-bit space.
        assert!(val & 0x001F_FFFF <= 2_097_151);
    }
}

#[test]
fn timestamp_before_the_custom_epoch_is_rejected() {
    // 2000-01-01T00:00:00Z, well before the custom epoch.
    let year_2000_ms: u128 = 946_684_800_000;
    assert_eq!(
        Snowflake::timestamp_field_at(year_2000_ms),
        Err(SnowflakeError::EpochOrdering)
    );
}

#[test]
fn timestamp_just_before_the_custom_epoch_is_rejected() {
    let just_before: u128 = EPOCH_MILLIS as u128 - 1;
    assert_eq!(
        Snowflake::timestamp_field_at(just_before),
        Err(SnowflakeError::EpochOrdering)
    );
}

#[test]
fn timestamp_too_far_past_the_custom_epoch_overflows() {
    let too_far: u128 = EPOCH_MILLIS as u128 + u64::MAX as u128 + 1;
    assert_eq!(
        Snowflake::timestamp_field_at(too_far),
        Err(SnowflakeError::TimestampOverflow)
    );
}

#[test]
fn timestamp_field_is_positioned_at_bit_22() {
    assert_eq!(Snowflake::timestamp_field_at(EPOCH_MILLIS as u128), Ok(0u64));
    assert_eq!(
        Snowflake::timestamp_field_at(EPOCH_MILLIS as u128 + 5),
        Ok(5u64 << 22)
    );
    // The field is truncated to 41 bits before the shift.
    let beyond_capacity: u128 = EPOCH_MILLIS as u128 + (1u128 << 41) + 9;
    assert_eq!(Snowflake::timestamp_field_at(beyond_capacity), Ok(9u64 << 22));
}

#[test]
fn timestamp_part_holds_only_timestamp_bits() {
    let ts = Snowflake::timestamp_part().expect("clock should be past the epoch");
    let timestamp_mask: u64 = ((1u64 << 41) - 1) << 22;
    assert_eq!(ts & !timestamp_mask, 0);
    assert_ne!(ts, 0);
}

#[test]
fn timestamp_trend_is_monotonic() {
    let first = Snowflake::random().expect("clock should be past the epoch");
    // A measurable delay: enough work that at least a few clock ticks can pass.
    let mut spin: u64 = 0;
    for i in 0..5_000_000u64 {
        spin = spin.wrapping_mul(31).wrapping_add(i);
    }
    assert!(spin != 1); // keep the loop from being discarded
    let second = Snowflake::random().expect("clock should be past the epoch");

    let timestamp_mask: u64 = ((1u64 << 41) - 1) << 22;
    assert!(second.as_u64() & timestamp_mask >= first.as_u64() & timestamp_mask);
}

#[test]
fn generated_identifier_round_trips_through_raw() {
    let sf = Snowflake::random().expect("clock should be past the epoch");
    let raw = sf.as_u64();
    assert_eq!(Snowflake::from(raw).as_u64(), raw);
    assert_eq!(Snowflake::from(raw), sf);
}

#[test]
fn assemble_is_a_bitwise_or_of_the_two_fields() {
    let ts: u64 = 5u64 << 22;
    let sf = Snowflake::assemble(ts, 7);
    assert_eq!(sf.as_u64(), ts | 7);
    // Disjoint fields: the OR is addition with no carry.
    assert_eq!(sf.as_u64(), ts + 7);
    // On arbitrary inputs the OR is taken verbatim.
    assert_eq!(Snowflake::assemble(u64::MAX, 0).as_u64(), u64::MAX);
    assert_eq!(Snowflake::assemble(0, 0x001F_FFFF).as_u64(), 0x001F_FFFF);
}

#[test]
fn default_generation_obeys_the_layout() {
    let val = Snowflake::generate_default()
        .expect("clock should be past the epoch")
        .as_u64();
    assert_eq!((val >> 63) & 1, 0);
    assert_eq!((val >> 21) & 1, 0);
    let timestamp_mask: u64 = ((1u64 << 41) - 1) << 22;
    assert_ne!(val & timestamp_mask, 0);
}

#[test]
fn random_mask_matches_the_21_bit_space() {
    assert_eq!(RANDOM_MASK, 2_097_151);
}
