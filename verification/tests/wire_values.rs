use clack_extensions::ambisonic::{
    AmbisonicConfig, AmbisonicNormalization, AmbisonicOrdering, RawAmbisonicConfig,
};
use clack_extensions::surround::{SurroundChannel, SurroundChannels};
use clack_extensions::surround::plugin::SurroundMapWriter;

#[test]
fn ordering_known_codes_round_trip() {
    for code in [0u32, 1] {
        let decoded = AmbisonicOrdering::from_raw(code).expect("known code must decode");
        assert_eq!(decoded.to_raw(), code);
    }
    assert_eq!(AmbisonicOrdering::from_raw(0), Some(AmbisonicOrdering::FuMa));
    assert_eq!(AmbisonicOrdering::from_raw(1), Some(AmbisonicOrdering::ACN));
}

#[test]
fn ordering_unknown_codes_are_invalid() {
    for code in [2u32, 3, 17, u32::MAX] {
        assert_eq!(AmbisonicOrdering::from_raw(code), None);
    }
}

#[test]
fn normalization_known_codes_round_trip() {
    for code in [0u32, 1, 2, 3, 4] {
        let decoded = AmbisonicNormalization::from_raw(code).expect("known code must decode");
        assert_eq!(decoded.to_raw(), code);
    }
    assert_eq!(AmbisonicNormalization::from_raw(0), Some(AmbisonicNormalization::MaxN));
    assert_eq!(AmbisonicNormalization::from_raw(1), Some(AmbisonicNormalization::SN3D));
    assert_eq!(AmbisonicNormalization::from_raw(2), Some(AmbisonicNormalization::N3D));
    assert_eq!(AmbisonicNormalization::from_raw(3), Some(AmbisonicNormalization::SN2D));
    assert_eq!(AmbisonicNormalization::from_raw(4), Some(AmbisonicNormalization::N2D));
}

#[test]
fn normalization_unknown_codes_are_invalid() {
    for code in [5u32, 6, 100, u32::MAX] {
        assert_eq!(AmbisonicNormalization::from_raw(code), None);
    }
}

#[test]
fn surround_channel_known_codes_round_trip() {
    for code in 0u8..18 {
        let decoded = SurroundChannel::from_raw(code).expect("known code must decode");
        assert_eq!(decoded.to_raw(), code);
    }
    assert_eq!(SurroundChannel::from_raw(0), Some(SurroundChannel::FrontLeft));
    assert_eq!(SurroundChannel::from_raw(3), Some(SurroundChannel::LowFrequency));
    assert_eq!(SurroundChannel::from_raw(17), Some(SurroundChannel::TopBackRight));
}

#[test]
fn surround_channel_unknown_codes_are_invalid() {
    for code in [18u8, 19, 42, u8::MAX] {
        assert_eq!(SurroundChannel::from_raw(code), None);
    }
}

#[test]
fn config_decodes_only_when_both_fields_valid() {
    let valid = RawAmbisonicConfig { ordering: 1, normalization: 1 };
    assert_eq!(
        AmbisonicConfig::from_raw(valid),
        Some(AmbisonicConfig {
            ordering: AmbisonicOrdering::ACN,
            normalization: AmbisonicNormalization::SN3D,
        })
    );

    let bad_ordering = RawAmbisonicConfig { ordering: 9, normalization: 1 };
    assert_eq!(AmbisonicConfig::from_raw(bad_ordering), None);

    let bad_normalization = RawAmbisonicConfig { ordering: 0, normalization: 9 };
    assert_eq!(AmbisonicConfig::from_raw(bad_normalization), None);

    let both_bad = RawAmbisonicConfig { ordering: 9, normalization: 9 };
    assert_eq!(AmbisonicConfig::from_raw(both_bad), None);
}

#[test]
fn config_wire_round_trip() {
    let config = AmbisonicConfig {
        ordering: AmbisonicOrdering::FuMa,
        normalization: AmbisonicNormalization::N2D,
    };
    let raw = config.to_raw();
    assert_eq!(raw, RawAmbisonicConfig { ordering: 0, normalization: 4 });
    assert_eq!(AmbisonicConfig::from_raw(raw), Some(config));
}

#[test]
fn channel_set_membership_matches_sequence() {
    let channels = [
        SurroundChannel::FrontLeft,
        SurroundChannel::SideRight,
        SurroundChannel::FrontLeft,
    ];
    let mask = SurroundChannels::from_channels(&channels);
    assert!(mask.contains(SurroundChannel::FrontLeft));
    assert!(mask.contains(SurroundChannel::SideRight));
    assert!(!mask.contains(SurroundChannel::FrontRight));
    assert!(!mask.contains(SurroundChannel::TopBackRight));
    assert_eq!(mask.bits(), (1u64 << 0) | (1u64 << 10));

    let deduplicated = SurroundChannels::from_channels(&[
        SurroundChannel::FrontLeft,
        SurroundChannel::SideRight,
    ]);
    assert_eq!(mask, deduplicated);
}

#[test]
fn channel_set_extend_is_a_union() {
    let mut mask = SurroundChannels::from_channel(SurroundChannel::FrontCenter);
    mask.extend(&[SurroundChannel::BackLeft, SurroundChannel::FrontCenter]);
    assert_eq!(mask.bits(), (1u64 << 2) | (1u64 << 4));
}

#[test]
fn single_channel_conversion_sets_the_reserved_bit() {
    assert_eq!(
        SurroundChannels::from(SurroundChannel::TopCenter).bits(),
        1u64 << 11
    );
    assert_eq!(
        SurroundChannels::from_channel(SurroundChannel::TopBackRight).bits(),
        1u64 << 17
    );
}

#[test]
fn writer_with_zero_capacity_keeps_nothing() {
    let mut writer = SurroundMapWriter::new(0);
    writer.set(&[SurroundChannel::FrontLeft, SurroundChannel::FrontRight]);
    assert_eq!(writer.len(), 0);
    assert!(writer.is_empty());
    assert_eq!(writer.into_channels(), Vec::<SurroundChannel>::new());
}

#[test]
fn channel_set_wire_round_trip_is_lossless() {
    let mask = SurroundChannels::from_channels(&[
        SurroundChannel::FrontLeft,
        SurroundChannel::FrontRight,
        SurroundChannel::LowFrequency,
    ]);
    assert_eq!(SurroundChannels::from_bits_retain(mask.bits()), mask);
}

#[test]
fn unknown_mask_bit_survives_forwarding_but_not_decoding() {
    let wire = (1u64 << 2) | (1u64 << 9) | (1u64 << 40);
    let forwarded = SurroundChannels::from_bits_retain(wire);
    assert_eq!(forwarded.bits(), wire);

    let decoded = forwarded.to_channels();
    assert_eq!(
        decoded,
        vec![SurroundChannel::FrontCenter, SurroundChannel::SideLeft]
    );

    let reconstructed = SurroundChannels::from_channels(&decoded);
    assert_eq!(reconstructed.bits(), (1u64 << 2) | (1u64 << 9));
    assert_ne!(reconstructed.bits(), wire);
}

#[test]
fn empty_mask_decodes_to_no_channels() {
    let mask = SurroundChannels::empty();
    assert_eq!(mask.bits(), 0);
    assert_eq!(mask.to_channels(), Vec::<SurroundChannel>::new());
}

#[test]
fn writer_truncates_at_capacity() {
    let eight = [
        SurroundChannel::FrontLeft,
        SurroundChannel::FrontRight,
        SurroundChannel::FrontCenter,
        SurroundChannel::LowFrequency,
        SurroundChannel::BackLeft,
        SurroundChannel::BackRight,
        SurroundChannel::SideLeft,
        SurroundChannel::SideRight,
    ];
    let mut writer = SurroundMapWriter::new(6);
    assert_eq!(writer.capacity(), 6);
    assert!(writer.is_empty());
    writer.set(&eight);
    assert_eq!(writer.len(), 6);
    assert_eq!(writer.capacity(), 6);
    assert_eq!(writer.into_channels(), eight[..6].to_vec());
}

#[test]
fn writer_keeps_short_input_whole() {
    let three = [
        SurroundChannel::FrontLeft,
        SurroundChannel::FrontRight,
        SurroundChannel::FrontCenter,
    ];
    let mut writer = SurroundMapWriter::new(6);
    writer.set(&three);
    assert_eq!(writer.len(), 3);
    assert!(!writer.is_empty());
    assert_eq!(writer.into_channels(), three.to_vec());
}

#[test]
fn writer_extend_appends_up_to_capacity() {
    let mut writer = SurroundMapWriter::new(3);
    writer.extend(&[SurroundChannel::FrontLeft, SurroundChannel::FrontRight]);
    assert_eq!(writer.len(), 2);
    writer.extend(&[SurroundChannel::BackLeft, SurroundChannel::BackRight]);
    assert_eq!(writer.len(), 3);
    assert_eq!(
        writer.into_channels(),
        vec![
            SurroundChannel::FrontLeft,
            SurroundChannel::FrontRight,
            SurroundChannel::BackLeft,
        ]
    );
}

#[test]
fn writer_clear_behaves_like_fresh() {
    let input = [
        SurroundChannel::TopFrontLeft,
        SurroundChannel::TopFrontCenter,
        SurroundChannel::TopFrontRight,
    ];
    let mut used = SurroundMapWriter::new(2);
    used.set(&[SurroundChannel::FrontLeft, SurroundChannel::FrontRight]);
    used.clear();
    assert_eq!(used.len(), 0);
    used.extend(&input);

    let mut fresh = SurroundMapWriter::new(2);
    fresh.extend(&input);

    assert_eq!(used.capacity(), fresh.capacity());
    assert_eq!(used.into_channels(), fresh.into_channels());
}
