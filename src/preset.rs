//! Encoder identifiers and the vendor preset configuration, with the merge
//! that overrides the bitrate fields and carries everything else verbatim.
use vstd::prelude::*;

verus! {

/// A 128-bit identifier in the driver's GUID layout.
#[derive(Clone, Copy, Debug, PartialEq, Eq, Structural)]
pub struct Guid {
    pub data1: u32,
    pub data2: u16,
    pub data3: u16,
    /// The eight trailing bytes, the first one most significant.
    pub data4: u64,
}

/// The H.264 codec identifier.
pub open spec fn spec_codec_h264() -> Guid {
    Guid {
        data1: 0x6bc82762,
        data2: 0x4e63,
        data3: 0x4d7b,
        data4: 0x9425_bda9_975f_7603,
    }
}

/// The low-latency preset identifier.
pub open spec fn spec_preset_low_latency() -> Guid {
    Guid {
        data1: 0x49df21c5,
        data2: 0x6dfa,
        data3: 0x4feb,
        data4: 0x9787_6acc_9eff_b726,
    }
}

/// The H.264 codec identifier.
pub fn codec_h264() -> (r: Guid)
    ensures
        r == spec_codec_h264(),
{
    Guid {
        data1: 0x6bc82762,
        data2: 0x4e63,
        data3: 0x4d7b,
        data4: 0x9425_bda9_975f_7603,
    }
}

/// The low-latency preset identifier.
pub fn preset_low_latency() -> (r: Guid)
    ensures
        r == spec_preset_low_latency(),
{
    Guid {
        data1: 0x49df21c5,
        data2: 0x6dfa,
        data3: 0x4feb,
        data4: 0x9787_6acc_9eff_b726,
    }
}

/// Whether `codec` is among the identifiers the driver enumerated.
pub fn codec_supported(supported: &Vec<Guid>, codec: &Guid) -> (r: bool)
    ensures
        r == supported@.contains(*codec),
{
    let mut i: usize = 0;
    while i < supported.len()
        invariant
            i <= supported@.len(),
            forall|j: int| 0 <= j < i ==> supported@[j] != *codec,
        decreases supported@.len() - i,
    {
        if supported[i] == *codec {
            return true;
        }
        i = i + 1;
    }
    false
}

/// Rate-control part of an encoder configuration. The fields the library
/// reads or writes are named; the rest of the driver's structure is carried
/// as bytes.
#[derive(Clone, Debug)]
pub struct RateControlParams {
    pub version: u32,
    pub rate_control_mode: u32,
    pub average_bit_rate: u32,
    pub max_bit_rate: u32,
    pub vbv_buffer_size: u32,
    pub vbv_initial_delay: u32,
    pub other: Vec<u8>,
}

/// An encoder preset configuration as the driver hands it out for a codec
/// and preset pair. Codec-specific and reserved parts are carried as bytes.
#[derive(Clone, Debug)]
pub struct EncoderPresetConfig {
    pub version: u32,
    pub config_version: u32,
    pub profile: Guid,
    pub gop_length: u32,
    pub frame_interval_p: i32,
    pub mono_chrome_encoding: u32,
    pub frame_field_mode: u32,
    pub mv_precision: u32,
    pub rate_control: RateControlParams,
    pub codec_config: Vec<u8>,
    pub reserved: Vec<u8>,
}

/// `config` with its average and maximum bitrate replaced, every other
/// field untouched.
pub open spec fn with_bitrate(config: EncoderPresetConfig, average_bps: u32, max_bps: u32)
    -> EncoderPresetConfig
{
    EncoderPresetConfig {
        rate_control: RateControlParams {
            average_bit_rate: average_bps,
            max_bit_rate: max_bps,
            ..config.rate_control
        },
        ..config
    }
}

/// Replaces the average and maximum bitrate of a preset configuration.
/// Every other field, reserved bytes included, is carried over as it was;
/// the values are not range-checked, the driver being the authority on them.
pub fn override_bitrate(config: EncoderPresetConfig, average_bps: u32, max_bps: u32) -> (r:
    EncoderPresetConfig)
    ensures
        r == with_bitrate(config, average_bps, max_bps),
        r.rate_control.average_bit_rate == average_bps,
        r.rate_control.max_bit_rate == max_bps,
{
    let mut r = config;
    r.rate_control.average_bit_rate = average_bps;
    r.rate_control.max_bit_rate = max_bps;
    r
}

/// Overriding the bitrate touches those two fields alone: every other field
/// of the result, nested and reserved ones included, equals the baseline's.
pub proof fn lemma_override_keeps_other_fields(
    config: EncoderPresetConfig,
    average_bps: u32,
    max_bps: u32,
)
    ensures
        ({
            let r = with_bitrate(config, average_bps, max_bps);
            &&& r.version == config.version
            &&& r.config_version == config.config_version
            &&& r.profile == config.profile
            &&& r.gop_length == config.gop_length
            &&& r.frame_interval_p == config.frame_interval_p
            &&& r.mono_chrome_encoding == config.mono_chrome_encoding
            &&& r.frame_field_mode == config.frame_field_mode
            &&& r.mv_precision == config.mv_precision
            &&& r.codec_config@ == config.codec_config@
            &&& r.reserved@ == config.reserved@
            &&& r.rate_control.version == config.rate_control.version
            &&& r.rate_control.rate_control_mode == config.rate_control.rate_control_mode
            &&& r.rate_control.vbv_buffer_size == config.rate_control.vbv_buffer_size
            &&& r.rate_control.vbv_initial_delay == config.rate_control.vbv_initial_delay
            &&& r.rate_control.other@ == config.rate_control.other@
            &&& r.rate_control.average_bit_rate == average_bps
            &&& r.rate_control.max_bit_rate == max_bps
        }),
{
}

} // verus!
