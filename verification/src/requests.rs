//! Encoders of the request payloads sent to the driver.  Each payload is the
//! packed, little-endian image of the driver's parameter structure.

use crate::guid::{guid_bytes, lemma_guid_bytes_len, put_guid, Guid};
use crate::protocol::{ALLUNO_VDD_DEVICE_NAME_LEN, ALLUNO_VDD_EDID_MAX_SIZE, ALLUNO_VDD_SERIAL_LEN};
use crate::text::{fixed_field, name_field};
use crate::types::{default_hdr_metadata, HdrMetadata, VddError};
use crate::wire::{
    le32, le_i64, lemma_field_encodings, lemma_zero_fields, put_bytes, put_i64, put_u32,
    put_zeros, read_le32,
};
use vstd::prelude::*;
use vstd::string::StringSliceAdditionalSpecFns;

verus! {

/// Bit depth that a display is created with: 8 when none (0) is given.
pub open spec fn spec_effective_bits_per_channel(bits_per_channel: u32) -> u32 {
    if bits_per_channel == 0 {
        8
    } else {
        bits_per_channel
    }
}

/// Bit depth that a display is created with: 8 when none (0) is given.
pub fn effective_bits_per_channel(bits_per_channel: u32) -> (b: u32)
    ensures
        b == spec_effective_bits_per_channel(bits_per_channel),
        bits_per_channel == 0 ==> b == 8,
        bits_per_channel != 0 ==> b == bits_per_channel,
{
    if bits_per_channel == 0 {
        8
    } else {
        bits_per_channel
    }
}

/// Whether adding a display with the requested bit depth also switches on
/// Advanced Color (HDR) for it: displays of 10 or more bits per channel get
/// it.
pub fn needs_advanced_color(bits_per_channel: u32) -> (b: bool)
    ensures
        b == (spec_effective_bits_per_channel(bits_per_channel) >= 10),
        b == (bits_per_channel >= 10),
{
    effective_bits_per_channel(bits_per_channel) >= 10
}

/// The bit depth that a display is created with is the requested one
/// whenever one is given, and 8 when none (0) is given.
pub proof fn lemma_effective_bits_per_channel(bits_per_channel: u32)
    ensures
        bits_per_channel != 0 ==> spec_effective_bits_per_channel(bits_per_channel)
            == bits_per_channel,
        spec_effective_bits_per_channel(0) == 8,
        (spec_effective_bits_per_channel(bits_per_channel) >= 10) == (bits_per_channel >= 10),
{
}

/// Payload of the add-display request.
pub open spec fn add_display_bytes(
    width: u32,
    height: u32,
    refresh_rate: u32,
    name: Seq<u8>,
    serial: Seq<u8>,
    bits_per_channel: u32,
    hdr_mode: u32,
    monitor_guid: Guid,
    vsync_numerator: u32,
    vsync_denominator: u32,
) -> Seq<u8> {
    le32(width) + le32(height) + le32(refresh_rate) + guid_bytes(monitor_guid) + fixed_field(
        name,
        14,
    ) + fixed_field(serial, 14) + le32(spec_effective_bits_per_channel(bits_per_channel)) + le32(
        hdr_mode,
    ) + le32(vsync_numerator) + le32(vsync_denominator)
}

/// Encodes the add-display request: the mode, the monitor GUID, the UTF-8
/// bytes of `name` and `serial` each in a 14-byte field (cut or zero-padded),
/// the bit depth (8 when 0 is given), the HDR mode and the vsync fraction.
pub fn add_display_request(
    width: u32,
    height: u32,
    refresh_rate: u32,
    name: &str,
    serial: &str,
    bits_per_channel: u32,
    hdr_mode: u32,
    monitor_guid: &Guid,
    vsync_numerator: u32,
    vsync_denominator: u32,
) -> (req: Vec<u8>)
    ensures
        req@ == add_display_bytes(
            width,
            height,
            refresh_rate,
            name.spec_bytes(),
            serial.spec_bytes(),
            bits_per_channel,
            hdr_mode,
            *monitor_guid,
            vsync_numerator,
            vsync_denominator,
        ),
        req@.len() == 72,
{
    let mut req: Vec<u8> = Vec::new();
    put_u32(&mut req, width);
    put_u32(&mut req, height);
    put_u32(&mut req, refresh_rate);
    put_guid(&mut req, monitor_guid);
    let name_bytes = name_field(name, ALLUNO_VDD_DEVICE_NAME_LEN);
    put_bytes(&mut req, name_bytes.as_slice());
    let serial_bytes = name_field(serial, ALLUNO_VDD_SERIAL_LEN);
    put_bytes(&mut req, serial_bytes.as_slice());
    put_u32(&mut req, effective_bits_per_channel(bits_per_channel));
    put_u32(&mut req, hdr_mode);
    put_u32(&mut req, vsync_numerator);
    put_u32(&mut req, vsync_denominator);
    proof {
        lemma_field_encodings();
        lemma_guid_bytes_len(*monitor_guid);
        assert(req@ =~= add_display_bytes(
            width,
            height,
            refresh_rate,
            name.spec_bytes(),
            serial.spec_bytes(),
            bits_per_channel,
            hdr_mode,
            *monitor_guid,
            vsync_numerator,
            vsync_denominator,
        ));
    }
    req
}

/// Layout of the add-display payload: 72 bytes holding the width at byte 0,
/// the height at 4, the refresh rate at 8, the monitor GUID at 12..28, the
/// name field at 28..42, the serial field at 42..56, the bit depth at 56 (the
/// requested one, or 8 when 0 is given), the HDR mode at 60 and the vsync
/// numerator and denominator at 64 and 68.
pub proof fn lemma_add_display_layout(
    width: u32,
    height: u32,
    refresh_rate: u32,
    name: Seq<u8>,
    serial: Seq<u8>,
    bits_per_channel: u32,
    hdr_mode: u32,
    monitor_guid: Guid,
    vsync_numerator: u32,
    vsync_denominator: u32,
)
    ensures
        ({
            let s = add_display_bytes(
                width,
                height,
                refresh_rate,
                name,
                serial,
                bits_per_channel,
                hdr_mode,
                monitor_guid,
                vsync_numerator,
                vsync_denominator,
            );
            &&& s.len() == 72
            &&& read_le32(s.subrange(0, 4)) == width
            &&& read_le32(s.subrange(4, 8)) == height
            &&& read_le32(s.subrange(8, 12)) == refresh_rate
            &&& s.subrange(12, 28) == guid_bytes(monitor_guid)
            &&& s.subrange(28, 42) == fixed_field(name, 14)
            &&& s.subrange(42, 56) == fixed_field(serial, 14)
            &&& read_le32(s.subrange(56, 60)) == (if bits_per_channel == 0 {
                8
            } else {
                bits_per_channel
            })
            &&& read_le32(s.subrange(60, 64)) == hdr_mode
            &&& read_le32(s.subrange(64, 68)) == vsync_numerator
            &&& read_le32(s.subrange(68, 72)) == vsync_denominator
        }),
{
    lemma_field_encodings();
    lemma_guid_bytes_len(monitor_guid);
    let s = add_display_bytes(
        width,
        height,
        refresh_rate,
        name,
        serial,
        bits_per_channel,
        hdr_mode,
        monitor_guid,
        vsync_numerator,
        vsync_denominator,
    );
    let bpc = spec_effective_bits_per_channel(bits_per_channel);
    assert(fixed_field(name, 14).len() == 14);
    assert(fixed_field(serial, 14).len() == 14);
    assert(s.subrange(0, 4) =~= le32(width));
    assert(s.subrange(4, 8) =~= le32(height));
    assert(s.subrange(8, 12) =~= le32(refresh_rate));
    assert(s.subrange(12, 28) =~= guid_bytes(monitor_guid));
    assert(s.subrange(28, 42) =~= fixed_field(name, 14));
    assert(s.subrange(42, 56) =~= fixed_field(serial, 14));
    assert(s.subrange(56, 60) =~= le32(bpc));
    assert(s.subrange(60, 64) =~= le32(hdr_mode));
    assert(s.subrange(64, 68) =~= le32(vsync_numerator));
    assert(s.subrange(68, 72) =~= le32(vsync_denominator));
}

/// Encodes the remove-display request: the GUID of the monitor.
pub fn remove_display_request(monitor_guid: &Guid) -> (req: Vec<u8>)
    ensures
        req@ == guid_bytes(*monitor_guid),
        req@.len() == 16,
{
    let mut req: Vec<u8> = Vec::new();
    put_guid(&mut req, monitor_guid);
    proof {
        lemma_guid_bytes_len(*monitor_guid);
        assert(req@ =~= guid_bytes(*monitor_guid));
    }
    req
}

/// Payload of the update-mode request.
pub open spec fn update_mode_bytes(
    monitor_guid: Guid,
    width: u32,
    height: u32,
    refresh_rate: u32,
    bits_per_channel: u32,
    hdr_mode: u32,
    vsync_numerator: u32,
    vsync_denominator: u32,
) -> Seq<u8> {
    guid_bytes(monitor_guid) + le32(width) + le32(height) + le32(refresh_rate) + le32(
        bits_per_channel,
    ) + le32(hdr_mode) + le32(vsync_numerator) + le32(vsync_denominator)
}

/// Encodes the update-mode request.  The values are passed on as given; the
/// driver reads 0 as "keep" for the mode fields and 0xFF as "keep" for the
/// HDR mode.
pub fn update_mode_request(
    monitor_guid: &Guid,
    width: u32,
    height: u32,
    refresh_rate: u32,
    bits_per_channel: u32,
    hdr_mode: u32,
    vsync_numerator: u32,
    vsync_denominator: u32,
) -> (req: Vec<u8>)
    ensures
        req@ == update_mode_bytes(
            *monitor_guid,
            width,
            height,
            refresh_rate,
            bits_per_channel,
            hdr_mode,
            vsync_numerator,
            vsync_denominator,
        ),
        req@.len() == 44,
{
    let mut req: Vec<u8> = Vec::new();
    put_guid(&mut req, monitor_guid);
    put_u32(&mut req, width);
    put_u32(&mut req, height);
    put_u32(&mut req, refresh_rate);
    put_u32(&mut req, bits_per_channel);
    put_u32(&mut req, hdr_mode);
    put_u32(&mut req, vsync_numerator);
    put_u32(&mut req, vsync_denominator);
    proof {
        lemma_field_encodings();
        lemma_guid_bytes_len(*monitor_guid);
        assert(req@ =~= update_mode_bytes(
            *monitor_guid,
            width,
            height,
            refresh_rate,
            bits_per_channel,
            hdr_mode,
            vsync_numerator,
            vsync_denominator,
        ));
    }
    req
}

/// Layout of the update-mode payload: 44 bytes holding the monitor GUID at
/// bytes 0..16, then the width at 16, the height at 20, the refresh rate at
/// 24, the bit depth at 28, the HDR mode at 32, the vsync numerator at 36 and
/// the vsync denominator at 40.
pub proof fn lemma_update_mode_layout(
    monitor_guid: Guid,
    width: u32,
    height: u32,
    refresh_rate: u32,
    bits_per_channel: u32,
    hdr_mode: u32,
    vsync_numerator: u32,
    vsync_denominator: u32,
)
    ensures
        ({
            let s = update_mode_bytes(
                monitor_guid,
                width,
                height,
                refresh_rate,
                bits_per_channel,
                hdr_mode,
                vsync_numerator,
                vsync_denominator,
            );
            &&& s.len() == 44
            &&& s.subrange(0, 16) == guid_bytes(monitor_guid)
            &&& read_le32(s.subrange(16, 20)) == width
            &&& read_le32(s.subrange(20, 24)) == height
            &&& read_le32(s.subrange(24, 28)) == refresh_rate
            &&& read_le32(s.subrange(28, 32)) == bits_per_channel
            &&& read_le32(s.subrange(32, 36)) == hdr_mode
            &&& read_le32(s.subrange(36, 40)) == vsync_numerator
            &&& read_le32(s.subrange(40, 44)) == vsync_denominator
        }),
{
    lemma_field_encodings();
    lemma_guid_bytes_len(monitor_guid);
    let s = update_mode_bytes(
        monitor_guid,
        width,
        height,
        refresh_rate,
        bits_per_channel,
        hdr_mode,
        vsync_numerator,
        vsync_denominator,
    );
    assert(s.subrange(0, 16) =~= guid_bytes(monitor_guid));
    assert(s.subrange(16, 20) =~= le32(width));
    assert(s.subrange(20, 24) =~= le32(height));
    assert(s.subrange(24, 28) =~= le32(refresh_rate));
    assert(s.subrange(28, 32) =~= le32(bits_per_channel));
    assert(s.subrange(32, 36) =~= le32(hdr_mode));
    assert(s.subrange(36, 40) =~= le32(vsync_numerator));
    assert(s.subrange(40, 44) =~= le32(vsync_denominator));
}

/// Encodes the set-render-adapter request: the LUID of the adapter.
pub fn set_render_adapter_request(adapter_luid: i64) -> (req: Vec<u8>)
    ensures
        req@ == le_i64(adapter_luid),
        req@.len() == 8,
{
    let mut req: Vec<u8> = Vec::new();
    put_i64(&mut req, adapter_luid);
    proof {
        lemma_field_encodings();
        assert(req@ =~= le_i64(adapter_luid));
    }
    req
}

/// Encodes the set-watchdog request: the timeout in milliseconds (0
/// switches the watchdog off).
pub fn set_watchdog_request(timeout_ms: u32) -> (req: Vec<u8>)
    ensures
        req@ == le32(timeout_ms),
        req@.len() == 4,
{
    let mut req: Vec<u8> = Vec::new();
    put_u32(&mut req, timeout_ms);
    proof {
        lemma_field_encodings();
        assert(req@ =~= le32(timeout_ms));
    }
    req
}

/// The 48-byte ST.2086 metadata block.
pub open spec fn hdr_metadata_bytes(m: HdrMetadata) -> Seq<u8> {
    le32(m.red_primary_x) + le32(m.red_primary_y) + le32(m.green_primary_x) + le32(
        m.green_primary_y,
    ) + le32(m.blue_primary_x) + le32(m.blue_primary_y) + le32(m.white_point_x) + le32(
        m.white_point_y,
    ) + le32(m.max_luminance) + le32(m.min_luminance_x10000) + le32(m.max_content_light_level)
        + le32(m.max_frame_avg_light_level)
}

/// Payload of the set-HDR request, with the metadata flag and block.
pub open spec fn set_hdr_bytes(
    monitor_guid: Guid,
    hdr_mode: u32,
    bits_per_channel: u32,
    has_metadata: u32,
    metadata: Seq<u8>,
) -> Seq<u8> {
    guid_bytes(monitor_guid) + le32(hdr_mode) + le32(bits_per_channel) + le32(has_metadata)
        + metadata
}

/// Layout of the ST.2086 metadata block: 48 bytes holding the twelve
/// metadata fields in order, field `k` at bytes `4k..4k+4`: the red, green
/// and blue primaries and the white point (each x then y), the maximum and
/// minimum luminance, the maximum content light level and the maximum frame
/// average light level.
pub proof fn lemma_hdr_metadata_layout(m: HdrMetadata)
    ensures
        ({
            let s = hdr_metadata_bytes(m);
            &&& s.len() == 48
            &&& read_le32(s.subrange(0, 4)) == m.red_primary_x
            &&& read_le32(s.subrange(4, 8)) == m.red_primary_y
            &&& read_le32(s.subrange(8, 12)) == m.green_primary_x
            &&& read_le32(s.subrange(12, 16)) == m.green_primary_y
            &&& read_le32(s.subrange(16, 20)) == m.blue_primary_x
            &&& read_le32(s.subrange(20, 24)) == m.blue_primary_y
            &&& read_le32(s.subrange(24, 28)) == m.white_point_x
            &&& read_le32(s.subrange(28, 32)) == m.white_point_y
            &&& read_le32(s.subrange(32, 36)) == m.max_luminance
            &&& read_le32(s.subrange(36, 40)) == m.min_luminance_x10000
            &&& read_le32(s.subrange(40, 44)) == m.max_content_light_level
            &&& read_le32(s.subrange(44, 48)) == m.max_frame_avg_light_level
        }),
{
    lemma_field_encodings();
    let s = hdr_metadata_bytes(m);
    assert(s.subrange(0, 4) =~= le32(m.red_primary_x));
    assert(s.subrange(4, 8) =~= le32(m.red_primary_y));
    assert(s.subrange(8, 12) =~= le32(m.green_primary_x));
    assert(s.subrange(12, 16) =~= le32(m.green_primary_y));
    assert(s.subrange(16, 20) =~= le32(m.blue_primary_x));
    assert(s.subrange(20, 24) =~= le32(m.blue_primary_y));
    assert(s.subrange(24, 28) =~= le32(m.white_point_x));
    assert(s.subrange(28, 32) =~= le32(m.white_point_y));
    assert(s.subrange(32, 36) =~= le32(m.max_luminance));
    assert(s.subrange(36, 40) =~= le32(m.min_luminance_x10000));
    assert(s.subrange(40, 44) =~= le32(m.max_content_light_level));
    assert(s.subrange(44, 48) =~= le32(m.max_frame_avg_light_level));
}

/// Layout of the set-HDR payload: the monitor GUID at bytes 0..16, the HDR
/// mode at 16, the bit depth at 20, the metadata flag at 24 and the 48-byte
/// metadata block at 28..76.
pub proof fn lemma_set_hdr_layout(
    monitor_guid: Guid,
    hdr_mode: u32,
    bits_per_channel: u32,
    has_metadata: u32,
    metadata: Seq<u8>,
)
    requires
        metadata.len() == 48,
    ensures
        ({
            let s = set_hdr_bytes(monitor_guid, hdr_mode, bits_per_channel, has_metadata, metadata);
            &&& s.len() == 76
            &&& s.subrange(0, 16) == guid_bytes(monitor_guid)
            &&& read_le32(s.subrange(16, 20)) == hdr_mode
            &&& read_le32(s.subrange(20, 24)) == bits_per_channel
            &&& read_le32(s.subrange(24, 28)) == has_metadata
            &&& s.subrange(28, 76) == metadata
        }),
{
    lemma_field_encodings();
    lemma_guid_bytes_len(monitor_guid);
    let s = set_hdr_bytes(monitor_guid, hdr_mode, bits_per_channel, has_metadata, metadata);
    assert(s.subrange(0, 16) =~= guid_bytes(monitor_guid));
    assert(s.subrange(16, 20) =~= le32(hdr_mode));
    assert(s.subrange(20, 24) =~= le32(bits_per_channel));
    assert(s.subrange(24, 28) =~= le32(has_metadata));
    assert(s.subrange(28, 76) =~= metadata);
}

fn put_hdr_metadata(out: &mut Vec<u8>, m: &HdrMetadata)
    ensures
        final(out)@ == old(out)@ + hdr_metadata_bytes(*m),
{
    put_u32(out, m.red_primary_x);
    put_u32(out, m.red_primary_y);
    put_u32(out, m.green_primary_x);
    put_u32(out, m.green_primary_y);
    put_u32(out, m.blue_primary_x);
    put_u32(out, m.blue_primary_y);
    put_u32(out, m.white_point_x);
    put_u32(out, m.white_point_y);
    put_u32(out, m.max_luminance);
    put_u32(out, m.min_luminance_x10000);
    put_u32(out, m.max_content_light_level);
    put_u32(out, m.max_frame_avg_light_level);
    assert(out@ =~= old(out)@ + hdr_metadata_bytes(*m));
}

/// Encodes the set-HDR request without metadata: the metadata flag is 0 and
/// the metadata block is all zero bytes.
pub fn set_hdr_request(monitor_guid: &Guid, hdr_mode: u32, bits_per_channel: u32) -> (req: Vec<
    u8,
>)
    ensures
        req@ == set_hdr_bytes(
            *monitor_guid,
            hdr_mode,
            bits_per_channel,
            0,
            Seq::new(48, |i: int| 0u8),
        ),
        req@.len() == 76,
{
    let mut req: Vec<u8> = Vec::new();
    put_guid(&mut req, monitor_guid);
    put_u32(&mut req, hdr_mode);
    put_u32(&mut req, bits_per_channel);
    put_u32(&mut req, 0);
    put_zeros(&mut req, 48);
    proof {
        lemma_field_encodings();
        lemma_guid_bytes_len(*monitor_guid);
        assert(req@ =~= set_hdr_bytes(
            *monitor_guid,
            hdr_mode,
            bits_per_channel,
            0,
            Seq::new(48, |i: int| 0u8),
        ));
    }
    req
}

/// Encodes the set-HDR request with ST.2086 mastering metadata: the metadata
/// flag is 1 and the block holds the twelve metadata fields in order.
pub fn set_hdr_with_metadata_request(
    monitor_guid: &Guid,
    hdr_mode: u32,
    bits_per_channel: u32,
    metadata: &HdrMetadata,
) -> (req: Vec<u8>)
    ensures
        req@ == set_hdr_bytes(
            *monitor_guid,
            hdr_mode,
            bits_per_channel,
            1,
            hdr_metadata_bytes(*metadata),
        ),
        req@.len() == 76,
{
    let mut req: Vec<u8> = Vec::new();
    put_guid(&mut req, monitor_guid);
    put_u32(&mut req, hdr_mode);
    put_u32(&mut req, bits_per_channel);
    put_u32(&mut req, 1);
    put_hdr_metadata(&mut req, metadata);
    proof {
        lemma_field_encodings();
        lemma_guid_bytes_len(*monitor_guid);
        assert(req@ =~= set_hdr_bytes(
            *monitor_guid,
            hdr_mode,
            bits_per_channel,
            1,
            hdr_metadata_bytes(*metadata),
        ));
    }
    req
}

/// The EDID block sizes that the driver accepts.
pub open spec fn valid_edid_len(len: nat) -> bool {
    len == 128 || len == 256
}

/// Payload of the set-custom-EDID request.
pub open spec fn custom_edid_bytes(monitor_guid: Guid, edid: Seq<u8>) -> Seq<u8> {
    guid_bytes(monitor_guid) + le32(edid.len() as u32) + edid + Seq::new(
        (256 - edid.len()) as nat,
        |i: int| 0u8,
    )
}

/// Layout of the set-custom-EDID payload: 276 bytes holding the monitor GUID
/// at bytes 0..16, the EDID length at 16, the EDID block from byte 20 on, and
/// zero bytes after it up to the end of the 256-byte EDID field.
pub proof fn lemma_custom_edid_layout(monitor_guid: Guid, edid: Seq<u8>)
    requires
        valid_edid_len(edid.len()),
    ensures
        ({
            let s = custom_edid_bytes(monitor_guid, edid);
            &&& s.len() == 276
            &&& s.subrange(0, 16) == guid_bytes(monitor_guid)
            &&& read_le32(s.subrange(16, 20)) == edid.len()
            &&& s.subrange(20, 20 + edid.len() as int) == edid
            &&& forall|i: int| 20 + edid.len() <= i < 276 ==> s[i] == 0
        }),
{
    lemma_field_encodings();
    lemma_guid_bytes_len(monitor_guid);
    let s = custom_edid_bytes(monitor_guid, edid);
    assert(s.subrange(0, 16) =~= guid_bytes(monitor_guid));
    assert(s.subrange(16, 20) =~= le32(edid.len() as u32));
    assert(s.subrange(20, 20 + edid.len() as int) =~= edid);
}

/// Encodes the set-custom-EDID request: the monitor GUID, the EDID length,
/// and the EDID block zero-padded to 256 bytes.  An EDID that is neither 128
/// nor 256 bytes long is refused.
pub fn set_custom_edid_request(monitor_guid: &Guid, edid: &[u8]) -> (res: Result<
    Vec<u8>,
    VddError,
>)
    ensures
        res is Err <==> !valid_edid_len(edid@.len()),
        res matches Err(e) ==> e == VddError::InvalidEdidSize,
        res matches Ok(req) ==> req@ == custom_edid_bytes(*monitor_guid, edid@) && req@.len()
            == 276,
{
    if edid.len() != 128 && edid.len() != 256 {
        return Err(VddError::InvalidEdidSize);
    }
    let mut req: Vec<u8> = Vec::new();
    put_guid(&mut req, monitor_guid);
    put_u32(&mut req, edid.len() as u32);
    put_bytes(&mut req, edid);
    put_zeros(&mut req, ALLUNO_VDD_EDID_MAX_SIZE - edid.len());
    proof {
        lemma_field_encodings();
        lemma_guid_bytes_len(*monitor_guid);
        assert(req@ =~= custom_edid_bytes(*monitor_guid, edid@));
    }
    Ok(req)
}

/// A set-HDR request without metadata sends what the request with the
/// default (all-zero) metadata sends, except for the metadata flag: the
/// default metadata block is 48 zero bytes, and the two 76-byte payloads
/// differ at most in the flag field, which is 0 in the one and 1 in the
/// other.
pub proof fn lemma_set_hdr_is_default_metadata(
    monitor_guid: Guid,
    hdr_mode: u32,
    bits_per_channel: u32,
)
    ensures
        hdr_metadata_bytes(default_hdr_metadata()) == Seq::new(48, |i: int| 0u8),
        set_hdr_bytes(monitor_guid, hdr_mode, bits_per_channel, 0, Seq::new(48, |i: int| 0u8))
            == set_hdr_bytes(
            monitor_guid,
            hdr_mode,
            bits_per_channel,
            0,
            hdr_metadata_bytes(default_hdr_metadata()),
        ),
        ({
            let plain = set_hdr_bytes(
                monitor_guid,
                hdr_mode,
                bits_per_channel,
                0,
                Seq::new(48, |i: int| 0u8),
            );
            let with = set_hdr_bytes(
                monitor_guid,
                hdr_mode,
                bits_per_channel,
                1,
                hdr_metadata_bytes(default_hdr_metadata()),
            );
            &&& plain.len() == 76 && with.len() == 76
            &&& plain.subrange(0, 24) == with.subrange(0, 24)
            &&& plain.subrange(28, 76) == with.subrange(28, 76)
            &&& plain.subrange(24, 28) == le32(0)
            &&& with.subrange(24, 28) == le32(1)
        }),
{
    lemma_field_encodings();
    lemma_zero_fields();
    lemma_guid_bytes_len(monitor_guid);
    assert(hdr_metadata_bytes(default_hdr_metadata()) =~= Seq::new(48, |i: int| 0u8));
    let zeros = Seq::new(48, |i: int| 0u8);
    let plain = set_hdr_bytes(monitor_guid, hdr_mode, bits_per_channel, 0, zeros);
    let with = set_hdr_bytes(monitor_guid, hdr_mode, bits_per_channel, 1, zeros);
    assert(plain.subrange(0, 24) =~= with.subrange(0, 24));
    assert(plain.subrange(28, 76) =~= with.subrange(28, 76));
    assert(plain.subrange(24, 28) =~= le32(0));
    assert(with.subrange(24, 28) =~= le32(1));
}

} // verus!
