use rhap::pcm::{
    convert_24bit_to_16bit, convert_32bit_to_16bit, convert_32bit_to_24bit, decode_s16le, decode_s24le,
    decode_s32le, fallback_format, requested_format, write_plan, ConversionBuffer, DeviceFormat, WritePlan,
};

#[test]
fn decode_s16le_reads_signed_samples() {
    let data = [0x34u8, 0x12, 0xff, 0xff, 0x00, 0x80, 0x7f];
    assert_eq!(decode_s16le(&data), vec![0x1234i16, -1, i16::MIN]);
}

#[test]
fn decode_s24le_sign_extends() {
    let data = [0x01u8, 0x02, 0x03, 0xff, 0xff, 0xff, 0x00, 0x00, 0x80, 0xaa];
    assert_eq!(decode_s24le(&data), vec![0x030201i32, -1, -8388608]);
}

#[test]
fn decode_s32le_reads_signed_samples() {
    let data = [0x78u8, 0x56, 0x34, 0x12, 0x00, 0x00, 0x00, 0x80];
    assert_eq!(decode_s32le(&data), vec![0x12345678i32, i32::MIN]);
}

#[test]
fn convert_24_to_16_keeps_the_high_bytes_of_whole_frames() {
    // Two stereo frames and one stray byte.
    let data = [
        0x11u8, 0x22, 0x33, 0xff, 0xff, 0xff, // frame 0: 0x332211, -1
        0x00, 0x00, 0x80, 0x00, 0x34, 0x12, // frame 1: -8388608, 0x123400
        0x99,
    ];
    assert_eq!(convert_24bit_to_16bit(&data, 2), vec![0x3322i16, -1, i16::MIN, 0x1234]);
}

#[test]
fn convert_24_to_16_drops_a_partial_frame() {
    let data = [0x00u8, 0x01, 0x02, 0x03, 0x04];
    assert_eq!(convert_24bit_to_16bit(&data, 2), Vec::<i16>::new());
    assert_eq!(convert_24bit_to_16bit(&data, 1), vec![0x0201i16]);
}

#[test]
fn convert_32_to_16_keeps_the_high_half() {
    let data = [0x78u8, 0x56, 0x34, 0x12, 0xff, 0xff, 0xff, 0xff];
    assert_eq!(convert_32bit_to_16bit(&data, 2), vec![0x1234i16, -1]);
    assert_eq!(convert_32bit_to_16bit(&data[..4], 2), Vec::<i16>::new());
}

#[test]
fn convert_32_to_24_keeps_three_high_bytes() {
    let data = [0x78u8, 0x56, 0x34, 0x12, 0x01, 0x00, 0x00, 0x80];
    assert_eq!(convert_32bit_to_24bit(&data, 1), vec![0x56u8, 0x34, 0x12, 0x00, 0x00, 0x80]);
    // The kept bytes read as a 24-bit sample give the 32-bit value shifted by eight bits.
    let as24 = decode_s24le(&convert_32bit_to_24bit(&data, 1));
    assert_eq!(as24, vec![0x12345678i32 >> 8, i32::MIN >> 8]);
}

#[test]
fn buffered_conversion_carries_partial_frames() {
    let whole: Vec<u8> = (0u8..30).collect();
    let expected = convert_24bit_to_16bit(&whole, 2);

    let mut buf = ConversionBuffer::new(2);
    let mut out = buf.convert_buffered_24bit_to_16bit(&whole[..7]);
    assert_eq!(out.len(), 2);
    assert_eq!(buf.pending.len(), 1);
    out.extend(buf.convert_buffered_24bit_to_16bit(&whole[7..20]));
    assert_eq!(buf.pending.len(), 2);
    out.extend(buf.convert_buffered_24bit_to_16bit(&whole[20..]));
    assert_eq!(buf.pending.len(), 0);
    assert_eq!(out, expected);
    assert_eq!(out.len(), 10);
}

#[test]
fn formats_and_fallbacks() {
    assert_eq!(requested_format(16), Some(DeviceFormat::S16LE));
    assert_eq!(requested_format(24), Some(DeviceFormat::S24_3LE));
    assert_eq!(requested_format(32), Some(DeviceFormat::S32LE));
    assert_eq!(requested_format(8), None);
    assert_eq!(fallback_format(DeviceFormat::S24_3LE), Some(DeviceFormat::S16LE));
    assert_eq!(fallback_format(DeviceFormat::S32LE), None);
}

#[test]
fn write_plans() {
    assert_eq!(write_plan(DeviceFormat::S16LE, DeviceFormat::S24_3LE), WritePlan::Buffered24To16);
    assert_eq!(write_plan(DeviceFormat::S16LE, DeviceFormat::S32LE), WritePlan::Convert32To16);
    assert_eq!(write_plan(DeviceFormat::S16LE, DeviceFormat::S16LE), WritePlan::Plain16);
    assert_eq!(write_plan(DeviceFormat::S24_3LE, DeviceFormat::S24_3LE), WritePlan::Widen24);
    assert_eq!(write_plan(DeviceFormat::S32LE, DeviceFormat::S32LE), WritePlan::Plain32);
    assert_eq!(write_plan(DeviceFormat::Other, DeviceFormat::S16LE), WritePlan::Unsupported);
}
