use subsnap::bitstream::{Mp4BitstreamConverter, NalType, NalUnit};
use subsnap::decoders::Mp4Decoder;
use subsnap::frame::ConvertError;

#[test]
fn nal_type_reads_the_five_low_bits() {
    assert_eq!(NalType::from_header_byte(1), NalType::Slice);
    assert_eq!(NalType::from_header_byte(5), NalType::IdrSlice);
    assert_eq!(NalType::from_header_byte(7), NalType::Sps);
    assert_eq!(NalType::from_header_byte(8), NalType::Pps);
    // The three high bits do not matter.
    assert_eq!(NalType::from_header_byte(0x65), NalType::IdrSlice);
    assert_eq!(NalType::from_header_byte(0x67), NalType::Sps);
    assert_eq!(NalType::from_header_byte(31), NalType::Unspecified31);
}

#[test]
fn unit_parsing_reads_length_prefixes() {
    // A two-byte length prefix announcing a two-byte IDR payload.
    let stream = vec![0u8, 2, 0x65, 0xAA];
    let (unit, next) = NalUnit::from_stream(&stream, 0, 2).unwrap();
    assert_eq!(unit.nal_type, NalType::IdrSlice);
    assert_eq!(unit.start, 2);
    assert_eq!(unit.end, 4);
    assert_eq!(next, 4);
    // A zero length yields nothing.
    assert!(NalUnit::from_stream(&vec![0u8, 0, 0x65], 0, 2).is_none());
    // A payload longer than the stream yields nothing.
    assert!(NalUnit::from_stream(&vec![0u8, 9, 0x65], 0, 2).is_none());
    // A truncated prefix yields nothing.
    assert!(NalUnit::from_stream(&vec![0u8], 0, 2).is_none());
}

#[test]
fn idr_without_parameter_sets_gets_them_inserted() {
    let mut converter =
        Mp4BitstreamConverter::for_mp4_track(1, vec![vec![0x67, 0x01]], vec![vec![0x68, 0x02]]);
    let packet = vec![3u8, 0x65, 0x80, 0xFF];
    let mut out = Vec::new();
    converter.convert_packet(&packet, &mut out);
    assert_eq!(
        out,
        vec![
            0, 0, 1, 0x67, 0x01, // inserted sequence parameter set
            0, 0, 1, 0x68, 0x02, // inserted picture parameter set
            0, 0, 1, 0x65, 0x80, 0xFF, // the IDR unit itself
        ]
    );
}

#[test]
fn sps_in_stream_suppresses_its_insertion() {
    let mut converter =
        Mp4BitstreamConverter::for_mp4_track(1, vec![vec![0x67, 0x01]], vec![vec![0x68, 0x02]]);
    // The packet carries its own SPS before the IDR picture: only the PPS
    // is inserted.
    let packet = vec![2u8, 0x67, 0x11, 3, 0x65, 0x80, 0x22];
    let mut out = Vec::new();
    converter.convert_packet(&packet, &mut out);
    assert_eq!(
        out,
        vec![
            0, 0, 1, 0x67, 0x11, // the stream's own SPS
            0, 0, 1, 0x68, 0x02, // inserted picture parameter set
            0, 0, 1, 0x65, 0x80, 0x22, // the IDR unit
        ]
    );
}

#[test]
fn slice_after_idr_rearms_insertion() {
    let mut converter =
        Mp4BitstreamConverter::for_mp4_track(1, vec![vec![0x67]], vec![vec![0x68]]);
    let idr = vec![2u8, 0x65, 0x80];
    let slice = vec![2u8, 0x41, 0x9A];
    let mut out = Vec::new();
    converter.convert_packet(&idr, &mut out);
    assert_eq!(out, vec![0, 0, 1, 0x67, 0, 0, 1, 0x68, 0, 0, 1, 0x65, 0x80]);
    // An ordinary slice is emitted bare, and rearms the insertion state.
    converter.convert_packet(&slice, &mut out);
    assert_eq!(out, vec![0, 0, 1, 0x41, 0x9A]);
    // The next IDR gets the parameter sets again.
    converter.convert_packet(&idr, &mut out);
    assert_eq!(out, vec![0, 0, 1, 0x67, 0, 0, 1, 0x68, 0, 0, 1, 0x65, 0x80]);
}

#[test]
fn multiple_units_in_one_packet_stay_in_order() {
    let mut converter = Mp4BitstreamConverter::for_mp4_track(1, vec![], vec![]);
    let packet = vec![2u8, 0x06, 0x33, 1, 0x09];
    let mut out = Vec::new();
    converter.convert_packet(&packet, &mut out);
    assert_eq!(out, vec![0, 0, 1, 0x06, 0x33, 0, 0, 1, 0x09]);
}

#[test]
fn gray_rgb_repacks_to_neutral_yuv() {
    let mut decoder = Mp4Decoder::new();
    let rgb = vec![128u8; 2 * 2 * 3];
    let yuv = decoder.convert_rgb_to_yuv(&rgb, 2, 2).unwrap();
    // Four luma samples, one U and one V, all neutral.
    assert_eq!(yuv, vec![128, 128, 128, 128, 128, 128]);
}

#[test]
fn rgb_to_yuv_exact_values() {
    let mut decoder = Mp4Decoder::new();
    // One red, one green, one blue, one white pixel.
    let rgb = vec![
        255u8, 0, 0, // red
        0, 255, 0, // green
        0, 0, 255, // blue
        255, 255, 255, // white
    ];
    let yuv = decoder.convert_rgb_to_yuv(&rgb, 2, 2).unwrap();
    // Y = 0.299 R + 0.587 G + 0.114 B, truncated.
    assert_eq!(&yuv[0..4], &[76, 149, 29, 255]);
    // Chroma is sampled from the top-left pixel of the block: pure red.
    // U = 128 - 0.168736 * 255 = 84.97..., V = 128 + 0.5 * 255 = 255.5.
    assert_eq!(yuv[4], 84);
    assert_eq!(yuv[5], 255);
}

#[test]
fn rgb_to_yuv_rejects_bad_inputs() {
    let mut decoder = Mp4Decoder::new();
    assert!(matches!(
        decoder.convert_rgb_to_yuv(&vec![0u8; 12], 3, 2),
        Err(ConvertError::InvalidDimensions)
    ));
    assert!(matches!(
        decoder.convert_rgb_to_yuv(&vec![0u8; 5], 2, 2),
        Err(ConvertError::InvalidDataSize)
    ));
}
