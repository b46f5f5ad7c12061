use decklink::frame::{
    copy_of, required_byte_count, DecklinkAlignedVec, DecklinkFrameBase, DecklinkFrameBase2,
    DecklinkFrameFlags, DecklinkPixelFormat, DecklinkVideoFrame, DecklinkVideoMutableFrame,
};
use decklink::util::OutputError;

fn small_frame() -> DecklinkVideoMutableFrame {
    DecklinkVideoMutableFrame::create(
        2,
        3,
        8,
        DecklinkPixelFormat::Format8BitBGRA,
        DecklinkFrameFlags::empty(),
    )
}

fn ramp(n: usize) -> Vec<u8> {
    (0..n).map(|i| (i % 251) as u8).collect()
}

#[test]
fn created_frame_keeps_its_shape_and_has_no_bytes() {
    let flags = DecklinkFrameFlags::from_bits_truncate(DecklinkFrameFlags::FLIP_VERTICAL);
    let frame =
        DecklinkVideoMutableFrame::create(1920, 1080, 7680, DecklinkPixelFormat::Format8BitYUV, flags);
    assert_eq!(frame.width(), 1920);
    assert_eq!(frame.height(), 1080);
    assert_eq!(frame.row_bytes(), 7680);
    assert_eq!(frame.pixel_format(), DecklinkPixelFormat::Format8BitYUV);
    assert_eq!(frame.flags(), flags);
    assert!(matches!(frame.bytes(), Err(OutputError::Unavailable)));
}

#[test]
fn set_bytes_takes_exactly_the_frame_size() {
    let mut frame = small_frame();
    let data = ramp(24);
    assert_eq!(frame.set_bytes(DecklinkAlignedVec::from_slice(&data)), Ok(()));
    let read = frame.bytes().unwrap();
    assert_eq!(read.0, &data[..]);
    assert_eq!(read.0.len(), 24);
}

#[test]
fn set_bytes_refuses_a_smaller_buffer_and_keeps_the_old_bytes() {
    let mut frame = small_frame();
    let first = ramp(24);
    assert_eq!(frame.set_bytes(DecklinkAlignedVec::from_slice(&first)), Ok(()));
    for n in [0usize, 1, 23] {
        let short = vec![0xEEu8; n];
        assert_eq!(
            frame.set_bytes(DecklinkAlignedVec::from_slice(&short)),
            Err(OutputError::InvalidArgument)
        );
        assert_eq!(frame.bytes().unwrap().0, &first[..]);
    }
}

#[test]
fn set_bytes_refuses_a_larger_buffer() {
    let mut frame = small_frame();
    let long = vec![1u8; 25];
    assert_eq!(
        frame.set_bytes(DecklinkAlignedVec::from_slice(&long)),
        Err(OutputError::InvalidArgument)
    );
    assert!(matches!(frame.bytes(), Err(OutputError::Unavailable)));
}

#[test]
fn set_bytes_on_an_empty_geometry_takes_the_empty_buffer() {
    let mut frame = DecklinkVideoMutableFrame::create(
        0,
        0,
        0,
        DecklinkPixelFormat::Format8BitYUV,
        DecklinkFrameFlags::empty(),
    );
    assert_eq!(frame.set_bytes(DecklinkAlignedVec::from_slice(&[])), Ok(()));
    assert_eq!(frame.bytes().unwrap().0.len(), 0);
    assert_eq!(
        frame.set_bytes(DecklinkAlignedVec::from_slice(&[1])),
        Err(OutputError::InvalidArgument)
    );
}

#[test]
fn a_geometry_too_large_to_count_accepts_no_buffer() {
    let mut frame = DecklinkVideoMutableFrame::create(
        1,
        usize::MAX,
        2,
        DecklinkPixelFormat::Format8BitYUV,
        DecklinkFrameFlags::empty(),
    );
    assert_eq!(required_byte_count(2, usize::MAX), None);
    assert_eq!(
        frame.set_bytes(DecklinkAlignedVec::from_slice(&[0u8; 16])),
        Err(OutputError::InvalidArgument)
    );
    assert_eq!(frame.copy_bytes(&[0u8; 16]), Err(OutputError::InvalidArgument));
}

#[test]
fn required_byte_count_is_the_product() {
    assert_eq!(required_byte_count(7680, 1080), Some(8_294_400));
    assert_eq!(required_byte_count(0, 1080), Some(0));
    assert_eq!(required_byte_count(usize::MAX, 1), Some(usize::MAX));
    assert_eq!(required_byte_count(usize::MAX, 2), None);
}

#[test]
fn copy_bytes_fills_an_empty_frame() {
    let mut frame = small_frame();
    let data = ramp(24);
    assert_eq!(frame.copy_bytes(&data), Ok(()));
    assert_eq!(frame.bytes().unwrap().0, &data[..]);
}

#[test]
fn copy_bytes_overwrites_what_was_there() {
    let mut frame = small_frame();
    let first = vec![0x11u8; 24];
    let second = ramp(24);
    assert_eq!(frame.copy_bytes(&first), Ok(()));
    assert_eq!(frame.copy_bytes(&second), Ok(()));
    assert_eq!(frame.bytes().unwrap().0, &second[..]);
    assert_ne!(frame.bytes().unwrap().0, &first[..]);
}

#[test]
fn copy_bytes_refuses_a_wrong_size_and_keeps_the_old_bytes() {
    let mut frame = small_frame();
    let first = ramp(24);
    assert_eq!(frame.copy_bytes(&first), Ok(()));
    assert_eq!(frame.copy_bytes(&first[..23]), Err(OutputError::InvalidArgument));
    assert_eq!(frame.copy_bytes(&vec![0u8; 25]), Err(OutputError::InvalidArgument));
    assert_eq!(frame.bytes().unwrap().0, &first[..]);
}

#[test]
fn into_avec_gives_the_buffer_or_unavailable() {
    let mut frame = small_frame();
    let data = ramp(24);
    frame.copy_bytes(&data).unwrap();
    let buffer = frame.into_avec().unwrap();
    assert_eq!(buffer.as_slice(), &data[..]);
    assert_eq!(buffer.len(), 24);
    assert!(matches!(small_frame().into_avec(), Err(OutputError::Unavailable)));
}

#[test]
fn aligned_buffer_holds_a_copy_of_the_slice() {
    let data = ramp(300);
    let buffer = DecklinkAlignedVec::from_slice(&data);
    assert_eq!(buffer.len(), 300);
    assert_eq!(buffer.as_slice(), &data[..]);
    assert_eq!(buffer.as_slice().as_ptr() as usize % 64, 0);
    let empty = DecklinkAlignedVec::from_slice(&[]);
    assert_eq!(empty.len(), 0);
}

#[test]
fn copy_of_copies_in_order() {
    assert_eq!(copy_of(&[3, 1, 2]), vec![3, 1, 2]);
    assert_eq!(copy_of(&[]), Vec::<u8>::new());
}

#[test]
fn pixel_format_codes_are_the_driver_numbers() {
    assert_eq!(DecklinkPixelFormat::Format8BitYUV.code(), 0x32767579);
    assert_eq!(DecklinkPixelFormat::Format10BitYUV.code(), 0x76323130);
    assert_eq!(DecklinkPixelFormat::Format8BitARGB.code(), 32);
    assert_eq!(DecklinkPixelFormat::Format8BitBGRA.code(), 0x42475241);
    assert_eq!(DecklinkPixelFormat::Format10BitRGB.code(), 0x72323130);
    assert_eq!(DecklinkPixelFormat::FormatH265.code(), 0x68657631);
    assert_eq!(DecklinkPixelFormat::from_u32(0x32767579), Some(DecklinkPixelFormat::Format8BitYUV));
    assert_eq!(DecklinkPixelFormat::from_u32(32), Some(DecklinkPixelFormat::Format8BitARGB));
    assert_eq!(DecklinkPixelFormat::from_u32(0), None);
    assert_eq!(DecklinkPixelFormat::from_i64(0x42475241), Some(DecklinkPixelFormat::Format8BitBGRA));
    assert_eq!(DecklinkPixelFormat::from_i64(-1), None);
    assert_eq!(DecklinkPixelFormat::from_i64(0x1_0000_0020), None);
}

#[test]
fn pixel_format_round_trip() {
    let all = [
        DecklinkPixelFormat::Format8BitYUV,
        DecklinkPixelFormat::Format10BitYUV,
        DecklinkPixelFormat::Format8BitARGB,
        DecklinkPixelFormat::Format8BitBGRA,
        DecklinkPixelFormat::Format10BitRGB,
        DecklinkPixelFormat::Format12BitRGB,
        DecklinkPixelFormat::Format12BitRGBLE,
        DecklinkPixelFormat::Format10BitRGBXLE,
        DecklinkPixelFormat::Format10BitRGBX,
        DecklinkPixelFormat::FormatH265,
        DecklinkPixelFormat::FormatDNxHR,
        DecklinkPixelFormat::Format12BitRAWGRBG,
        DecklinkPixelFormat::Format12BitRAWJPEG,
    ];
    for f in all {
        assert_eq!(DecklinkPixelFormat::from_u32(f.code()), Some(f));
    }
}

#[test]
fn frame_flags_keep_only_known_bits() {
    assert_eq!(DecklinkFrameFlags::from_bits_truncate(0xFFFF_FFFF).bits(), 0x8000_0007);
    assert_eq!(DecklinkFrameFlags::from_bits_truncate(0x10).bits(), 0);
    assert_eq!(DecklinkFrameFlags::empty().bits(), 0);
    let f = DecklinkFrameFlags::from_bits_truncate(
        DecklinkFrameFlags::FLIP_VERTICAL | DecklinkFrameFlags::HAS_NO_INPUT_SOURCE,
    );
    assert!(f.contains(DecklinkFrameFlags::FLIP_VERTICAL));
    assert!(f.contains(DecklinkFrameFlags::HAS_NO_INPUT_SOURCE));
    assert!(!f.contains(DecklinkFrameFlags::CONTAINS_HDR_METADATA));
    assert_eq!(DecklinkFrameFlags::HAS_NO_INPUT_SOURCE, 0x8000_0000);
}

#[test]
fn driver_frame_decodes_what_the_driver_described() {
    let data = ramp(12);
    let frame = DecklinkVideoFrame::new(3, 2, 6, 0x76323130, 0xFFFF_FFF3, 0, data.clone()).unwrap();
    assert_eq!(frame.width(), 3);
    assert_eq!(frame.height(), 2);
    assert_eq!(frame.row_bytes(), 6);
    assert_eq!(frame.pixel_format(), DecklinkPixelFormat::Format10BitYUV);
    assert_eq!(frame.flags().bits(), 0x8000_0003);
    assert_eq!(frame.bytes().unwrap().0, &data[..]);
    assert_eq!(frame.bytes_handle().unwrap().0, &data[..]);
    assert_eq!(frame.bytes_to_vec(), Ok(data));
}

#[test]
fn driver_frame_with_unknown_format_reads_as_8_bit_yuv() {
    let frame = DecklinkVideoFrame::new(1, 1, 1, 0xDEAD_BEEF, 0, 0, vec![9]).unwrap();
    assert_eq!(frame.pixel_format(), DecklinkPixelFormat::Format8BitYUV);
}

#[test]
fn driver_frame_without_bytes_reports_the_driver_status() {
    let frame = DecklinkVideoFrame::new(4, 4, 16, 32, 0, -8, Vec::new()).unwrap();
    assert!(matches!(frame.bytes(), Err(OutputError::DriverFailure(-8))));
    assert_eq!(frame.bytes_to_vec(), Err(OutputError::DriverFailure(-8)));
}

#[test]
fn driver_frame_with_bytes_of_the_wrong_size_is_refused() {
    assert!(matches!(
        DecklinkVideoFrame::new(4, 4, 16, 32, 0, 0, vec![0; 63]),
        Err(OutputError::InvalidArgument)
    ));
    assert!(matches!(
        DecklinkVideoFrame::new(4, 4, 16, 32, 0, 0, vec![0; 65]),
        Err(OutputError::InvalidArgument)
    ));
    assert!(DecklinkVideoFrame::new(4, 4, 16, 32, 0, 0, vec![0; 64]).is_ok());
    assert!(matches!(
        DecklinkVideoFrame::new(4, usize::MAX, 16, 32, 0, 0, vec![0; 64]),
        Err(OutputError::InvalidArgument)
    ));
}
