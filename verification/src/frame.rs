//! Video frames: their geometry, their pixel bytes, and the rule that ties
//! the two together.

use crate::util::OutputError;
use aligned_vec::{AVec, ConstAlign};
use vstd::prelude::*;

verus! {

/// How the pixels of a frame are laid out in its bytes.
#[derive(Debug, Clone, Copy, PartialEq, Eq, Structural)]
pub enum DecklinkPixelFormat {
    Format8BitYUV,
    Format10BitYUV,
    Format8BitARGB,
    Format8BitBGRA,
    Format10BitRGB,
    Format12BitRGB,
    Format12BitRGBLE,
    Format10BitRGBXLE,
    Format10BitRGBX,
    FormatH265,
    FormatDNxHR,
    Format12BitRAWGRBG,
    Format12BitRAWJPEG,
}

impl DecklinkPixelFormat {
    /// The number by which the driver names this value.
    pub open spec fn spec_code(self) -> u32 {
        match self {
            DecklinkPixelFormat::Format8BitYUV => 0x3276_7579,
            DecklinkPixelFormat::Format10BitYUV => 0x7632_3130,
            DecklinkPixelFormat::Format8BitARGB => 32,
            DecklinkPixelFormat::Format8BitBGRA => 0x4247_5241,
            DecklinkPixelFormat::Format10BitRGB => 0x7232_3130,
            DecklinkPixelFormat::Format12BitRGB => 0x5231_3242,
            DecklinkPixelFormat::Format12BitRGBLE => 0x5231_324C,
            DecklinkPixelFormat::Format10BitRGBXLE => 0x5231_306C,
            DecklinkPixelFormat::Format10BitRGBX => 0x5231_3062,
            DecklinkPixelFormat::FormatH265 => 0x6865_7631,
            DecklinkPixelFormat::FormatDNxHR => 0x4156_6468,
            DecklinkPixelFormat::Format12BitRAWGRBG => 0x7231_3270,
            DecklinkPixelFormat::Format12BitRAWJPEG => 0x7231_3670,
        }
    }

    /// The value that the driver names by `code`, if there is one.
    pub open spec fn spec_from_u32(code: u32) -> Option<Self> {
        if code == 0x3276_7579 {
            Some(DecklinkPixelFormat::Format8BitYUV)
        } else if code == 0x7632_3130 {
            Some(DecklinkPixelFormat::Format10BitYUV)
        } else if code == 32 {
            Some(DecklinkPixelFormat::Format8BitARGB)
        } else if code == 0x4247_5241 {
            Some(DecklinkPixelFormat::Format8BitBGRA)
        } else if code == 0x7232_3130 {
            Some(DecklinkPixelFormat::Format10BitRGB)
        } else if code == 0x5231_3242 {
            Some(DecklinkPixelFormat::Format12BitRGB)
        } else if code == 0x5231_324C {
            Some(DecklinkPixelFormat::Format12BitRGBLE)
        } else if code == 0x5231_306C {
            Some(DecklinkPixelFormat::Format10BitRGBXLE)
        } else if code == 0x5231_3062 {
            Some(DecklinkPixelFormat::Format10BitRGBX)
        } else if code == 0x6865_7631 {
            Some(DecklinkPixelFormat::FormatH265)
        } else if code == 0x4156_6468 {
            Some(DecklinkPixelFormat::FormatDNxHR)
        } else if code == 0x7231_3270 {
            Some(DecklinkPixelFormat::Format12BitRAWGRBG)
        } else if code == 0x7231_3670 {
            Some(DecklinkPixelFormat::Format12BitRAWJPEG)
        } else {
            None
        }
    }

    pub fn code(self) -> (c: u32)
        ensures
            c == self.spec_code(),
    {
        match self {
            DecklinkPixelFormat::Format8BitYUV => 0x3276_7579,
            DecklinkPixelFormat::Format10BitYUV => 0x7632_3130,
            DecklinkPixelFormat::Format8BitARGB => 32,
            DecklinkPixelFormat::Format8BitBGRA => 0x4247_5241,
            DecklinkPixelFormat::Format10BitRGB => 0x7232_3130,
            DecklinkPixelFormat::Format12BitRGB => 0x5231_3242,
            DecklinkPixelFormat::Format12BitRGBLE => 0x5231_324C,
            DecklinkPixelFormat::Format10BitRGBXLE => 0x5231_306C,
            DecklinkPixelFormat::Format10BitRGBX => 0x5231_3062,
            DecklinkPixelFormat::FormatH265 => 0x6865_7631,
            DecklinkPixelFormat::FormatDNxHR => 0x4156_6468,
            DecklinkPixelFormat::Format12BitRAWGRBG => 0x7231_3270,
            DecklinkPixelFormat::Format12BitRAWJPEG => 0x7231_3670,
        }
    }

    pub fn from_u32(code: u32) -> (r: Option<Self>)
        ensures
            r == Self::spec_from_u32(code),
    {
        if code == 0x3276_7579 {
            Some(DecklinkPixelFormat::Format8BitYUV)
        } else if code == 0x7632_3130 {
            Some(DecklinkPixelFormat::Format10BitYUV)
        } else if code == 32 {
            Some(DecklinkPixelFormat::Format8BitARGB)
        } else if code == 0x4247_5241 {
            Some(DecklinkPixelFormat::Format8BitBGRA)
        } else if code == 0x7232_3130 {
            Some(DecklinkPixelFormat::Format10BitRGB)
        } else if code == 0x5231_3242 {
            Some(DecklinkPixelFormat::Format12BitRGB)
        } else if code == 0x5231_324C {
            Some(DecklinkPixelFormat::Format12BitRGBLE)
        } else if code == 0x5231_306C {
            Some(DecklinkPixelFormat::Format10BitRGBXLE)
        } else if code == 0x5231_3062 {
            Some(DecklinkPixelFormat::Format10BitRGBX)
        } else if code == 0x6865_7631 {
            Some(DecklinkPixelFormat::FormatH265)
        } else if code == 0x4156_6468 {
            Some(DecklinkPixelFormat::FormatDNxHR)
        } else if code == 0x7231_3270 {
            Some(DecklinkPixelFormat::Format12BitRAWGRBG)
        } else if code == 0x7231_3670 {
            Some(DecklinkPixelFormat::Format12BitRAWJPEG)
        } else {
            None
        }
    }

    /// The value that the driver names by `value`; a number outside the
    /// range of a code names none.
    pub open spec fn spec_from_i64(value: i64) -> Option<Self> {
        if 0 <= value <= u32::MAX {
            Self::spec_from_u32(value as u32)
        } else {
            None
        }
    }

    pub fn from_i64(value: i64) -> (r: Option<Self>)
        ensures
            r == Self::spec_from_i64(value),
    {
        if 0 <= value && value <= 0xFFFF_FFFF {
            Self::from_u32(value as u32)
        } else {
            None
        }
    }

    /// Decoding the code of a value gives that value back, so no two values
    /// share a code.
    pub proof fn lemma_code_round_trip(self)
        ensures
            Self::spec_from_u32(self.spec_code()) == Some(self),
            Self::spec_from_i64(self.spec_code() as i64) == Some(self),
    {
    }
}

/// What is known of a frame beside its pixels.
#[derive(Debug, Clone, Copy, PartialEq, Eq, Hash, Structural)]
pub struct DecklinkFrameFlags {
    bits: u32,
}

impl DecklinkFrameFlags {
    /// The rows are stored bottom-up.
    pub const FLIP_VERTICAL: u32 = 0x1;

    /// The frame carries HDR metadata.
    pub const CONTAINS_HDR_METADATA: u32 = 0x2;

    /// The frame carries Cintel metadata.
    pub const CONTAINS_CINTEL_METADATA: u32 = 0x4;

    /// The frame was captured with no signal on the input.
    pub const HAS_NO_INPUT_SOURCE: u32 = 0x8000_0000;

    /// Every bit that has a meaning.
    pub const ALL: u32 = 0x8000_0007;

    /// The bits that are set.
    pub closed spec fn spec_bits(self) -> u32 {
        self.bits
    }

    pub fn bits(&self) -> (b: u32)
        ensures
            b == self.spec_bits(),
    {
        self.bits
    }

    pub fn empty() -> (f: Self)
        ensures
            f.spec_bits() == 0,
    {
        DecklinkFrameFlags { bits: 0 }
    }

    /// Keeps the bits that have a meaning and drops the others.
    pub fn from_bits_truncate(bits: u32) -> (f: Self)
        ensures
            f.spec_bits() == bits & Self::ALL,
    {
        DecklinkFrameFlags { bits: bits & Self::ALL }
    }

    /// Whether every bit of `mask` is set.
    pub fn contains(&self, mask: u32) -> (b: bool)
        ensures
            b == (self.spec_bits() & mask == mask),
    {
        self.bits & mask == mask
    }
}

/// A byte buffer whose storage starts on a 64-byte boundary, as the devices
/// ask of pixel data: an `AVec<u8, ConstAlign<64>>` of the `aligned_vec`
/// crate. Its inside is hidden from the verifier; `aligned_bytes` names what
/// it holds.
#[verifier::external_body]
pub struct DecklinkAlignedVec {
    inner: AVec<u8, ConstAlign<64>>,
}

/// The bytes that an aligned buffer holds, first to last.
pub uninterp spec fn aligned_bytes(v: DecklinkAlignedVec) -> Seq<u8>;

impl View for DecklinkAlignedVec {
    type V = Seq<u8>;

    open spec fn view(&self) -> Seq<u8> {
        aligned_bytes(*self)
    }
}

/// `AVec::from_slice` with an alignment of 64: the new buffer holds a clone of
/// each element of the slice, in the slice's order.
#[verifier::external_body]
fn aligned_from_slice(bytes: &[u8]) -> (v: DecklinkAlignedVec)
    ensures
        aligned_bytes(v) == bytes@,
{
    DecklinkAlignedVec { inner: AVec::from_slice(64, bytes) }
}

/// `AVec::len`: the number of elements in the buffer.
#[verifier::external_body]
fn aligned_len(v: &DecklinkAlignedVec) -> (n: usize)
    ensures
        n == aligned_bytes(*v).len(),
{
    v.inner.len()
}

/// `AVec::as_slice`: a slice over the elements of the buffer.
#[verifier::external_body]
fn aligned_as_slice(v: &DecklinkAlignedVec) -> (s: &[u8])
    ensures
        s@ == aligned_bytes(*v),
{
    v.inner.as_slice()
}

/// `AVec::as_mut_slice`, written through with the slice's `copy_from_slice`:
/// afterwards the buffer holds the elements of `src`. The copy panics when
/// the two lengths differ, so equal lengths are required.
#[verifier::external_body]
fn aligned_overwrite(v: &mut DecklinkAlignedVec, src: &[u8])
    requires
        aligned_bytes(*old(v)).len() == src@.len(),
    ensures
        aligned_bytes(*final(v)) == src@,
{
    v.inner.as_mut_slice().copy_from_slice(src)
}

impl DecklinkAlignedVec {
    /// An aligned buffer with a copy of `bytes`.
    pub fn from_slice(bytes: &[u8]) -> (v: Self)
        ensures
            v@ == bytes@,
    {
        aligned_from_slice(bytes)
    }

    pub fn len(&self) -> (n: usize)
        ensures
            n == self@.len(),
    {
        aligned_len(self)
    }

    pub fn as_slice(&self) -> (s: &[u8])
        ensures
            s@ == self@,
    {
        aligned_as_slice(self)
    }
}

/// A read view of the pixel bytes of a frame.
pub struct DecklinkAlignedBytes<'a>(pub &'a [u8]);

/// The number of bytes that a frame of `height` rows of `row_bytes` bytes holds.
pub open spec fn frame_byte_count(row_bytes: usize, height: usize) -> int {
    row_bytes * height
}

/// Computes `frame_byte_count`, or `None` where that number exceeds what a
/// buffer can hold.
pub fn required_byte_count(row_bytes: usize, height: usize) -> (n: Option<usize>)
    ensures
        frame_byte_count(row_bytes, height) <= usize::MAX ==> n == Some(
            frame_byte_count(row_bytes, height) as usize,
        ),
        frame_byte_count(row_bytes, height) > usize::MAX ==> n.is_none(),
{
    row_bytes.checked_mul(height)
}

/// A frame of video.
pub trait DecklinkFrameBase {
    spec fn spec_width(&self) -> usize;

    spec fn spec_height(&self) -> usize;

    spec fn spec_row_bytes(&self) -> usize;

    spec fn spec_pixel_format(&self) -> DecklinkPixelFormat;

    spec fn spec_flags(&self) -> DecklinkFrameFlags;

    /// The pixel bytes, or why there are none to read.
    spec fn spec_bytes(&self) -> Result<Seq<u8>, OutputError>;

    /// Get the width of the video frame
    fn width(&self) -> (w: usize)
        ensures
            w == self.spec_width(),
    ;

    /// Get the height of the video frame
    fn height(&self) -> (h: usize)
        ensures
            h == self.spec_height(),
    ;

    /// Get the byte count per row of the video frame
    fn row_bytes(&self) -> (n: usize)
        ensures
            n == self.spec_row_bytes(),
    ;

    /// Get the pixel format of the video frame
    fn pixel_format(&self) -> (f: DecklinkPixelFormat)
        ensures
            f == self.spec_pixel_format(),
    ;

    /// Get the flags of the video frame
    fn flags(&self) -> (f: DecklinkFrameFlags)
        ensures
            f == self.spec_flags(),
    ;

    /// Get the pixel data of the video frame
    fn bytes(&self) -> (r: Result<DecklinkAlignedBytes<'_>, OutputError>)
        ensures
            r matches Ok(b) ==> self.spec_bytes() == Ok::<Seq<u8>, OutputError>(b.0@),
            r matches Err(e) ==> self.spec_bytes() == Err::<Seq<u8>, OutputError>(e),
    ;
}

/// A frame that can give its pixel buffer away.
pub trait DecklinkFrameBase2: DecklinkFrameBase + Sized {
    /// Get the pixel data of the video frame
    fn into_avec(self) -> (r: Result<DecklinkAlignedVec, OutputError>)
        ensures
            r matches Ok(v) ==> self.spec_bytes() == Ok::<Seq<u8>, OutputError>(v@),
            r matches Err(e) ==> self.spec_bytes() == Err::<Seq<u8>, OutputError>(e),
    ;
}

/// A frame that the application fills before it hands it to a device.
pub struct DecklinkVideoMutableFrame {
    width: usize,
    height: usize,
    row_bytes: usize,
    pixel_format: DecklinkPixelFormat,
    flags: DecklinkFrameFlags,
    bytes: Option<DecklinkAlignedVec>,
}

impl DecklinkFrameBase for DecklinkVideoMutableFrame {
    closed spec fn spec_width(&self) -> usize {
        self.width
    }

    closed spec fn spec_height(&self) -> usize {
        self.height
    }

    closed spec fn spec_row_bytes(&self) -> usize {
        self.row_bytes
    }

    closed spec fn spec_pixel_format(&self) -> DecklinkPixelFormat {
        self.pixel_format
    }

    closed spec fn spec_flags(&self) -> DecklinkFrameFlags {
        self.flags
    }

    closed spec fn spec_bytes(&self) -> Result<Seq<u8>, OutputError> {
        match self.bytes {
            Some(b) => Ok(b@),
            None => Err(OutputError::Unavailable),
        }
    }

    fn width(&self) -> (w: usize) {
        self.width
    }

    fn height(&self) -> (h: usize) {
        self.height
    }

    fn row_bytes(&self) -> (n: usize) {
        self.row_bytes
    }

    fn pixel_format(&self) -> (f: DecklinkPixelFormat) {
        self.pixel_format
    }

    fn flags(&self) -> (f: DecklinkFrameFlags) {
        self.flags
    }

    fn bytes(&self) -> (r: Result<DecklinkAlignedBytes<'_>, OutputError>)
        ensures
            self.wf() ==> (r matches Ok(b) ==> b.0@.len() == self.spec_byte_count()),
    {
        match &self.bytes {
            Some(bytes) => Ok(DecklinkAlignedBytes(bytes.as_slice())),
            None => Err(OutputError::Unavailable),
        }
    }
}

impl DecklinkFrameBase2 for DecklinkVideoMutableFrame {
    fn into_avec(self) -> (r: Result<DecklinkAlignedVec, OutputError>)
        ensures
            self.wf() ==> (r matches Ok(v) ==> v@.len() == self.spec_byte_count()),
    {
        match self.bytes {
            Some(bytes) => Ok(bytes),
            None => Err(OutputError::Unavailable),
        }
    }
}

impl DecklinkVideoMutableFrame {
    /// A buffer, where there is one, holds one byte for every byte of every
    /// row. This holds of every frame that `create` made, and no method
    /// undoes it.
    pub closed spec fn wf(&self) -> bool {
        self.bytes matches Some(b) ==> b@.len() == frame_byte_count(self.row_bytes, self.height)
    }

    /// The number of bytes that the pixel data of this frame must hold.
    pub open spec fn spec_byte_count(&self) -> int {
        frame_byte_count(self.spec_row_bytes(), self.spec_height())
    }

    /// Whether two frames have the same geometry, format and flags.
    pub open spec fn same_shape(&self, other: &Self) -> bool {
        &&& self.spec_width() == other.spec_width()
        &&& self.spec_height() == other.spec_height()
        &&& self.spec_row_bytes() == other.spec_row_bytes()
        &&& self.spec_pixel_format() == other.spec_pixel_format()
        &&& self.spec_flags() == other.spec_flags()
    }

    /// A frame of the given shape that holds no bytes yet.
    pub fn create(
        width: usize,
        height: usize,
        row_bytes: usize,
        pixel_format: DecklinkPixelFormat,
        flags: DecklinkFrameFlags,
    ) -> (frame: Self)
        ensures
            frame.spec_width() == width,
            frame.spec_height() == height,
            frame.spec_row_bytes() == row_bytes,
            frame.spec_pixel_format() == pixel_format,
            frame.spec_flags() == flags,
            frame.spec_bytes() == Err::<Seq<u8>, OutputError>(OutputError::Unavailable),
            frame.wf(),
    {
        Self { width, height, row_bytes, pixel_format, flags, bytes: None }
    }

    /// Takes `bytes` as the pixel data of the frame if it holds exactly one
    /// byte for every byte of every row; otherwise the frame stays as it was.
    pub fn set_bytes(&mut self, bytes: DecklinkAlignedVec) -> (r: Result<(), OutputError>)
        ensures
            final(self).same_shape(old(self)),
            old(self).wf() ==> final(self).wf(),
            bytes@.len() == old(self).spec_byte_count() ==> ({
                &&& r == Ok::<(), OutputError>(())
                &&& final(self).spec_bytes() == Ok::<Seq<u8>, OutputError>(bytes@)
            }),
            bytes@.len() != old(self).spec_byte_count() ==> ({
                &&& r == Err::<(), OutputError>(OutputError::InvalidArgument)
                &&& final(self).spec_bytes() == old(self).spec_bytes()
            }),
    {
        let given: usize = bytes.len();
        match required_byte_count(self.row_bytes, self.height) {
            Some(count) => {
                if given == count {
                    self.bytes = Some(bytes);
                    Ok(())
                } else {
                    Err(OutputError::InvalidArgument)
                }
            },
            None => Err(OutputError::InvalidArgument),
        }
    }

    /// Copies `bytes` into the frame under the same rule as `set_bytes`.
    pub fn copy_bytes(&mut self, bytes: &[u8]) -> (r: Result<(), OutputError>)
        ensures
            final(self).same_shape(old(self)),
            old(self).wf() ==> final(self).wf(),
            bytes@.len() == old(self).spec_byte_count() ==> ({
                &&& r == Ok::<(), OutputError>(())
                &&& final(self).spec_bytes() == Ok::<Seq<u8>, OutputError>(bytes@)
            }),
            bytes@.len() != old(self).spec_byte_count() ==> ({
                &&& r == Err::<(), OutputError>(OutputError::InvalidArgument)
                &&& final(self).spec_bytes() == old(self).spec_bytes()
            }),
    {
        let given: usize = bytes.len();
        match required_byte_count(self.row_bytes, self.height) {
            Some(count) => {
                if given != count {
                    Err(OutputError::InvalidArgument)
                } else {
                    match &mut self.bytes {
                        Some(current) => {
                            if current.len() == count {
                                aligned_overwrite(current, bytes);
                            } else {
                                self.bytes = Some(DecklinkAlignedVec::from_slice(bytes));
                            }
                        },
                        None => {
                            self.bytes = Some(DecklinkAlignedVec::from_slice(bytes));
                        },
                    }
                    Ok(())
                }
            },
            None => Err(OutputError::InvalidArgument),
        }
    }
}

/// A frame that a device handed over, as the driver described it: the
/// geometry, the raw numbers of its format and flags, and the answer to the
/// request for its bytes.
pub struct DecklinkVideoFrame {
    width: usize,
    height: usize,
    row_bytes: usize,
    pixel_format: u32,
    flags: u32,
    bytes_status: i32,
    bytes: Vec<u8>,
}

impl DecklinkFrameBase for DecklinkVideoFrame {
    closed spec fn spec_width(&self) -> usize {
        self.width
    }

    closed spec fn spec_height(&self) -> usize {
        self.height
    }

    closed spec fn spec_row_bytes(&self) -> usize {
        self.row_bytes
    }

    closed spec fn spec_pixel_format(&self) -> DecklinkPixelFormat {
        DecklinkVideoFrame::decode_pixel_format(self.pixel_format)
    }

    closed spec fn spec_flags(&self) -> DecklinkFrameFlags {
        DecklinkFrameFlags { bits: self.flags & DecklinkFrameFlags::ALL }
    }

    closed spec fn spec_bytes(&self) -> Result<Seq<u8>, OutputError> {
        OutputError::spec_check(self.bytes_status, self.bytes@)
    }

    fn width(&self) -> (w: usize) {
        self.width
    }

    fn height(&self) -> (h: usize) {
        self.height
    }

    fn row_bytes(&self) -> (n: usize) {
        self.row_bytes
    }

    fn pixel_format(&self) -> (f: DecklinkPixelFormat) {
        match DecklinkPixelFormat::from_u32(self.pixel_format) {
            Some(format) => format,
            None => DecklinkPixelFormat::Format8BitYUV,
        }
    }

    fn flags(&self) -> (f: DecklinkFrameFlags) {
        DecklinkFrameFlags::from_bits_truncate(self.flags)
    }

    fn bytes(&self) -> (r: Result<DecklinkAlignedBytes<'_>, OutputError>)
        ensures
            self.wf() ==> (r matches Ok(b) ==> b.0@.len() == frame_byte_count(
                self.spec_row_bytes(),
                self.spec_height(),
            )),
    {
        self.bytes_handle()
    }
}

impl DecklinkVideoFrame {
    /// The format that a frame with the format number `code` is taken to
    /// have: the one that the number names, or 8-bit YUV where it names none.
    pub open spec fn decode_pixel_format(code: u32) -> DecklinkPixelFormat {
        match DecklinkPixelFormat::spec_from_u32(code) {
            Some(format) => format,
            None => DecklinkPixelFormat::Format8BitYUV,
        }
    }

    /// Bytes, where the driver gave any, are one for every byte of every row.
    /// This holds of every frame that `new` made.
    pub closed spec fn wf(&self) -> bool {
        self.bytes_status == crate::util::STATUS_OK ==> self.bytes@.len() == frame_byte_count(
            self.row_bytes,
            self.height,
        )
    }

    /// Whether a driver's description of a frame can be taken as a frame:
    /// it can unless bytes came with it and their number is not the one that
    /// the geometry asks for.
    pub open spec fn describes_frame(
        height: usize,
        row_bytes: usize,
        bytes_status: i32,
        bytes: Seq<u8>,
    ) -> bool {
        bytes_status == crate::util::STATUS_OK ==> bytes.len() == frame_byte_count(
            row_bytes,
            height,
        )
    }

    /// Takes the driver's description of a frame. `bytes_status` is the status
    /// with which the driver answered the request for the bytes, `bytes` what
    /// it gave (of no account where the status is a failure).
    pub fn new(
        width: usize,
        height: usize,
        row_bytes: usize,
        pixel_format: u32,
        flags: u32,
        bytes_status: i32,
        bytes: Vec<u8>,
    ) -> (r: Result<Self, OutputError>)
        ensures
            Self::describes_frame(height, row_bytes, bytes_status, bytes@) ==> ({
                &&& r matches Ok(frame)
                &&& frame.wf()
                &&& frame.spec_width() == width
                &&& frame.spec_height() == height
                &&& frame.spec_row_bytes() == row_bytes
                &&& frame.spec_pixel_format() == Self::decode_pixel_format(pixel_format)
                &&& frame.spec_flags().spec_bits() == flags & DecklinkFrameFlags::ALL
                &&& frame.spec_bytes() == OutputError::spec_check(bytes_status, bytes@)
            }),
            !Self::describes_frame(height, row_bytes, bytes_status, bytes@) ==> r is Err && r->Err_0
                == OutputError::InvalidArgument,
    {
        let given: usize = bytes.len();
        let fits = match required_byte_count(row_bytes, height) {
            Some(count) => given == count,
            None => false,
        };
        if bytes_status == crate::util::STATUS_OK && !fits {
            Err(OutputError::InvalidArgument)
        } else {
            Ok(Self { width, height, row_bytes, pixel_format, flags, bytes_status, bytes })
        }
    }

    /// Get the pixel data of the video frame
    pub fn bytes_handle(&self) -> (r: Result<DecklinkAlignedBytes<'_>, OutputError>)
        ensures
            r matches Ok(b) ==> self.spec_bytes() == Ok::<Seq<u8>, OutputError>(b.0@),
            r matches Err(e) ==> self.spec_bytes() == Err::<Seq<u8>, OutputError>(e),
            self.wf() ==> (r matches Ok(b) ==> b.0@.len() == frame_byte_count(
                self.spec_row_bytes(),
                self.spec_height(),
            )),
    {
        if self.bytes_status == crate::util::STATUS_OK {
            Ok(DecklinkAlignedBytes(self.bytes.as_slice()))
        } else {
            Err(OutputError::DriverFailure(self.bytes_status))
        }
    }

    /// Get a copy of the pixel data of the video frame
    pub fn bytes_to_vec(&self) -> (r: Result<Vec<u8>, OutputError>)
        ensures
            r matches Ok(v) ==> self.spec_bytes() == Ok::<Seq<u8>, OutputError>(v@),
            r matches Err(e) ==> self.spec_bytes() == Err::<Seq<u8>, OutputError>(e),
    {
        if self.bytes_status == crate::util::STATUS_OK {
            Ok(copy_of(self.bytes.as_slice()))
        } else {
            Err(OutputError::DriverFailure(self.bytes_status))
        }
    }
}

/// A vector with the bytes of `src`, in order.
pub fn copy_of(src: &[u8]) -> (v: Vec<u8>)
    ensures
        v@ == src@,
{
    let mut v: Vec<u8> = Vec::new();
    let mut i: usize = 0;
    while i < src.len()
        invariant
            i <= src@.len(),
            v@ == src@.take(i as int),
        decreases src@.len() - i,
    {
        v.push(src[i]);
        i += 1;
        assert(src@.take(i as int) == src@.take(i - 1).push(src@[i - 1]));
    }
    assert(src@.take(src@.len() as int) == src@);
    v
}

} // verus!
