//! A device and what can be asked of it.

pub mod attributes;
pub mod input;
pub mod notification;
pub mod output;
pub mod reading;
pub mod status;

use crate::display_mode::{DecklinkDisplayMode, DecklinkDisplayModeId};
use crate::frame::DecklinkPixelFormat;
use crate::util::{SdkError, STATUS_OK};
use vstd::prelude::*;

verus! {

/// How far a device supports a video mode.
#[derive(Debug, Clone, Copy, PartialEq, Eq, Structural)]
pub enum DecklinkDisplayModeSupport {
    NotSupported,
    Supported,
    SupportedWithConversion,
}

impl DecklinkDisplayModeSupport {
    /// The support that the driver names by `code`, if it names one.
    pub open spec fn spec_from_u32(code: u32) -> Option<Self> {
        if code == 0 {
            Some(DecklinkDisplayModeSupport::NotSupported)
        } else if code == 1 {
            Some(DecklinkDisplayModeSupport::Supported)
        } else if code == 2 {
            Some(DecklinkDisplayModeSupport::SupportedWithConversion)
        } else {
            None
        }
    }

    pub fn from_u32(code: u32) -> (r: Option<Self>)
        ensures
            r == Self::spec_from_u32(code),
    {
        if code == 0 {
            Some(DecklinkDisplayModeSupport::NotSupported)
        } else if code == 1 {
            Some(DecklinkDisplayModeSupport::Supported)
        } else if code == 2 {
            Some(DecklinkDisplayModeSupport::SupportedWithConversion)
        } else {
            None
        }
    }
}

/// Something that can be asked which video modes it supports.
pub trait DecklinkDeviceDisplayModes<T> {
    fn does_support_video_mode(
        &self,
        mode: DecklinkDisplayModeId,
        pixel_format: DecklinkPixelFormat,
        flags: T,
    ) -> Result<(DecklinkDisplayModeSupport, Option<DecklinkDisplayMode>), SdkError>;

    fn display_modes(&self) -> Result<Vec<DecklinkDisplayMode>, SdkError>;
}

/// The support that an answer of the driver amounts to: the one it named,
/// unless it named none that is known or came without a video mode; then
/// the mode counts as not supported.
pub open spec fn spec_support(code: u32, has_mode: bool) -> DecklinkDisplayModeSupport {
    match DecklinkDisplayModeSupport::spec_from_u32(code) {
        Some(support) => if has_mode {
            support
        } else {
            DecklinkDisplayModeSupport::NotSupported
        },
        None => DecklinkDisplayModeSupport::NotSupported,
    }
}

/// Reads the driver's answer to the question whether a video mode is
/// supported: its failure where the call failed; otherwise the support that
/// the answer amounts to, and with it the video mode that came along, unless
/// the mode is not supported.
pub fn video_mode_support(
    status: i32,
    supported: u32,
    display_mode: Option<DecklinkDisplayMode>,
) -> (r: Result<(DecklinkDisplayModeSupport, Option<DecklinkDisplayMode>), SdkError>)
    ensures
        status != STATUS_OK ==> r is Err && r->Err_0 == SdkError::spec_from(status),
        status == STATUS_OK ==> r is Ok && r->Ok_0.0 == spec_support(
            supported,
            display_mode.is_some(),
        ) && r->Ok_0.1 == (if spec_support(supported, display_mode.is_some())
            == DecklinkDisplayModeSupport::NotSupported {
            None
        } else {
            display_mode
        }),
{
    if status != STATUS_OK {
        return Err(SdkError::from(status));
    }
    let named = match DecklinkDisplayModeSupport::from_u32(supported) {
        Some(support) => support,
        None => DecklinkDisplayModeSupport::NotSupported,
    };
    if display_mode.is_none() || named == DecklinkDisplayModeSupport::NotSupported {
        Ok((DecklinkDisplayModeSupport::NotSupported, None))
    } else {
        Ok((named, display_mode))
    }
}

} // verus!
