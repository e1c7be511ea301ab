//! Value types of the industrial-camera binding.
//!
//! The vendor SDK does the grabbing; these are the plain descriptions the
//! rest of the application exchanges with it: camera identity, grab mode,
//! pixel formats and frame geometry, and the builder that says which camera
//! to open.

use vstd::prelude::*;

verus! {

/// Identity and vendor data of one discovered camera.
#[derive(Clone, Debug)]
pub struct CameraInfo {
    pub key: String,
    pub name: String,
    pub serial_number: String,
    pub vendor: String,
    pub model: String,
    pub manufacture_info: String,
    pub device_version: String,
}

/// How frames are acquired: continuously or one per trigger.
#[derive(Clone, Copy, Debug, PartialEq, Eq, Structural)]
pub enum GrabMode {
    Continuous,
    SingleFrame,
}

/// The pixel layouts the camera SDK can deliver.
#[derive(Clone, Copy, Debug)]
pub enum PixelFormat {
    Undefined,
    Mono1p,
    Mono2p,
    Mono4p,
    Mono8,
    Mono8S,
    Mono10,
    Mono10Packed,
    Mono12,
    Mono12Packed,
    Mono14,
    Mono16,
    BayGR8,
    BayRG8,
    BayGB8,
    BayBG8,
    BayGR10,
    BayRG10,
    BayGB10,
    BayBG10,
    BayGR12,
    BayRG12,
    BayGB12,
    BayBG12,
    BayGR10Packed,
    BayRG10Packed,
    BayGB10Packed,
    BayBG10Packed,
    BayGR12Packed,
    BayRG12Packed,
    BayGB12Packed,
    BayBG12Packed,
    BayGR16,
    BayRG16,
    BayGB16,
    BayBG16,
    RGB8,
    BGR8,
    RGBA8,
    BGRA8,
    RGB10,
    BGR10,
    RGB12,
    BGR12,
    RGB16,
    RGB10V1Packed,
    RGB10P32,
    RGB12V1Packed,
    RGB565P,
    BGR565P,
    YUV4118UYYVYY,
    YUV4228UYVY,
    YUV4228,
    YUV8UYV,
    YCbCr8CbYCr,
    YCbCr4228,
    YCbCr4228CbYCrY,
    YCbCr4118CbYYCrYY,
    YCbCr6018CbYCr,
    YCbCr6014228,
    YCbCr6014228CbYCrY,
    YCbCr6014118CbYYCrYY,
    YCbCr7098CbYCr,
    YCbCr7094228,
    YCbCr7094228CbYCrY,
    YCbCr7094118CbYYCrYY,
    YUV420SPNV12,
    RGB8Planar,
    RGB10Planar,
    RGB12Planar,
    RGB16Planar,
    BayRG10p,
    BayRG12p,
    Mono1c,
    Mono1e,
}

/// Width and height of a frame, in pixels.
#[derive(Clone, Copy, Debug, PartialEq, Eq, Structural)]
pub struct FrameSize {
    pub width: usize,
    pub height: usize,
}

/// How the SDK is told which camera to open.
#[derive(Clone, Copy, Debug, PartialEq, Eq, Structural)]
pub enum CreateHandleMode {
    /// By position in the discovery list.
    ByIndex,
    /// By the camera's key.
    ByCameraKey,
    /// By the user-assigned device identifier.
    ByDeviceUserId,
    /// By IP address.
    ByIpAddress,
}

/// Builder for opening one camera through the vendor SDK.
#[derive(Clone, Debug)]
pub struct IMVCameraBuilder {
    pub mode: CreateHandleMode,
    pub index: u32,
    pub camera_key: String,
    pub device_user_id: String,
    pub ip_address: String,
}

impl IMVCameraBuilder {
    /// The default selection: the first camera of the discovery list.
    pub fn new() -> (r: Self)
        ensures
            r.mode == CreateHandleMode::ByIndex,
            r.index == 0,
            r.camera_key@.len() == 0,
            r.device_user_id@.len() == 0,
            r.ip_address@.len() == 0,
    {
        IMVCameraBuilder {
            mode: CreateHandleMode::ByIndex,
            index: 0,
            camera_key: String::new(),
            device_user_id: String::new(),
            ip_address: String::new(),
        }
    }
}

} // verus!
