//! Device controls: each logical setting is a tag type bound to exactly one
//! control id, so a call site cannot pair a setting with another id.

use crate::device::{failure_code, reply_failure_code, CameraError, DeviceCall, Reply};
use crate::session::{Camera, Op};
use vstd::prelude::*;

verus! {
pub const EXPOSURE: u32 = 0x009a_0902;
pub const EXPOSURE_AUTO: u32 = 0x009a_0901;
pub const GAIN: u32 = 0x0098_0913;
pub const GAMMA: u32 = 0x0098_0910;
pub const BRIGHTNESS: u32 = 0x0098_0900;
pub const CONTRAST: u32 = 0x0098_0901;
pub const HUE: u32 = 0x0098_0903;
pub const SATURATION: u32 = 0x0098_0902;
pub const WHITE_BALANCE: u32 = 0x0098_091a;
pub const BACKLIGHT_COMPENSATION: u32 = 0x0098_091c;
pub const WHITE_BALANCE_AUTO: u32 = 0x0098_090c;

/// A setting tag: a type that stands for one device control.
pub trait CameraSetting {
    /// The control id this tag is bound to.
    spec fn spec_id() -> u32;

    /// The control id this tag is bound to.
    fn id() -> (r: u32)
        ensures
            r == Self::spec_id(),
    ;
}

/// Absolute exposure time.
pub struct Exposure;

impl CameraSetting for Exposure {
    open spec fn spec_id() -> u32 {
        EXPOSURE
    }

    fn id() -> (r: u32) {
        EXPOSURE
    }
}

/// Automatic exposure mode.
pub struct ExposureAuto;

impl CameraSetting for ExposureAuto {
    open spec fn spec_id() -> u32 {
        EXPOSURE_AUTO
    }

    fn id() -> (r: u32) {
        EXPOSURE_AUTO
    }
}

/// Gain.
pub struct Gain;

impl CameraSetting for Gain {
    open spec fn spec_id() -> u32 {
        GAIN
    }

    fn id() -> (r: u32) {
        GAIN
    }
}

/// Gamma.
pub struct Gamma;

impl CameraSetting for Gamma {
    open spec fn spec_id() -> u32 {
        GAMMA
    }

    fn id() -> (r: u32) {
        GAMMA
    }
}

/// Brightness.
pub struct Brightness;

impl CameraSetting for Brightness {
    open spec fn spec_id() -> u32 {
        BRIGHTNESS
    }

    fn id() -> (r: u32) {
        BRIGHTNESS
    }
}

/// Contrast.
pub struct Contrast;

impl CameraSetting for Contrast {
    open spec fn spec_id() -> u32 {
        CONTRAST
    }

    fn id() -> (r: u32) {
        CONTRAST
    }
}

/// Hue.
pub struct Hue;

impl CameraSetting for Hue {
    open spec fn spec_id() -> u32 {
        HUE
    }

    fn id() -> (r: u32) {
        HUE
    }
}

/// Saturation.
pub struct Saturation;

impl CameraSetting for Saturation {
    open spec fn spec_id() -> u32 {
        SATURATION
    }

    fn id() -> (r: u32) {
        SATURATION
    }
}

/// White balance temperature.
pub struct WhiteBalance;

impl CameraSetting for WhiteBalance {
    open spec fn spec_id() -> u32 {
        WHITE_BALANCE
    }

    fn id() -> (r: u32) {
        WHITE_BALANCE
    }
}

/// Backlight compensation.
pub struct BacklightCompensation;

impl CameraSetting for BacklightCompensation {
    open spec fn spec_id() -> u32 {
        BACKLIGHT_COMPENSATION
    }

    fn id() -> (r: u32) {
        BACKLIGHT_COMPENSATION
    }
}

/// Automatic white balance.
pub struct WhiteBalanceAuto;

impl CameraSetting for WhiteBalanceAuto {
    open spec fn spec_id() -> u32 {
        WHITE_BALANCE_AUTO
    }

    fn id() -> (r: u32) {
        WHITE_BALANCE_AUTO
    }
}

/// The SET-CONTROL call that sets control `setting` to `value`.
pub fn set_dev_settings(setting: u32, value: i32) -> (r: DeviceCall)
    ensures
        r == (DeviceCall::SetControl { id: setting, value }),
{
    DeviceCall::SetControl { id: setting, value }
}

/// The GET-CONTROL call that reads control `setting`.
pub fn get_dev_settings(setting: u32) -> (r: DeviceCall)
    ensures
        r == (DeviceCall::GetControl { id: setting }),
{
    DeviceCall::GetControl { id: setting }
}

/// What a reply to GET-CONTROL means: the value, or the device's refusal.
pub open spec fn control_value_of(r: Reply) -> Result<i32, CameraError> {
    match r {
        Reply::Control { value } => Ok(value),
        _ => Err(CameraError::ControlUnsupported(failure_code(r))),
    }
}

/// What a reply to SET-CONTROL means: success, or the device's refusal.
pub open spec fn control_set_of(r: Reply) -> Result<(), CameraError> {
    match r {
        Reply::Done => Ok(()),
        _ => Err(CameraError::ControlUnsupported(failure_code(r))),
    }
}

/// Reads the reply to GET-CONTROL.
pub fn control_value(r: Reply) -> (res: Result<i32, CameraError>)
    ensures
        res == control_value_of(r),
{
    match r {
        Reply::Control { value } => Ok(value),
        _ => Err(CameraError::ControlUnsupported(reply_failure_code(&r))),
    }
}

/// Reads the reply to SET-CONTROL.
pub fn control_set(r: Reply) -> (res: Result<(), CameraError>)
    ensures
        res == control_set_of(r),
{
    match r {
        Reply::Done => Ok(()),
        _ => Err(CameraError::ControlUnsupported(reply_failure_code(&r))),
    }
}

impl Camera {
    /// The call that sets the control of tag `T` to `value`; it is made
    /// between captures, with no call outstanding.
    pub fn set<T: CameraSetting>(&self, value: i32) -> (r: DeviceCall)
        requires
            self@.op == Op::Idle,
        ensures
            r == (DeviceCall::SetControl { id: T::spec_id(), value }),
    {
        set_dev_settings(T::id(), value)
    }

    /// The call that reads the control of tag `T`; it is made between
    /// captures, with no call outstanding.
    pub fn get<T: CameraSetting>(&self) -> (r: DeviceCall)
        requires
            self@.op == Op::Idle,
        ensures
            r == (DeviceCall::GetControl { id: T::spec_id() }),
    {
        get_dev_settings(T::id())
    }
}

} // verus!
