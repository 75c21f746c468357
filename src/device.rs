//! Recognition of Car Thing USB devices by their vendor and product ids.
use vstd::prelude::*;

verus! {

/// Vendor id of a device booted for development (USB burn mode).
pub const DEV_ID_VENDOR: u16 = 0x1B8E;

/// Product id of a device booted for development.
pub const DEV_ID_PRODUCT: u16 = 0xC003;

/// Vendor id of a device booted normally.
pub const NORMAL_ID_VENDOR: u16 = 0x18D1;

/// Product id of a device booted normally.
pub const NORMAL_ID_PRODUCT: u16 = 0x4E40;

/// The mode a device was booted in.
#[derive(Debug, Clone, Copy, PartialEq, Eq, Structural)]
pub enum Mode {
    Normal,
    Development,
}

/// A device whose ids belong to neither mode.
#[derive(Debug, Clone, Copy, PartialEq, Eq, Structural)]
pub struct NotSupported;

/// The mode a pair of ids stands for.
pub open spec fn mode_spec(vendor: u16, product: u16) -> Option<Mode> {
    if vendor == DEV_ID_VENDOR && product == DEV_ID_PRODUCT {
        Some(Mode::Development)
    } else if vendor == NORMAL_ID_VENDOR && product == NORMAL_ID_PRODUCT {
        Some(Mode::Normal)
    } else {
        None
    }
}

/// The mode of a device from its descriptor's ids.
pub fn mode_of(vendor: u16, product: u16) -> (r: Result<Mode, NotSupported>)
    ensures
        match r {
            Ok(m) => mode_spec(vendor, product) == Some(m),
            Err(_) => mode_spec(vendor, product) is None,
        },
{
    if vendor == DEV_ID_VENDOR && product == DEV_ID_PRODUCT {
        Ok(Mode::Development)
    } else if vendor == NORMAL_ID_VENDOR && product == NORMAL_ID_PRODUCT {
        Ok(Mode::Normal)
    } else {
        Err(NotSupported)
    }
}

/// What a scan over attached devices does with the next one.
#[derive(Debug, Clone, Copy, PartialEq, Eq, Structural)]
pub enum ScanStep {
    /// It is a Car Thing: hand it out.
    Take,
    /// Some other device: go on to the next.
    Skip,
    /// Its descriptor could not be read: end the scan.
    Stop,
}

/// Decides the scan's step from the ids of the device's descriptor, or
/// `None` where the descriptor could not be read.
pub fn scan_step(ids: Option<(u16, u16)>) -> (r: ScanStep)
    ensures
        r == match ids {
            None => ScanStep::Stop,
            Some((v, p)) => if mode_spec(v, p) is Some {
                ScanStep::Take
            } else {
                ScanStep::Skip
            },
        },
{
    match ids {
        None => ScanStep::Stop,
        Some((v, p)) => match mode_of(v, p) {
            Ok(_) => ScanStep::Take,
            Err(_) => ScanStep::Skip,
        },
    }
}

} // verus!
