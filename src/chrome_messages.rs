//! What the owner's and the helper's window procedures do with each message.
use vstd::prelude::*;
use crate::chrome_geometry::{HitZone, sizing_direction};

verus! {

pub const WM_DESTROY: u32 = 0x0002;
pub const WM_MOVE: u32 = 0x0003;
pub const WM_SIZE: u32 = 0x0005;
pub const WM_ERASEBKGND: u32 = 0x0014;
pub const WM_SHOWWINDOW: u32 = 0x0018;
pub const WM_MOUSEACTIVATE: u32 = 0x0021;
pub const WM_WINDOWPOSCHANGED: u32 = 0x0047;
pub const WM_NCCREATE: u32 = 0x0081;
pub const WM_NCCALCSIZE: u32 = 0x0083;
pub const WM_NCHITTEST: u32 = 0x0084;
pub const WM_NCLBUTTONDOWN: u32 = 0x00A1;
pub const WM_SIZING: u32 = 0x0214;
pub const WM_MOVING: u32 = 0x0216;

/// The system command that starts a resize; the sizing direction is added.
pub const SC_SIZE: usize = 0xF000;

/// What the owner's window procedure does with a message.
#[derive(Clone, Copy, PartialEq, Eq, Structural, Debug)]
pub enum OwnerAction {
    /// Answer zero: the client area fills the whole window.
    ClientFillsWindow,
    /// Move the helper with the owner, and show or hide it where given;
    /// then forward the message.
    SyncHelper { show: Option<bool> },
    /// Take the chrome off before the owner is destroyed; then forward.
    TearDown,
    /// Answer with the owner's hit-test zone.
    HitTest,
    /// Forward to the previous window procedure.
    Forward,
}

pub open spec fn owner_action(msg: u32, wparam: usize) -> OwnerAction {
    if msg == WM_NCCALCSIZE {
        if wparam != 0 {
            OwnerAction::ClientFillsWindow
        } else {
            OwnerAction::Forward
        }
    } else if msg == WM_SHOWWINDOW {
        OwnerAction::SyncHelper { show: Some(wparam != 0) }
    } else if msg == WM_MOVE || msg == WM_MOVING || msg == WM_SIZE || msg == WM_SIZING || msg
        == WM_WINDOWPOSCHANGED {
        OwnerAction::SyncHelper { show: None }
    } else if msg == WM_DESTROY {
        OwnerAction::TearDown
    } else if msg == WM_NCHITTEST {
        OwnerAction::HitTest
    } else {
        OwnerAction::Forward
    }
}

/// Routes a message of the owner window.
pub fn owner_message_action(msg: u32, wparam: usize) -> (a: OwnerAction)
    ensures
        a == owner_action(msg, wparam),
{
    if msg == WM_NCCALCSIZE {
        if wparam != 0 {
            OwnerAction::ClientFillsWindow
        } else {
            OwnerAction::Forward
        }
    } else if msg == WM_SHOWWINDOW {
        OwnerAction::SyncHelper { show: Some(wparam != 0) }
    } else if msg == WM_MOVE || msg == WM_MOVING || msg == WM_SIZE || msg == WM_SIZING || msg
        == WM_WINDOWPOSCHANGED {
        OwnerAction::SyncHelper { show: None }
    } else if msg == WM_DESTROY {
        OwnerAction::TearDown
    } else if msg == WM_NCHITTEST {
        OwnerAction::HitTest
    } else {
        OwnerAction::Forward
    }
}

/// What the helper's window procedure does with a message.
#[derive(Clone, Copy, PartialEq, Eq, Structural, Debug)]
pub enum HelperAction {
    /// Keep the owner handle passed at creation; answer one.
    StashOwner,
    /// Draw nothing; answer one.
    SkipErase,
    /// Answer with the helper's hit-test zone.
    HitTest,
    /// Post `command` as a system command to the owner, which starts a
    /// resize in the direction of the band that was pressed.
    StartResize { command: usize },
    /// Never activate on a click; answer "no activate".
    NoActivate,
    /// Leave it to the default window procedure.
    Default,
}

/// The zone a hit-test code names, for the eight resize codes.
pub open spec fn resize_zone_of_code(code: usize) -> Option<HitZone> {
    if code == 10 {
        Some(HitZone::Left)
    } else if code == 11 {
        Some(HitZone::Right)
    } else if code == 12 {
        Some(HitZone::Top)
    } else if code == 13 {
        Some(HitZone::TopLeft)
    } else if code == 14 {
        Some(HitZone::TopRight)
    } else if code == 15 {
        Some(HitZone::Bottom)
    } else if code == 16 {
        Some(HitZone::BottomLeft)
    } else if code == 17 {
        Some(HitZone::BottomRight)
    } else {
        None
    }
}

pub open spec fn helper_action(msg: u32, wparam: usize) -> HelperAction {
    if msg == WM_NCCREATE {
        HelperAction::StashOwner
    } else if msg == WM_ERASEBKGND {
        HelperAction::SkipErase
    } else if msg == WM_NCHITTEST {
        HelperAction::HitTest
    } else if msg == WM_MOUSEACTIVATE {
        HelperAction::NoActivate
    } else if msg == WM_NCLBUTTONDOWN && resize_zone_of_code(wparam).is_some() {
        HelperAction::StartResize {
            command: (SC_SIZE + sizing_direction(resize_zone_of_code(wparam).unwrap()).unwrap()) as usize,
        }
    } else {
        HelperAction::Default
    }
}

/// The resize zone named by a hit-test code, if it names one.
pub fn resize_zone_from_code(code: usize) -> (z: Option<HitZone>)
    ensures
        z == resize_zone_of_code(code),
{
    if code == 10 {
        Some(HitZone::Left)
    } else if code == 11 {
        Some(HitZone::Right)
    } else if code == 12 {
        Some(HitZone::Top)
    } else if code == 13 {
        Some(HitZone::TopLeft)
    } else if code == 14 {
        Some(HitZone::TopRight)
    } else if code == 15 {
        Some(HitZone::Bottom)
    } else if code == 16 {
        Some(HitZone::BottomLeft)
    } else if code == 17 {
        Some(HitZone::BottomRight)
    } else {
        None
    }
}

/// Routes a message of the helper window. A non-client press on one of its
/// resize bands becomes a resize command for the owner.
pub fn helper_message_action(msg: u32, wparam: usize) -> (a: HelperAction)
    ensures
        a == helper_action(msg, wparam),
{
    if msg == WM_NCCREATE {
        HelperAction::StashOwner
    } else if msg == WM_ERASEBKGND {
        HelperAction::SkipErase
    } else if msg == WM_NCHITTEST {
        HelperAction::HitTest
    } else if msg == WM_MOUSEACTIVATE {
        HelperAction::NoActivate
    } else if msg == WM_NCLBUTTONDOWN {
        match resize_zone_from_code(wparam) {
            Some(zone) => {
                let direction = zone.sizing_direction().unwrap();
                HelperAction::StartResize { command: SC_SIZE + direction as usize }
            },
            None => HelperAction::Default,
        }
    } else {
        HelperAction::Default
    }
}

} // verus!
