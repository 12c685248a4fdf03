//! X11 Protocol Events
//!
//! The events this server sends to clients, with the fields each carries.

use vstd::prelude::*;
use crate::protocol::types::{Button, KeyCode, ModifierMask, Timestamp, Window};

verus! {

/// An X11 event notification
#[derive(Debug, Clone)]
pub enum Event {
    Expose { window: Window, x: u16, y: u16, width: u16, height: u16, count: u16 },
    ConfigureNotify {
        event: Window,
        window: Window,
        above_sibling: Window,
        x: i16,
        y: i16,
        width: u16,
        height: u16,
        border_width: u16,
        override_redirect: bool,
    },
    KeyPress {
        detail: u8,
        time: Timestamp,
        root: Window,
        event: Window,
        child: Window,
        root_x: i16,
        root_y: i16,
        event_x: i16,
        event_y: i16,
        state: u16,
        same_screen: bool,
    },
    KeyRelease {
        detail: u8,
        time: Timestamp,
        root: Window,
        event: Window,
        child: Window,
        root_x: i16,
        root_y: i16,
        event_x: i16,
        event_y: i16,
        state: u16,
        same_screen: bool,
    },
    ButtonPress {
        detail: u8,
        time: Timestamp,
        root: Window,
        event: Window,
        child: Window,
        root_x: i16,
        root_y: i16,
        event_x: i16,
        event_y: i16,
        state: u16,
        same_screen: bool,
    },
    ButtonRelease {
        detail: u8,
        time: Timestamp,
        root: Window,
        event: Window,
        child: Window,
        root_x: i16,
        root_y: i16,
        event_x: i16,
        event_y: i16,
        state: u16,
        same_screen: bool,
    },
    MapNotify { event: Window, window: Window, override_redirect: bool },
    UnmapNotify { event: Window, window: Window, from_configure: bool },
    DestroyNotify { event: Window, window: Window },
}

/// ConfigureNotify event
#[derive(Debug, Clone)]
pub struct ConfigureNotifyEvent {
    pub event: Window,
    pub window: Window,
    pub above_sibling: Window,
    pub x: i16,
    pub y: i16,
    pub width: u16,
    pub height: u16,
    pub border_width: u16,
    pub override_redirect: bool,
}

/// MapNotify event
#[derive(Debug, Clone)]
pub struct MapNotifyEvent {
    pub event: Window,
    pub window: Window,
    pub override_redirect: bool,
}

/// UnmapNotify event
#[derive(Debug, Clone)]
pub struct UnmapNotifyEvent {
    pub event: Window,
    pub window: Window,
    pub from_configure: bool,
}

/// DestroyNotify event
#[derive(Debug, Clone)]
pub struct DestroyNotifyEvent {
    pub event: Window,
    pub window: Window,
}

/// KeyPress event
#[derive(Debug, Clone)]
pub struct KeyPressEvent {
    pub detail: KeyCode,
    pub time: Timestamp,
    pub root: Window,
    pub event: Window,
    pub child: Window,
    pub root_x: i16,
    pub root_y: i16,
    pub event_x: i16,
    pub event_y: i16,
    pub state: ModifierMask,
    pub same_screen: bool,
}

/// KeyRelease event (same structure as KeyPress)
pub type KeyReleaseEvent = KeyPressEvent;

/// ButtonPress event
#[derive(Debug, Clone)]
pub struct ButtonPressEvent {
    pub detail: Button,
    pub time: Timestamp,
    pub root: Window,
    pub event: Window,
    pub child: Window,
    pub root_x: i16,
    pub root_y: i16,
    pub event_x: i16,
    pub event_y: i16,
    pub state: ModifierMask,
    pub same_screen: bool,
}

/// ButtonRelease event (same structure as ButtonPress)
pub type ButtonReleaseEvent = ButtonPressEvent;

/// MotionNotify event
#[derive(Debug, Clone)]
pub struct MotionNotifyEvent {
    pub detail: u8,
    pub time: Timestamp,
    pub root: Window,
    pub event: Window,
    pub child: Window,
    pub root_x: i16,
    pub root_y: i16,
    pub event_x: i16,
    pub event_y: i16,
    pub state: ModifierMask,
    pub same_screen: bool,
}

} // verus!
