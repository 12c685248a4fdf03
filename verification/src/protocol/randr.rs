//! RANDR (Resize and Rotate) Extension Implementation
//!
//! This module implements the X11 RANDR extension which provides:
//! - Display configuration management
//! - Resolution and refresh rate changes
//! - Multi-monitor support
//! - Display rotation and reflection
//! - Hotplug event notifications

use vstd::prelude::*;
use std::collections::HashMap;
use crate::protocol::handshake::decimal;

pub mod handlers;

verus! {

broadcast use vstd::std_specs::hash::group_hash_axioms;

/// RANDR Mode represents a display mode (resolution + refresh rate)
#[derive(Debug, Clone, PartialEq, Eq, Hash)]
pub struct Mode {
    pub id: u32,
    pub width: u16,
    pub height: u16,
    /// in mHz (millihertz)
    pub refresh_rate: u32,
    pub name: String,
}

/// RANDR Output represents a physical or virtual display output
#[derive(Debug, Clone)]
pub struct Output {
    pub id: u32,
    pub name: String,
    /// Currently assigned CRTC, if any
    pub crtc_id: Option<u32>,
    /// List of supported mode IDs
    pub modes: Vec<u32>,
    /// Preferred mode ID
    pub preferred_mode: Option<u32>,
    /// Whether output is connected
    pub connected: bool,
    /// Physical width in millimeters
    pub width_mm: u32,
    /// Physical height in millimeters
    pub height_mm: u32,
}

/// RANDR CRTC (Controller) manages the display of content
#[derive(Debug, Clone)]
pub struct Crtc {
    pub id: u32,
    /// Position on screen
    pub x: i16,
    pub y: i16,
    /// Current mode dimensions
    pub width: u16,
    pub height: u16,
    /// Currently active mode
    pub mode_id: Option<u32>,
    /// Current rotation/reflection
    pub rotation: Rotation,
    /// Connected output IDs
    pub outputs: Vec<u32>,
}

/// Display rotation and reflection flags
#[derive(Debug, Clone, Copy, PartialEq, Eq, Structural)]
pub enum Rotation {
    Rotate0,
    Rotate90,
    Rotate180,
    Rotate270,
    ReflectX,
    ReflectY,
}

impl Rotation {
    /// The flag value of a rotation.
    pub open spec fn spec_value(self) -> u16 {
        match self {
            Rotation::Rotate0 => 1,
            Rotation::Rotate90 => 2,
            Rotation::Rotate180 => 4,
            Rotation::Rotate270 => 8,
            Rotation::ReflectX => 16,
            Rotation::ReflectY => 32,
        }
    }

    /// The rotation a flag value names; anything else reads as Rotate0.
    pub open spec fn spec_from_u16(value: u16) -> Rotation {
        if value == 1 {
            Rotation::Rotate0
        } else if value == 2 {
            Rotation::Rotate90
        } else if value == 4 {
            Rotation::Rotate180
        } else if value == 8 {
            Rotation::Rotate270
        } else if value == 16 {
            Rotation::ReflectX
        } else if value == 32 {
            Rotation::ReflectY
        } else {
            Rotation::Rotate0
        }
    }

    pub fn from_u16(value: u16) -> (r: Self)
        ensures
            r == Rotation::spec_from_u16(value),
    {
        match value {
            1 => Rotation::Rotate0,
            2 => Rotation::Rotate90,
            4 => Rotation::Rotate180,
            8 => Rotation::Rotate270,
            16 => Rotation::ReflectX,
            32 => Rotation::ReflectY,
            _ => Rotation::Rotate0,  // Default
        }
    }

    pub fn to_u16(&self) -> (v: u16)
        ensures
            v == self.spec_value(),
    {
        match self {
            Rotation::Rotate0 => 1,
            Rotation::Rotate90 => 2,
            Rotation::Rotate180 => 4,
            Rotation::Rotate270 => 8,
            Rotation::ReflectX => 16,
            Rotation::ReflectY => 32,
        }
    }
}

/// Reading back the flag value of a rotation gives the rotation.
pub proof fn lemma_rotation_round_trip(r: Rotation)
    ensures
        Rotation::spec_from_u16(r.spec_value()) == r,
{
}

/// A flag value that names a rotation is what that rotation writes.
pub proof fn lemma_rotation_value_round_trip(value: u16)
    requires
        value == 1 || value == 2 || value == 4 || value == 8 || value == 16 || value == 32,
    ensures
        Rotation::spec_from_u16(value).spec_value() == value,
{
}

/// RANDR Screen represents the root window's display configuration
#[derive(Debug, Clone)]
pub struct Screen {
    pub min_width: u16,
    pub min_height: u16,
    pub max_width: u16,
    pub max_height: u16,
    /// Current width
    pub width: u16,
    /// Current height
    pub height: u16,
    pub modes: Vec<Mode>,
    pub outputs: Vec<Output>,
    pub crtcs: Vec<Crtc>,
}

/// RANDR state for the entire server
#[derive(Debug, Clone)]
pub struct RandrState {
    pub version_major: u32,
    pub version_minor: u32,
    /// Screen ID -> Screen
    pub screens: HashMap<u32, Screen>,
}

impl Default for RandrState {
    fn default() -> (r: Self)
        ensures
            r.version_major == 1,
            r.version_minor == 6,
            r.screens@ == Map::<u32, Screen>::empty(),
    {
        Self {
            version_major: 1,
            version_minor: 6,  // Latest stable version
            screens: HashMap::new(),
        }
    }
}

/// The name of a mode of the given size: its width and height in decimal,
/// joined by 'x'.
pub open spec fn mode_name(width: u16, height: u16) -> Seq<char> {
    decimal(width as nat) + "x"@ + decimal(height as nat)
}

/// `format!` of a width and height into a mode name. `Display` for an
/// integer writes its decimal digits.
#[verifier::external_body]
fn format_mode_name(width: u16, height: u16) -> (s: String)
    ensures
        s@ == mode_name(width, height),
{
    format!("{}x{}", width, height)
}

/// Whether a mode has the given fields.
pub open spec fn mode_is(m: Mode, id: u32, width: u16, height: u16, name: Seq<char>) -> bool {
    m.id == id && m.width == width && m.height == height && m.refresh_rate == 60000 && m.name@
        == name
}

/// The screen `init_screen` sets up for a size: 320x240 to 8192x8192, five
/// 60 Hz modes (640x480, 800x600, 1024x768, the current size as mode 4,
/// 1920x1080), one connected output "Virtual-1" on CRTC 1 preferring mode 4,
/// and CRTC 1 showing mode 4 at the origin, unrotated, on output 1.
pub open spec fn initial_screen(s: Screen, width: u16, height: u16) -> bool {
    &&& s.min_width == 320 && s.min_height == 240 && s.max_width == 8192 && s.max_height == 8192
    &&& s.width == width && s.height == height
    &&& s.modes@.len() == 5
    &&& mode_is(s.modes@[0], 1, 640, 480, "640x480"@)
    &&& mode_is(s.modes@[1], 2, 800, 600, "800x600"@)
    &&& mode_is(s.modes@[2], 3, 1024, 768, "1024x768"@)
    &&& mode_is(s.modes@[3], 4, width, height, mode_name(width, height))
    &&& mode_is(s.modes@[4], 5, 1920, 1080, "1920x1080"@)
    &&& s.outputs@.len() == 1
    &&& s.outputs@[0].id == 1
    &&& s.outputs@[0].name@ == "Virtual-1"@
    &&& s.outputs@[0].crtc_id == Some(1u32)
    &&& s.outputs@[0].modes@ == seq![1u32, 2, 3, 4, 5]
    &&& s.outputs@[0].preferred_mode == Some(4u32)
    &&& s.outputs@[0].connected
    &&& s.outputs@[0].width_mm == 400 && s.outputs@[0].height_mm == 225
    &&& s.crtcs@.len() == 1
    &&& s.crtcs@[0].id == 1 && s.crtcs@[0].x == 0 && s.crtcs@[0].y == 0
    &&& s.crtcs@[0].width == width && s.crtcs@[0].height == height
    &&& s.crtcs@[0].mode_id == Some(4u32)
    &&& s.crtcs@[0].rotation == Rotation::Rotate0
    &&& s.crtcs@[0].outputs@ == seq![1u32]
}

/// `HashMap::get_mut`: the value a key maps to, to change in place; `None`
/// when the key is absent. What is written through it becomes the key's value.
#[verifier::external_body]
fn screens_get_mut<'a>(screens: &'a mut HashMap<u32, Screen>, key: &u32) -> (r: Option<
    &'a mut Screen,
>)
    ensures
        r is Some <==> old(screens)@.contains_key(*key),
        r matches Some(v) ==> (*v == old(screens)@[*key] && final(screens)@ == old(
            screens,
        )@.insert(*key, *final(v))),
        r is None ==> final(screens)@ == old(screens)@,
{
    screens.get_mut(key)
}

impl RandrState {
    pub fn new() -> (r: Self)
        ensures
            r.version_major == 1,
            r.version_minor == 6,
            r.screens@ == Map::<u32, Screen>::empty(),
    {
        Self::default()
    }

    /// Initialize RANDR state for a screen
    pub fn init_screen(&mut self, screen_id: u32, width: u16, height: u16)
        ensures
            final(self).version_major == old(self).version_major,
            final(self).version_minor == old(self).version_minor,
            final(self).screens@.dom() == old(self).screens@.dom().insert(screen_id),
            forall|k: u32|
                k != screen_id && #[trigger] old(self).screens@.contains_key(k) ==> (final(self).screens@[k]
                    == old(self).screens@[k]),
            initial_screen(final(self).screens@[screen_id], width, height),
    {
        let common_modes = vec![
            Mode { id: 1, width: 640, height: 480, refresh_rate: 60000, name: "640x480".to_owned() },
            Mode { id: 2, width: 800, height: 600, refresh_rate: 60000, name: "800x600".to_owned() },
            Mode {
                id: 3,
                width: 1024,
                height: 768,
                refresh_rate: 60000,
                name: "1024x768".to_owned(),
            },
            Mode { id: 4, width, height, refresh_rate: 60000, name: format_mode_name(width, height) },
            Mode {
                id: 5,
                width: 1920,
                height: 1080,
                refresh_rate: 60000,
                name: "1920x1080".to_owned(),
            },
        ];
        let mut screen = Screen {
            min_width: 320,
            min_height: 240,
            max_width: 8192,
            max_height: 8192,
            width,
            height,
            modes: Vec::new(),
            outputs: Vec::new(),
            crtcs: Vec::new(),
        };
        screen.modes = common_modes;
        // The output supports every mode, by id
        let mut mode_ids: Vec<u32> = Vec::new();
        let mut i: usize = 0;
        while i < screen.modes.len()
            invariant
                i <= screen.modes@.len(),
                mode_ids@.len() == i,
                forall|j: int| 0 <= j < i ==> mode_ids@[j] == screen.modes@[j].id,
            decreases screen.modes@.len() - i,
        {
            mode_ids.push(screen.modes[i].id);
            i = i + 1;
        }
        // Add a primary output
        let output = Output {
            id: 1,
            name: "Virtual-1".to_owned(),
            crtc_id: Some(1),
            modes: mode_ids,
            preferred_mode: Some(4),  // Current resolution
            connected: true,
            width_mm: 400,
            height_mm: 225,
        };
        screen.outputs.push(output);
        // Add a CRTC
        let crtc = Crtc {
            id: 1,
            x: 0,
            y: 0,
            width,
            height,
            mode_id: Some(4),
            rotation: Rotation::Rotate0,
            outputs: vec![1],
        };
        screen.crtcs.push(crtc);
        assert(screen.outputs@[0].modes@ =~= seq![1u32, 2, 3, 4, 5]);
        assert(screen.crtcs@[0].outputs@ =~= seq![1u32]);
        self.screens.insert(screen_id, screen);
        assert(self.screens@.dom() =~= old(self).screens@.dom().insert(screen_id));
    }

    /// Get screen by ID
    pub fn get_screen(&self, screen_id: u32) -> (r: Option<&Screen>)
        ensures
            r is Some <==> self.screens@.contains_key(screen_id),
            r matches Some(s) ==> *s == self.screens@[screen_id],
    {
        self.screens.get(&screen_id)
    }

    /// Get mutable screen by ID
    pub fn get_screen_mut(&mut self, screen_id: u32) -> (r: Option<&mut Screen>)
        ensures
            r is Some <==> old(self).screens@.contains_key(screen_id),
            r matches Some(s) ==> (*s == old(self).screens@[screen_id] && final(self).screens@
                == old(self).screens@.insert(screen_id, *final(s))),
            r is None ==> final(self).screens@ == old(self).screens@,
            final(self).version_major == old(self).version_major,
            final(self).version_minor == old(self).version_minor,
    {
        screens_get_mut(&mut self.screens, &screen_id)
    }
}

} // verus!
