//! Basic X11 data types and constants.

use vstd::prelude::*;

pub mod constants;
pub mod value_mask;

verus! {

/// Byte order of a client connection.
#[derive(Debug, Clone, Copy, PartialEq, Eq, Structural)]
pub enum ByteOrder {
    LittleEndian,
    BigEndian,
}

pub type XId = u32;
pub type VisualId = u32;
pub type WindowId = u32;
pub type PixmapId = u32;
pub type GContextId = u32;
pub type FontId = u32;
pub type CursorId = u32;
pub type ColormapId = u32;
pub type Atom = u32;
pub type DrawableId = u32;
pub type PictureId = u32;

pub type SequenceNumber = u16;
pub type Window = u32;
pub type Pixmap = u32;
pub type Drawable = u32;
pub type GContext = u32;
pub type Font = u32;
pub type Cursor = u32;
pub type Colormap = u32;
pub type Timestamp = u32;
pub type KeyCode = u8;
pub type KeySym = u32;
pub type Button = u8;
pub type ModifierMask = u16;

/// A request opcode: a core protocol opcode (1-127), or an extension's major
/// opcode (128-255) together with the sub-request's minor opcode.
#[derive(Debug, Clone, Copy, PartialEq, Eq, Structural)]
pub enum Opcode {
    Core(u8),
    Extension(u8, u8),
}

impl Opcode {
    /// The opcode of a core protocol request.
    pub fn from_u8(opcode: u8) -> (o: Opcode)
        ensures
            o == Opcode::Core(opcode),
    {
        Opcode::Core(opcode)
    }

    /// The opcode of an extension request.
    pub fn from_extension(major: u8, minor: u8) -> (o: Opcode)
        ensures
            o == Opcode::Extension(major, minor),
    {
        Opcode::Extension(major, minor)
    }
}

/// Errors of the X11 layer.
#[derive(Debug, Clone)]
pub enum X11Error {
    Protocol(String),
    Validation(String),
    Serialization(String),
    DetailedValue(String),
}

pub type Result<T> = core::result::Result<T, X11Error>;

/// A set of event-mask bits.
#[derive(Debug, Clone, Copy, PartialEq, Eq, Structural)]
pub struct EventMask {
    pub mask: u32,
}

impl EventMask {
    /// The raw mask bits.
    pub fn bits(&self) -> (b: u32)
        ensures
            b == self.mask,
    {
        self.mask
    }
}

/// Window gravity / bit gravity value as carried in replies.
pub type Gravity = u8;

// Window class enumeration
#[derive(Debug, Clone, Copy, PartialEq, Eq, Structural)]
pub enum WindowClass {
    CopyFromParent,
    InputOutput,
    InputOnly,
}

impl WindowClass {
    /// The protocol value of this class.
    pub open spec fn spec_value(self) -> u16 {
        match self {
            WindowClass::CopyFromParent => 0,
            WindowClass::InputOutput => 1,
            WindowClass::InputOnly => 2,
        }
    }

    /// The protocol value of this class.
    pub fn to_u16(self) -> (v: u16)
        ensures
            v == self.spec_value(),
    {
        match self {
            WindowClass::CopyFromParent => 0,
            WindowClass::InputOutput => 1,
            WindowClass::InputOnly => 2,
        }
    }
}

// Bit gravity enumeration
#[derive(Debug, Clone, Copy, PartialEq, Eq, Structural)]
pub enum BitGravity {
    Forget,
    NorthWest,
    North,
    NorthEast,
    West,
    Center,
    East,
    SouthWest,
    South,
    SouthEast,
    Static,
}

// Window gravity enumeration
#[derive(Debug, Clone, Copy, PartialEq, Eq, Structural)]
pub enum WinGravity {
    Unmap,
    NorthWest,
    North,
    NorthEast,
    West,
    Center,
    East,
    SouthWest,
    South,
    SouthEast,
    Static,
}

/// RANDR extension minor opcodes.
#[derive(Debug, Clone, Copy, PartialEq, Eq, Structural)]
pub enum RandrOpcode {
    QueryVersion,
    GetScreenResources,
    GetOutputInfo,
    GetCrtcInfo,
    GetScreenSizeRange,
}

impl RandrOpcode {
    pub open spec fn spec_value(self) -> u8 {
        match self {
            RandrOpcode::QueryVersion => 0,
            RandrOpcode::GetScreenResources => 1,
            RandrOpcode::GetOutputInfo => 2,
            RandrOpcode::GetCrtcInfo => 13,
            RandrOpcode::GetScreenSizeRange => 18,
        }
    }

    /// The minor opcode of this RANDR request.
    pub fn to_u8(self) -> (v: u8)
        ensures
            v == self.spec_value(),
    {
        match self {
            RandrOpcode::QueryVersion => 0,
            RandrOpcode::GetScreenResources => 1,
            RandrOpcode::GetOutputInfo => 2,
            RandrOpcode::GetCrtcInfo => 13,
            RandrOpcode::GetScreenSizeRange => 18,
        }
    }
}

/// RENDER extension minor opcodes.
#[derive(Debug, Clone, Copy, PartialEq, Eq, Structural)]
pub enum RenderOpcode {
    QueryVersion,
    CreateSolidFill,
}

impl RenderOpcode {
    pub open spec fn spec_value(self) -> u8 {
        match self {
            RenderOpcode::QueryVersion => 0,
            RenderOpcode::CreateSolidFill => 33,
        }
    }

    /// The minor opcode of this RENDER request.
    pub fn to_u8(self) -> (v: u8)
        ensures
            v == self.spec_value(),
    {
        match self {
            RenderOpcode::QueryVersion => 0,
            RenderOpcode::CreateSolidFill => 33,
        }
    }
}

/// BIG-REQUESTS extension minor opcodes.
#[derive(Debug, Clone, Copy, PartialEq, Eq, Structural)]
pub enum BigRequestsOpcode {
    Enable,
}

impl BigRequestsOpcode {
    /// The minor opcode of this BIG-REQUESTS request.
    pub fn to_u8(self) -> (v: u8)
        ensures
            v == 0,
    {
        0
    }
}

// Backing store enumeration
#[derive(Debug, Clone, Copy, PartialEq, Eq, Structural)]
pub enum BackingStore {
    NotUseful,
    WhenMapped,
    Always,
}

} // verus!
