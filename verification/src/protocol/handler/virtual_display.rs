//! Virtual Display Protocol Handler
//!
//! The decisions of the native window that shows the server's framebuffer:
//! what a window resize does to the framebuffer, what each message from the
//! protocol side does, and how the protocol handler answers requests. The
//! window itself, its event loop and the channels stay with the caller.

use vstd::prelude::*;
use crate::protocol::error::{ProtocolError, ServerError, ServerResult};
use crate::protocol::endianness::{le32, zeros};
use crate::protocol::opcodes::graphics::{
    CHANGE_GC, CREATE_GC, FILL_POLY, FREE_GC, POLY_ARC, POLY_FILL_ARC, POLY_FILL_RECTANGLE,
    POLY_LINE, POLY_POINT, POLY_RECTANGLE, POLY_SEGMENT,
};
use crate::protocol::opcodes::text::{IMAGE_TEXT16, IMAGE_TEXT8, POLY_TEXT16, POLY_TEXT8};
use crate::protocol::opcodes::window::{
    CONFIGURE_WINDOW, CREATE_WINDOW, DESTROY_WINDOW, MAP_WINDOW, UNMAP_WINDOW,
};
use crate::protocol::types::Opcode;
use crate::protocol::wire::WireResponse;

verus! {

/// Messages for communicating with the virtual display thread
#[derive(Debug)]
pub enum DisplayMessage {
    UpdateFramebuffer(Vec<u32>),
    Refresh,
    Resize(u32, u32),
    ResizeRenderer(u32, u32),
    Shutdown,
}

/// Messages sent from the virtual display thread back to the protocol handler
#[derive(Debug)]
pub enum DisplayCallbackMessage {
    WindowResized(u32, u32),
}

/// The least time between two resizes the window carries out, in milliseconds.
pub const RESIZE_THROTTLE_MS: u64 = 50;

/// What a resize event of the window leads to.
#[derive(Debug, Clone, Copy, PartialEq, Eq, Structural)]
pub enum ResizeOutcome {
    /// A zero dimension (a minimised window) or the size already shown: nothing happens.
    Ignored,
    /// Too soon after the last resize: the size is remembered and nothing else happens.
    Deferred,
    /// Carried out: resize the surface, tell the protocol handler the new size,
    /// restart the throttle clock and redraw.
    Applied(u32, u32),
}

/// What a message from the protocol side leads to.
#[derive(Debug, Clone, Copy, PartialEq, Eq, Structural)]
pub enum MessageOutcome {
    Redraw,
    Exit,
}

/// The state the window's event loop keeps.
pub struct DisplayWindowState {
    pub current_width: u32,
    pub current_height: u32,
    pub framebuffer: Vec<u32>,
}

/// `new` written over `old` as far as the shorter of the two reaches.
pub open spec fn overwrite_prefix(old: Seq<u32>, new: Seq<u32>) -> Seq<u32> {
    if new.len() < old.len() {
        new + old.subrange(new.len() as int, old.len() as int)
    } else {
        new.subrange(0, old.len() as int)
    }
}

/// `fb` cut or zero-filled to `n` pixels.
pub open spec fn resized_framebuffer(fb: Seq<u32>, n: nat) -> Seq<u32> {
    if n <= fb.len() {
        fb.subrange(0, n as int)
    } else {
        fb + Seq::new((n - fb.len()) as nat, |i: int| 0u32)
    }
}

impl DisplayWindowState {
    /// The state of a new window of the given size: a black framebuffer of that size.
    pub fn new(width: u32, height: u32) -> (r: Self)
        requires
            width * height <= u32::MAX,
        ensures
            r.current_width == width,
            r.current_height == height,
            r.framebuffer@ == Seq::new((width * height) as nat, |i: int| 0u32),
    {
        let mut framebuffer: Vec<u32> = Vec::new();
        framebuffer.resize((width * height) as usize, 0u32);
        assert(framebuffer@ =~= Seq::new((width * height) as nat, |i: int| 0u32));
        Self { current_width: width, current_height: height, framebuffer }
    }

    /// A resize event to `new_width` x `new_height`, `elapsed_ms` after the last resize
    /// that was carried out.
    pub fn on_resized(&mut self, new_width: u32, new_height: u32, elapsed_ms: u64) -> (r:
        ResizeOutcome)
        requires
            new_width * new_height <= u32::MAX,
        ensures
            (new_width == 0 || new_height == 0 || (new_width == old(self).current_width
                && new_height == old(self).current_height)) ==> r == ResizeOutcome::Ignored
                && final(self).current_width == old(self).current_width
                && final(self).current_height == old(self).current_height
                && final(self).framebuffer@ == old(self).framebuffer@,
            !(new_width == 0 || new_height == 0 || (new_width == old(self).current_width
                && new_height == old(self).current_height)) ==> {
                &&& final(self).current_width == new_width
                &&& final(self).current_height == new_height
                &&& elapsed_ms < RESIZE_THROTTLE_MS ==> r == ResizeOutcome::Deferred
                    && final(self).framebuffer@ == old(self).framebuffer@
                &&& elapsed_ms >= RESIZE_THROTTLE_MS ==> r == ResizeOutcome::Applied(
                    new_width,
                    new_height,
                ) && final(self).framebuffer@ == resized_framebuffer(
                    old(self).framebuffer@,
                    (new_width * new_height) as nat,
                )
            },
    {
        if new_width == 0 || new_height == 0 {
            return ResizeOutcome::Ignored;
        }
        if new_width == self.current_width && new_height == self.current_height {
            return ResizeOutcome::Ignored;
        }
        if elapsed_ms < RESIZE_THROTTLE_MS {
            self.current_width = new_width;
            self.current_height = new_height;
            return ResizeOutcome::Deferred;
        }
        self.current_width = new_width;
        self.current_height = new_height;
        self.framebuffer.resize((new_width * new_height) as usize, 0u32);
        assert(self.framebuffer@ =~= resized_framebuffer(
            old(self).framebuffer@,
            (new_width * new_height) as nat,
        ));
        ResizeOutcome::Applied(new_width, new_height)
    }

    /// A message from the protocol side: a framebuffer update is copied in as far as
    /// both reach; shutdown ends the loop; every other message asks for a redraw.
    pub fn on_message(&mut self, message: DisplayMessage) -> (r: MessageOutcome)
        ensures
            final(self).current_width == old(self).current_width,
            final(self).current_height == old(self).current_height,
            message matches DisplayMessage::UpdateFramebuffer(fb) ==> final(self).framebuffer@
                == overwrite_prefix(old(self).framebuffer@, fb@),
            !(message is UpdateFramebuffer) ==> final(self).framebuffer@ == old(
                self,
            ).framebuffer@,
            (message is Shutdown) <==> r == MessageOutcome::Exit,
    {
        match message {
            DisplayMessage::UpdateFramebuffer(fb) => {
                let copy_len = if fb.len() < self.framebuffer.len() {
                    fb.len()
                } else {
                    self.framebuffer.len()
                };
                let mut i: usize = 0;
                while i < copy_len
                    invariant
                        i <= copy_len,
                        copy_len <= fb@.len(),
                        copy_len == if fb@.len() < old(self).framebuffer@.len() {
                            fb@.len()
                        } else {
                            old(self).framebuffer@.len()
                        },
                        self.framebuffer@.len() == old(self).framebuffer@.len(),
                        self.current_width == old(self).current_width,
                        self.current_height == old(self).current_height,
                        forall|j: int| 0 <= j < i ==> self.framebuffer@[j] == fb@[j],
                        forall|j: int|
                            i <= j < self.framebuffer@.len() ==> self.framebuffer@[j] == old(
                                self,
                            ).framebuffer@[j],
                    decreases copy_len - i,
                {
                    self.framebuffer.set(i, fb[i]);
                    i = i + 1;
                }
                assert(self.framebuffer@ =~= overwrite_prefix(old(self).framebuffer@, fb@));
                MessageOutcome::Redraw
            },
            DisplayMessage::Refresh => MessageOutcome::Redraw,
            DisplayMessage::Resize(_, _) => MessageOutcome::Redraw,
            DisplayMessage::ResizeRenderer(_, _) => MessageOutcome::Redraw,
            DisplayMessage::Shutdown => MessageOutcome::Exit,
        }
    }

    /// How many pixels a redraw copies into a window buffer of `buffer_len` pixels.
    pub fn present_len(&self, buffer_len: usize) -> (n: usize)
        ensures
            n == if self.framebuffer@.len() < buffer_len {
                self.framebuffer@.len()
            } else {
                buffer_len as nat
            },
    {
        if self.framebuffer.len() < buffer_len {
            self.framebuffer.len()
        } else {
            buffer_len
        }
    }
}

/// The window id the virtual display hands out for a created window.
pub const VIRTUAL_WINDOW_ID: u32 = 0x1000001;

/// How the virtual display answers a request: whether the display is refreshed
/// from the renderer first, and the reply, if any.
#[derive(Debug, Clone)]
pub struct VirtualDisplayAction {
    pub refresh: bool,
    pub reply: Option<WireResponse>,
}

/// Whether an opcode is one of the drawing requests.
pub open spec fn drawing_opcode(op: Opcode) -> bool {
    op matches Opcode::Core(n) && POLY_POINT <= n <= POLY_FILL_ARC
}

/// The opcodes the virtual display registers for, in registration order.
pub open spec fn virtual_display_opcodes() -> Seq<Opcode> {
    seq![
        Opcode::Core(CREATE_WINDOW),
        Opcode::Core(DESTROY_WINDOW),
        Opcode::Core(MAP_WINDOW),
        Opcode::Core(UNMAP_WINDOW),
        Opcode::Core(CONFIGURE_WINDOW),
        Opcode::Core(CREATE_GC),
        Opcode::Core(FREE_GC),
        Opcode::Core(CHANGE_GC),
        Opcode::Core(POLY_POINT),
        Opcode::Core(POLY_LINE),
        Opcode::Core(POLY_SEGMENT),
        Opcode::Core(POLY_RECTANGLE),
        Opcode::Core(POLY_ARC),
        Opcode::Core(FILL_POLY),
        Opcode::Core(POLY_FILL_RECTANGLE),
        Opcode::Core(POLY_FILL_ARC),
        Opcode::Core(POLY_TEXT8),
        Opcode::Core(POLY_TEXT16),
        Opcode::Core(IMAGE_TEXT8),
        Opcode::Core(IMAGE_TEXT16),
    ]
}

/// Protocol handler that displays content in a native window; it answers from
/// the opcode alone.
pub struct VirtualDisplayProtocolHandler {}

impl VirtualDisplayProtocolHandler {
    pub fn new() -> (r: ServerResult<Self>)
        ensures
            r is Ok,
    {
        Ok(Self {  })
    }

    /// CreateWindow refreshes the display and replies with the virtual window's id
    /// in the first four of 32 bytes; MapWindow, UnmapWindow, DestroyWindow and the
    /// drawing requests refresh it with no reply; CreateGC neither refreshes nor
    /// replies; any other opcode is unimplemented.
    pub fn handle_request(&self, client_id: u32, opcode: Opcode) -> (r: ServerResult<
        VirtualDisplayAction,
    >)
        ensures
            opcode == Opcode::Core(CREATE_WINDOW) ==> (r matches Ok(a) && a.refresh
                && (a.reply matches Some(resp) && resp.response_type == 1 && resp.data@ == le32(
                VIRTUAL_WINDOW_ID,
            ) + zeros(28))),
            (opcode == Opcode::Core(MAP_WINDOW) || opcode == Opcode::Core(UNMAP_WINDOW) || opcode
                == Opcode::Core(DESTROY_WINDOW) || drawing_opcode(opcode)) ==> (r matches Ok(a)
                && a.refresh && a.reply is None),
            opcode == Opcode::Core(CREATE_GC) ==> (r matches Ok(a) && !a.refresh
                && a.reply is None),
            !(opcode == Opcode::Core(CREATE_WINDOW) || opcode == Opcode::Core(MAP_WINDOW)
                || opcode == Opcode::Core(UNMAP_WINDOW) || opcode == Opcode::Core(DESTROY_WINDOW)
                || opcode == Opcode::Core(CREATE_GC) || drawing_opcode(opcode)) ==> r == Err::<
                VirtualDisplayAction,
                ServerError,
            >(ServerError::ProtocolError(ProtocolError::UnimplementedOpcode(opcode))),
    {
        match opcode {
            Opcode::Core(n) => {
                if n == CREATE_WINDOW {
                    let id = crate::protocol::endianness::encode_u32(
                        VIRTUAL_WINDOW_ID,
                        crate::protocol::types::ByteOrder::LittleEndian,
                    );
                    let mut data: Vec<u8> = Vec::new();
                    data.extend_from_slice(&id);
                    let mut i: usize = 0;
                    while i < 28
                        invariant
                            i <= 28,
                            data@ == le32(VIRTUAL_WINDOW_ID) + zeros(i as nat),
                        decreases 28 - i,
                    {
                        data.push(0u8);
                        i = i + 1;
                        assert(data@ =~= le32(VIRTUAL_WINDOW_ID) + zeros(i as nat));
                    }
                    Ok(
                        VirtualDisplayAction {
                            refresh: true,
                            reply: Some(WireResponse { response_type: 1, data }),
                        },
                    )
                } else if n == MAP_WINDOW || n == UNMAP_WINDOW || n == DESTROY_WINDOW || (
                POLY_POINT <= n && n <= POLY_FILL_ARC) {
                    Ok(VirtualDisplayAction { refresh: true, reply: None })
                } else if n == CREATE_GC {
                    Ok(VirtualDisplayAction { refresh: false, reply: None })
                } else {
                    Err(ServerError::ProtocolError(ProtocolError::UnimplementedOpcode(opcode)))
                }
            },
            Opcode::Extension(_, _) => Err(
                ServerError::ProtocolError(ProtocolError::UnimplementedOpcode(opcode)),
            ),
        }
    }

    /// A resize of the display is carried out only with both dimensions non-zero.
    pub fn accepts_resize(width: u32, height: u32) -> (b: bool)
        ensures
            b == (width != 0 && height != 0),
    {
        width != 0 && height != 0
    }

    /// The opcodes this handler registers for.
    pub fn supported_opcodes(&self) -> (v: Vec<Opcode>)
        ensures
            v@ == virtual_display_opcodes(),
    {
        let v = vec![
            Opcode::Core(CREATE_WINDOW),
            Opcode::Core(DESTROY_WINDOW),
            Opcode::Core(MAP_WINDOW),
            Opcode::Core(UNMAP_WINDOW),
            Opcode::Core(CONFIGURE_WINDOW),
            Opcode::Core(CREATE_GC),
            Opcode::Core(FREE_GC),
            Opcode::Core(CHANGE_GC),
            Opcode::Core(POLY_POINT),
            Opcode::Core(POLY_LINE),
            Opcode::Core(POLY_SEGMENT),
            Opcode::Core(POLY_RECTANGLE),
            Opcode::Core(POLY_ARC),
            Opcode::Core(FILL_POLY),
            Opcode::Core(POLY_FILL_RECTANGLE),
            Opcode::Core(POLY_FILL_ARC),
            Opcode::Core(POLY_TEXT8),
            Opcode::Core(POLY_TEXT16),
            Opcode::Core(IMAGE_TEXT8),
            Opcode::Core(IMAGE_TEXT16),
        ];
        assert(v@ =~= virtual_display_opcodes());
        v
    }
}

} // verus!
