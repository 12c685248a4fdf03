//! RANDR (Resize and Rotate) Extension Handlers
//!
//! This module contains the request handlers for RANDR extension operations:
//! each builds its reply from the server's RANDR state.

use vstd::prelude::*;
use crate::protocol::connection::text_bytes;
use crate::protocol::endianness::{le16, le32, zeros, EndianWriter};
use crate::protocol::handler::{HandlerResult, RequestHandler};
use crate::protocol::randr::{Crtc, Mode, Output, RandrState, Screen};
use crate::protocol::handlers::{wrong_kind_message, wrong_kind_prefix};
use crate::protocol::request::{Request, RequestKind};
use crate::protocol::types::{ByteOrder, RandrOpcode, X11Error};

verus! {

broadcast use vstd::std_specs::hash::group_hash_axioms;

/// The 32-byte little-endian reply with an empty second byte: 1, 0, the
/// sequence number, a zero length, `tail`, zeros to 32 bytes.
pub open spec fn randr_short_reply(sequence: u16, tail: Seq<u8>) -> Seq<u8> {
    seq![1u8, 0u8] + le16(sequence) + le32(0) + tail + zeros((24 - tail.len()) as nat)
}

/// The screen the RANDR requests other than GetScreenResources use: screen 0.
pub open spec fn screen_zero(state: RandrState) -> Option<Screen> {
    if state.screens@.contains_key(0) {
        Some(state.screens@[0])
    } else {
        None
    }
}

/// The error a RANDR handler gives when handed a request of another kind: a
/// protocol error naming the handler and the request kind it got.
fn wrong_kind(handler: &str, kind: &RequestKind) -> (e: X11Error)
    ensures
        e matches X11Error::Protocol(m) && wrong_kind_prefix(handler@).is_prefix_of(m@),
{
    X11Error::Protocol(wrong_kind_message(handler, kind))
}

/// The error a RANDR handler gives when there is no screen to report on.
fn screen_not_found() -> (e: X11Error)
    ensures
        e matches X11Error::Protocol(m) && m@ == "Screen not found"@,
{
    X11Error::Protocol("Screen not found".to_owned())
}

/// Handler for RandrQueryVersion requests (minor opcode 0)
pub struct RandrQueryVersionHandler {
    major_opcode: u8,
}

impl RandrQueryVersionHandler {
    /// The major opcode this handler serves.
    pub closed spec fn major(&self) -> u8 {
        self.major_opcode
    }

    pub fn new(major_opcode: u8) -> (r: Self)
        ensures
            r.major() == major_opcode,
    {
        Self { major_opcode }
    }

    /// The RANDR version the server state announces.
    pub fn handle_request(&self, request: &Request, randr_state: &RandrState) -> (r: HandlerResult<
        Option<Vec<u8>>,
    >)
        ensures
            !(request.kind is RandrQueryVersion) <==> r is Err,
            r matches Err(e) ==> e is Protocol,
            r matches Ok(reply) ==> reply matches Some(b) && b@ == randr_short_reply(
                request.sequence_number,
                le32(randr_state.version_major) + le32(randr_state.version_minor),
            ),
    {
        match &request.kind {
            RequestKind::RandrQueryVersion(_) => {},
            _ => return Err(wrong_kind("RandrQueryVersion", &request.kind)),
        }
        let mut writer = EndianWriter::new(Vec::new(), ByteOrder::LittleEndian);
        writer.write_u8(1);  // Reply
        writer.write_u8(0);  // Unused
        writer.write_u16(request.sequence_number);  // Sequence number
        writer.write_u32(0);  // Reply length
        writer.write_u32(randr_state.version_major);  // Server major version
        writer.write_u32(randr_state.version_minor);  // Server minor version
        writer.write_padding(16);  // Padding to 32 bytes
        let bytes = writer.into_buffer();
        assert(bytes@ =~= randr_short_reply(
            request.sequence_number,
            le32(randr_state.version_major) + le32(randr_state.version_minor),
        ));
        Ok(Some(bytes))
    }
}

/// Handler for RandrGetScreenSizeRange requests (minor opcode 18)
pub struct RandrGetScreenSizeRangeHandler {
    major_opcode: u8,
}

impl RandrGetScreenSizeRangeHandler {
    /// The major opcode this handler serves.
    pub closed spec fn major(&self) -> u8 {
        self.major_opcode
    }

    pub fn new(major_opcode: u8) -> (r: Self)
        ensures
            r.major() == major_opcode,
    {
        Self { major_opcode }
    }

    /// The size range of screen 0.
    pub fn handle_request(&self, request: &Request, randr_state: &RandrState) -> (r: HandlerResult<
        Option<Vec<u8>>,
    >)
        ensures
            !(request.kind is RandrGetScreenSizeRange) || screen_zero(*randr_state) is None
                <==> r is Err,
            r matches Err(e) ==> e is Protocol,
            r matches Ok(reply) ==> {
                let s = screen_zero(*randr_state)->0;
                reply matches Some(b) && b@ == randr_short_reply(
                    request.sequence_number,
                    le16(s.min_width) + le16(s.min_height) + le16(s.max_width) + le16(s.max_height),
                )
            },
    {
        match &request.kind {
            RequestKind::RandrGetScreenSizeRange(_) => {},
            _ => return Err(wrong_kind("RandrGetScreenSizeRange", &request.kind)),
        }
        let screen = match randr_state.get_screen(0) {
            Some(s) => s,
            None => return Err(screen_not_found()),
        };
        let mut writer = EndianWriter::new(Vec::new(), ByteOrder::LittleEndian);
        writer.write_u8(1);  // Reply
        writer.write_u8(0);  // Unused
        writer.write_u16(request.sequence_number);  // Sequence number
        writer.write_u32(0);  // Reply length
        writer.write_u16(screen.min_width);  // Min width
        writer.write_u16(screen.min_height);  // Min height
        writer.write_u16(screen.max_width);  // Max width
        writer.write_u16(screen.max_height);  // Max height
        writer.write_padding(16);  // Padding to 32 bytes
        let bytes = writer.into_buffer();
        assert(bytes@ =~= randr_short_reply(
            request.sequence_number,
            le16(screen.min_width) + le16(screen.min_height) + le16(screen.max_width) + le16(
                screen.max_height,
            ),
        ));
        Ok(Some(bytes))
    }
}

/// 32-bit values, least significant byte first.
pub open spec fn le32s(vs: Seq<u32>) -> Seq<u8>
    decreases vs.len(),
{
    if vs.len() == 0 {
        Seq::empty()
    } else {
        le32s(vs.drop_last()) + le32(vs.last())
    }
}

proof fn lemma_le32s_len(vs: Seq<u32>)
    ensures
        le32s(vs).len() == 4 * vs.len(),
    decreases vs.len(),
{
    if vs.len() > 0 {
        lemma_le32s_len(vs.drop_last());
    }
}

/// Write each value of `vs`, least significant byte first.
fn write_u32s(w: &mut EndianWriter, vs: &Vec<u32>)
    requires
        old(w).order() == ByteOrder::LittleEndian,
    ensures
        final(w).contents() == old(w).contents() + le32s(vs@),
        final(w).order() == ByteOrder::LittleEndian,
{
    let ghost start = w.contents();
    let mut i: usize = 0;
    while i < vs.len()
        invariant
            i <= vs@.len(),
            w.order() == ByteOrder::LittleEndian,
            w.contents() == start + le32s(vs@.take(i as int)),
        decreases vs@.len() - i,
    {
        proof {
            assert(vs@.take(i + 1).drop_last() =~= vs@.take(i as int));
        }
        w.write_u32(vs[i]);
        i = i + 1;
        assert(w.contents() =~= start + le32s(vs@.take(i as int)));
    }
    assert(vs@.take(i as int) =~= vs@);
}

/// Index of the first CRTC with the given id.
pub open spec fn crtc_index(crtcs: Seq<Crtc>, id: u32) -> Option<int>
    decreases crtcs.len(),
{
    if crtcs.len() == 0 {
        None
    } else if crtcs[0].id == id {
        Some(0)
    } else {
        match crtc_index(crtcs.drop_first(), id) {
            Some(i) => Some(i + 1),
            None => None,
        }
    }
}

/// Index of the first output with the given id.
pub open spec fn output_index(outputs: Seq<Output>, id: u32) -> Option<int>
    decreases outputs.len(),
{
    if outputs.len() == 0 {
        None
    } else if outputs[0].id == id {
        Some(0)
    } else {
        match output_index(outputs.drop_first(), id) {
            Some(i) => Some(i + 1),
            None => None,
        }
    }
}

fn find_crtc(crtcs: &Vec<Crtc>, id: u32) -> (r: Option<usize>)
    ensures
        r matches Some(i) ==> crtc_index(crtcs@, id) == Some(i as int) && i < crtcs@.len(),
        r is None ==> crtc_index(crtcs@, id) is None,
{
    let mut i: usize = 0;
    assert(crtcs@.skip(0) =~= crtcs@);
    while i < crtcs.len()
        invariant
            i <= crtcs@.len(),
            crtc_index(crtcs@, id) == match crtc_index(crtcs@.skip(i as int), id) {
                Some(k) => Some(k + i),
                None => None,
            },
        decreases crtcs@.len() - i,
    {
        assert(crtcs@.skip(i as int).drop_first() =~= crtcs@.skip(i + 1));
        if crtcs[i].id == id {
            return Some(i);
        }
        i = i + 1;
    }
    None
}

fn find_output(outputs: &Vec<Output>, id: u32) -> (r: Option<usize>)
    ensures
        r matches Some(i) ==> output_index(outputs@, id) == Some(i as int) && i < outputs@.len(),
        r is None ==> output_index(outputs@, id) is None,
{
    let mut i: usize = 0;
    assert(outputs@.skip(0) =~= outputs@);
    while i < outputs.len()
        invariant
            i <= outputs@.len(),
            output_index(outputs@, id) == match output_index(outputs@.skip(i as int), id) {
                Some(k) => Some(k + i),
                None => None,
            },
        decreases outputs@.len() - i,
    {
        assert(outputs@.skip(i as int).drop_first() =~= outputs@.skip(i + 1));
        if outputs[i].id == id {
            return Some(i);
        }
        i = i + 1;
    }
    None
}

/// Handler for RandrGetCrtcInfo requests (minor opcode 13)
pub struct RandrGetCrtcInfoHandler {
    major_opcode: u8,
}

/// The GetCrtcInfo reply for a CRTC: status 1, its geometry, mode and
/// rotation, then its outputs (no possible outputs).
pub open spec fn crtc_info_bytes(c: Crtc, sequence: u16) -> Seq<u8> {
    let n = c.outputs@.len();
    seq![1u8, 0u8] + le16(sequence) + le32(((32 + 4 * n) / 4) as u32) + seq![1u8] + le16(c.width)
        + le16(c.height) + le16(c.x as u16) + le16(c.y as u16) + le32(
        match c.mode_id {
            Some(m) => m,
            None => 0u32,
        },
    ) + le16(c.rotation.spec_value()) + le16(n as u16) + le16(0) + le32s(c.outputs@)
}

impl RandrGetCrtcInfoHandler {
    /// The major opcode this handler serves.
    pub closed spec fn major(&self) -> u8 {
        self.major_opcode
    }

    pub fn new(major_opcode: u8) -> (r: Self)
        ensures
            r.major() == major_opcode,
    {
        Self { major_opcode }
    }

    /// The reply for the requested CRTC of screen 0.
    pub fn handle_request(&self, request: &Request, randr_state: &RandrState) -> (r: HandlerResult<
        Option<Vec<u8>>,
    >)
        requires
            screen_zero(*randr_state) matches Some(s) ==> forall|k: int|
                0 <= k < s.crtcs@.len() ==> 32 + 4 * (#[trigger] s.crtcs@[k]).outputs@.len() <= 0xffff,
        ensures
            r is Ok <==> (request.kind is RandrGetCrtcInfo && screen_zero(*randr_state) is Some
                && crtc_index(
                screen_zero(*randr_state)->0.crtcs@,
                request.kind->RandrGetCrtcInfo_0.crtc,
            ) is Some),
            r matches Err(e) ==> e is Protocol,
            r matches Ok(reply) ==> {
                let s = screen_zero(*randr_state)->0;
                let q = request.kind->RandrGetCrtcInfo_0;
                reply matches Some(b) && b@ == crtc_info_bytes(
                    s.crtcs@[crtc_index(s.crtcs@, q.crtc)->0],
                    request.sequence_number,
                )
            },
    {
        let q = match &request.kind {
            RequestKind::RandrGetCrtcInfo(q) => q,
            _ => return Err(wrong_kind("RandrGetCrtcInfo", &request.kind)),
        };
        let screen = match randr_state.get_screen(0) {
            Some(s) => s,
            None => return Err(screen_not_found()),
        };
        let index = match find_crtc(&screen.crtcs, q.crtc) {
            Some(i) => i,
            None => return Err(X11Error::Protocol("CRTC not found".to_owned())),
        };
        let crtc = &screen.crtcs[index];
        let num_outputs = crtc.outputs.len() as u16;
        let num_possible: u16 = 0;  // For now, no possible outputs
        let reply_length = (32 + num_outputs * 4 + num_possible * 4) / 4;
        let mut writer = EndianWriter::new(Vec::new(), ByteOrder::LittleEndian);
        writer.write_u8(1);  // Reply
        writer.write_u8(0);  // Unused
        writer.write_u16(request.sequence_number);  // Sequence number
        writer.write_u32(reply_length as u32);  // Reply length
        writer.write_u8(1);  // Status (success)
        writer.write_u16(crtc.width);  // Width
        writer.write_u16(crtc.height);  // Height
        writer.write_u16(crtc.x as u16);  // X position
        writer.write_u16(crtc.y as u16);  // Y position
        writer.write_u32(
            match crtc.mode_id {
                Some(m) => m,
                None => 0,
            },
        );  // Mode ID
        writer.write_u16(crtc.rotation.to_u16());  // Rotation
        writer.write_u16(num_outputs);  // Number of outputs
        writer.write_u16(num_possible);  // Number of possible outputs
        write_u32s(&mut writer, &crtc.outputs);
        let bytes = writer.into_buffer();
        assert(bytes@ =~= crtc_info_bytes(*crtc, request.sequence_number));
        Ok(Some(bytes))
    }
}

/// Handler for RandrGetOutputInfo requests (minor opcode 2)
pub struct RandrGetOutputInfoHandler {
    major_opcode: u8,
}

/// The bytes of GetOutputInfo's reply length, as the handler computes it:
/// 32, 4 per CRTC, mode and preferred mode, and the name with its NUL, in units of 4.
pub open spec fn output_info_units(o: Output) -> int {
    let crtcs = if o.crtc_id is Some {
        1int
    } else {
        0int
    };
    let preferred = if o.preferred_mode is Some {
        1int
    } else {
        0int
    };
    (32 + 4 * crtcs + 4 * o.modes@.len() + 4 * preferred + text_bytes(o.name@).len() + 1) / 4
}

/// Whether GetOutputInfo's counts for an output fit its 16-bit fields.
pub open spec fn output_info_fits(o: Output) -> bool {
    32 + 4 + 4 * o.modes@.len() + 4 + text_bytes(o.name@).len() + 1 <= 0xffff
}

/// The GetOutputInfo reply for an output: connection status, CRTC count,
/// mode and preferred-mode counts, name length, timestamp 0, the CRTC, the
/// modes, the preferred mode, then the name and a NUL.
pub open spec fn output_info_bytes(o: Output, sequence: u16) -> Seq<u8> {
    let name = text_bytes(o.name@);
    seq![1u8, 0u8] + le16(sequence) + le32(output_info_units(o) as u32) + seq![
        if o.connected {
            1u8
        } else {
            0u8
        },
        if o.crtc_id is Some {
            1u8
        } else {
            0u8
        },
    ] + le16(o.modes@.len() as u16) + le16(
        if o.preferred_mode is Some {
            1u16
        } else {
            0u16
        },
    ) + le16((name.len() + 1) as u16) + le32(0) + (match o.crtc_id {
        Some(c) => le32(c),
        None => Seq::empty(),
    }) + le32s(o.modes@) + (match o.preferred_mode {
        Some(p) => le32(p),
        None => Seq::empty(),
    }) + name + seq![0u8]
}

#[verifier::rlimit(30)]
fn output_info_reply(output: &Output, sequence: u16) -> (r: Vec<u8>)
    requires
        output_info_fits(*output),
    ensures
        r@ == output_info_bytes(*output, sequence),
{
    let name = output.name.as_str().as_bytes();
    let num_crtcs: u16 = if output.crtc_id.is_some() {
        1
    } else {
        0
    };
    let num_modes = output.modes.len() as u16;
    let num_preferred: u16 = if output.preferred_mode.is_some() {
        1
    } else {
        0
    };
    let names_len = name.len() as u16 + 1;  // +1 for null terminator
    let reply_length = (32 + num_crtcs * 4 + num_modes * 4 + num_preferred * 4 + names_len) / 4;
    let mut writer = EndianWriter::new(Vec::new(), ByteOrder::LittleEndian);
    writer.write_u8(1);  // Reply
    writer.write_u8(0);  // Unused
    writer.write_u16(sequence);  // Sequence number
    writer.write_u32(reply_length as u32);  // Reply length
    writer.write_u8(
        if output.connected {
            1
        } else {
            0
        },
    );  // Status (connected)
    writer.write_u8(
        if output.crtc_id.is_some() {
            1
        } else {
            0
        },
    );  // CRTC count
    writer.write_u16(num_modes);  // Number of modes
    writer.write_u16(num_preferred);  // Number of preferred modes
    writer.write_u16(names_len);  // Names length
    writer.write_u32(0);  // Timestamp
    let ghost head = writer.contents();
    if let Some(crtc_id) = output.crtc_id {
        writer.write_u32(crtc_id);
    }
    write_u32s(&mut writer, &output.modes);
    if let Some(preferred) = output.preferred_mode {
        writer.write_u32(preferred);
    }
    writer.write_bytes(name);
    writer.write_u8(0);  // Null terminator
    let bytes = writer.into_buffer();
    assert(bytes@ =~= output_info_bytes(*output, sequence));
    bytes
}

impl RandrGetOutputInfoHandler {
    /// The major opcode this handler serves.
    pub closed spec fn major(&self) -> u8 {
        self.major_opcode
    }

    pub fn new(major_opcode: u8) -> (r: Self)
        ensures
            r.major() == major_opcode,
    {
        Self { major_opcode }
    }

    /// The reply for the requested output of screen 0.
    pub fn handle_request(&self, request: &Request, randr_state: &RandrState) -> (r: HandlerResult<
        Option<Vec<u8>>,
    >)
        requires
            screen_zero(*randr_state) matches Some(s) ==> forall|k: int|
                0 <= k < s.outputs@.len() ==> output_info_fits(#[trigger] s.outputs@[k]),
        ensures
            r is Ok <==> (request.kind is RandrGetOutputInfo && screen_zero(*randr_state) is Some
                && output_index(
                screen_zero(*randr_state)->0.outputs@,
                request.kind->RandrGetOutputInfo_0.output,
            ) is Some),
            r matches Err(e) ==> e is Protocol,
            r matches Ok(reply) ==> {
                let s = screen_zero(*randr_state)->0;
                let q = request.kind->RandrGetOutputInfo_0;
                reply matches Some(b) && b@ == output_info_bytes(
                    s.outputs@[output_index(s.outputs@, q.output)->0],
                    request.sequence_number,
                )
            },
    {
        let q = match &request.kind {
            RequestKind::RandrGetOutputInfo(q) => q,
            _ => return Err(wrong_kind("RandrGetOutputInfo", &request.kind)),
        };
        let screen = match randr_state.get_screen(0) {
            Some(s) => s,
            None => return Err(screen_not_found()),
        };
        let index = match find_output(&screen.outputs, q.output) {
            Some(i) => i,
            None => return Err(X11Error::Protocol("Output not found".to_owned())),
        };
        let output = &screen.outputs[index];
        proof {
            assert(output_info_fits(screen.outputs@[index as int]));
        }
        Ok(Some(output_info_reply(output, request.sequence_number)))
    }
}

/// Handler for RandrGetScreenResources requests (minor opcode 1)
pub struct RandrGetScreenResourcesHandler {
    major_opcode: u8,
}

/// The screen GetScreenResources reports on: the one the request's window
/// names, else screen 0.
pub open spec fn resources_screen(state: RandrState, window: u32) -> Option<Screen> {
    if state.screens@.contains_key(window) {
        Some(state.screens@[window])
    } else {
        screen_zero(state)
    }
}

/// Bytes the output names take: each name and its NUL.
pub open spec fn output_names_len(outputs: Seq<Output>) -> int
    decreases outputs.len(),
{
    if outputs.len() == 0 {
        0
    } else {
        output_names_len(outputs.drop_last()) + text_bytes(outputs.last().name@).len() + 1
    }
}

/// Whether GetScreenResources' counts and lengths for a screen fit their
/// 16-bit fields.
pub open spec fn resources_fit(s: Screen) -> bool {
    &&& 32 + 4 * s.crtcs@.len() + 4 * s.outputs@.len() + 8 * s.modes@.len() + output_names_len(
        s.outputs@,
    ) <= 0xffff
    &&& forall|k: int| 0 <= k < s.modes@.len() ==> text_bytes((#[trigger] s.modes@[k]).name@).len() < 0xffff
}

/// The CRTC ids, in order.
pub open spec fn crtc_ids_bytes(cs: Seq<Crtc>) -> Seq<u8>
    decreases cs.len(),
{
    if cs.len() == 0 {
        Seq::empty()
    } else {
        crtc_ids_bytes(cs.drop_last()) + le32(cs.last().id)
    }
}

/// The output ids, in order.
pub open spec fn output_ids_bytes(os: Seq<Output>) -> Seq<u8>
    decreases os.len(),
{
    if os.len() == 0 {
        Seq::empty()
    } else {
        output_ids_bytes(os.drop_last()) + le32(os.last().id)
    }
}

/// One MODEINFO as this server writes it: id, size, refresh, no flags, and
/// its name's length with a NUL counted.
pub open spec fn mode_info_bytes(m: Mode) -> Seq<u8> {
    le32(m.id) + le16(m.width) + le16(m.height) + le32(m.refresh_rate) + le16(0) + le16(
        (text_bytes(m.name@).len() + 1) as u16,
    )
}

/// The modes, in order.
pub open spec fn modes_bytes(ms: Seq<Mode>) -> Seq<u8>
    decreases ms.len(),
{
    if ms.len() == 0 {
        Seq::empty()
    } else {
        modes_bytes(ms.drop_last()) + mode_info_bytes(ms.last())
    }
}

/// The output names, each followed by a NUL.
pub open spec fn output_names_bytes(os: Seq<Output>) -> Seq<u8>
    decreases os.len(),
{
    if os.len() == 0 {
        Seq::empty()
    } else {
        output_names_bytes(os.drop_last()) + text_bytes(os.last().name@) + seq![0u8]
    }
}

/// The GetScreenResources reply for a screen.
pub open spec fn resources_bytes(s: Screen, sequence: u16) -> Seq<u8> {
    let names = output_names_len(s.outputs@);
    let total = 32 + 4 * s.crtcs@.len() + 4 * s.outputs@.len() + 8 * s.modes@.len() + names;
    seq![1u8, 0u8] + le16(sequence) + le32((total / 4) as u32) + le32(0) + le32(0) + le16(
        s.crtcs@.len() as u16,
    ) + le16(s.outputs@.len() as u16) + le16(s.modes@.len() as u16) + le16(names as u16)
        + crtc_ids_bytes(s.crtcs@) + output_ids_bytes(s.outputs@) + modes_bytes(s.modes@)
        + output_names_bytes(s.outputs@)
}

proof fn lemma_output_names_len_prefix(os: Seq<Output>, i: int)
    requires
        0 <= i <= os.len(),
    ensures
        output_names_len(os.take(i)) <= output_names_len(os),
        0 <= output_names_len(os.take(i)),
    decreases os.len() - i,
{
    if i < os.len() {
        assert(os.take(i + 1).drop_last() =~= os.take(i));
        lemma_output_names_len_prefix(os, i + 1);
    } else {
        assert(os.take(i) =~= os);
    }
    lemma_output_names_len_nonneg(os.take(i));
}

proof fn lemma_output_names_len_nonneg(os: Seq<Output>)
    ensures
        output_names_len(os) >= 0,
    decreases os.len(),
{
    if os.len() > 0 {
        lemma_output_names_len_nonneg(os.drop_last());
    }
}

/// The sum of the output names' lengths, each with its NUL.
fn names_length(outputs: &Vec<Output>) -> (n: u16)
    requires
        output_names_len(outputs@) <= 0xffff,
    ensures
        n == output_names_len(outputs@),
{
    let mut total: u16 = 0;
    let mut i: usize = 0;
    while i < outputs.len()
        invariant
            i <= outputs@.len(),
            output_names_len(outputs@) <= 0xffff,
            total == output_names_len(outputs@.take(i as int)),
        decreases outputs@.len() - i,
    {
        proof {
            assert(outputs@.take(i + 1).drop_last() =~= outputs@.take(i as int));
            lemma_output_names_len_prefix(outputs@, i + 1);
        }
        let len = outputs[i].name.as_str().len();
        total = total + len as u16 + 1;
        i = i + 1;
    }
    assert(outputs@.take(i as int) =~= outputs@);
    total
}

fn write_crtc_ids(w: &mut EndianWriter, cs: &Vec<Crtc>)
    requires
        old(w).order() == ByteOrder::LittleEndian,
    ensures
        final(w).contents() == old(w).contents() + crtc_ids_bytes(cs@),
        final(w).order() == ByteOrder::LittleEndian,
{
    let ghost start = w.contents();
    let mut i: usize = 0;
    while i < cs.len()
        invariant
            i <= cs@.len(),
            w.order() == ByteOrder::LittleEndian,
            w.contents() == start + crtc_ids_bytes(cs@.take(i as int)),
        decreases cs@.len() - i,
    {
        proof {
            assert(cs@.take(i + 1).drop_last() =~= cs@.take(i as int));
        }
        w.write_u32(cs[i].id);
        i = i + 1;
        assert(w.contents() =~= start + crtc_ids_bytes(cs@.take(i as int)));
    }
    assert(cs@.take(i as int) =~= cs@);
}

fn write_output_ids(w: &mut EndianWriter, os: &Vec<Output>)
    requires
        old(w).order() == ByteOrder::LittleEndian,
    ensures
        final(w).contents() == old(w).contents() + output_ids_bytes(os@),
        final(w).order() == ByteOrder::LittleEndian,
{
    let ghost start = w.contents();
    let mut i: usize = 0;
    while i < os.len()
        invariant
            i <= os@.len(),
            w.order() == ByteOrder::LittleEndian,
            w.contents() == start + output_ids_bytes(os@.take(i as int)),
        decreases os@.len() - i,
    {
        proof {
            assert(os@.take(i + 1).drop_last() =~= os@.take(i as int));
        }
        w.write_u32(os[i].id);
        i = i + 1;
        assert(w.contents() =~= start + output_ids_bytes(os@.take(i as int)));
    }
    assert(os@.take(i as int) =~= os@);
}

fn write_modes(w: &mut EndianWriter, ms: &Vec<Mode>)
    requires
        old(w).order() == ByteOrder::LittleEndian,
        forall|k: int| 0 <= k < ms@.len() ==> text_bytes((#[trigger] ms@[k]).name@).len() < 0xffff,
    ensures
        final(w).contents() == old(w).contents() + modes_bytes(ms@),
        final(w).order() == ByteOrder::LittleEndian,
{
    let ghost start = w.contents();
    let mut i: usize = 0;
    while i < ms.len()
        invariant
            i <= ms@.len(),
            w.order() == ByteOrder::LittleEndian,
            w.contents() == start + modes_bytes(ms@.take(i as int)),
            forall|k: int| 0 <= k < ms@.len() ==> text_bytes((#[trigger] ms@[k]).name@).len() < 0xffff,
        decreases ms@.len() - i,
    {
        proof {
            assert(ms@.take(i + 1).drop_last() =~= ms@.take(i as int));
        }
        let mode = &ms[i];
        let name_len = mode.name.as_str().len();
        proof {
            assert(text_bytes(ms@[i as int].name@).len() < 0xffff);
        }
        w.write_u32(mode.id);
        w.write_u16(mode.width);
        w.write_u16(mode.height);
        w.write_u32(mode.refresh_rate);
        w.write_u16(0);  // Mode flags (unused for now)
        w.write_u16(name_len as u16 + 1);  // Name length + null
        i = i + 1;
        assert(w.contents() =~= start + modes_bytes(ms@.take(i as int)));
    }
    assert(ms@.take(i as int) =~= ms@);
}

fn write_output_names(w: &mut EndianWriter, os: &Vec<Output>)
    ensures
        final(w).contents() == old(w).contents() + output_names_bytes(os@),
        final(w).order() == old(w).order(),
{
    let ghost start = w.contents();
    let mut i: usize = 0;
    while i < os.len()
        invariant
            i <= os@.len(),
            w.order() == old(w).order(),
            w.contents() == start + output_names_bytes(os@.take(i as int)),
        decreases os@.len() - i,
    {
        proof {
            assert(os@.take(i + 1).drop_last() =~= os@.take(i as int));
        }
        w.write_bytes(os[i].name.as_str().as_bytes());
        w.write_u8(0);  // Null terminator
        i = i + 1;
        assert(w.contents() =~= start + output_names_bytes(os@.take(i as int)));
    }
    assert(os@.take(i as int) =~= os@);
}

#[verifier::rlimit(30)]
fn resources_reply(screen: &Screen, sequence: u16) -> (r: Vec<u8>)
    requires
        resources_fit(*screen),
    ensures
        r@ == resources_bytes(*screen, sequence),
{
    proof {
        lemma_output_names_len_nonneg(screen.outputs@);
    }
    let num_crtcs = screen.crtcs.len() as u16;
    let num_outputs = screen.outputs.len() as u16;
    let num_modes = screen.modes.len() as u16;
    let names_len = names_length(&screen.outputs);
    let reply_length = (32 + num_crtcs * 4 + num_outputs * 4 + num_modes * 8 + names_len) / 4;
    let mut writer = EndianWriter::new(Vec::new(), ByteOrder::LittleEndian);
    writer.write_u8(1);  // Reply
    writer.write_u8(0);  // Unused
    writer.write_u16(sequence);  // Sequence number
    writer.write_u32(reply_length as u32);  // Reply length
    writer.write_u32(0);  // Timestamp (config timestamp)
    writer.write_u32(0);  // Config timestamp
    writer.write_u16(num_crtcs);  // Number of CRTCs
    writer.write_u16(num_outputs);  // Number of outputs
    writer.write_u16(num_modes);  // Number of modes
    writer.write_u16(names_len);  // Names length
    write_crtc_ids(&mut writer, &screen.crtcs);
    write_output_ids(&mut writer, &screen.outputs);
    write_modes(&mut writer, &screen.modes);
    write_output_names(&mut writer, &screen.outputs);
    let bytes = writer.into_buffer();
    assert(bytes@ =~= resources_bytes(*screen, sequence));
    bytes
}

impl RandrGetScreenResourcesHandler {
    /// The major opcode this handler serves.
    pub closed spec fn major(&self) -> u8 {
        self.major_opcode
    }

    pub fn new(major_opcode: u8) -> (r: Self)
        ensures
            r.major() == major_opcode,
    {
        Self { major_opcode }
    }

    /// The resources of the screen the request's window names (screen 0
    /// when there is no such screen).
    pub fn handle_request(&self, request: &Request, randr_state: &RandrState) -> (r: HandlerResult<
        Option<Vec<u8>>,
    >)
        requires
            request.kind is RandrGetScreenResources && resources_screen(
                *randr_state,
                request.kind->RandrGetScreenResources_0.window,
            ) is Some ==> resources_fit(
                resources_screen(
                    *randr_state,
                    request.kind->RandrGetScreenResources_0.window,
                )->0,
            ),
        ensures
            r is Ok <==> (request.kind is RandrGetScreenResources && resources_screen(
                *randr_state,
                request.kind->RandrGetScreenResources_0.window,
            ) is Some),
            r matches Err(e) ==> e is Protocol,
            r matches Ok(reply) ==> reply matches Some(b) && b@ == resources_bytes(
                resources_screen(
                    *randr_state,
                    request.kind->RandrGetScreenResources_0.window,
                )->0,
                request.sequence_number,
            ),
    {
        let q = match &request.kind {
            RequestKind::RandrGetScreenResources(q) => q,
            _ => return Err(wrong_kind("RandrGetScreenResources", &request.kind)),
        };
        let screen = match randr_state.get_screen(q.window) {
            Some(s) => s,
            None => match randr_state.get_screen(0) {
                Some(s) => s,
                None => return Err(screen_not_found()),
            },
        };
        Ok(Some(resources_reply(screen, request.sequence_number)))
    }
}

impl RequestHandler for RandrQueryVersionHandler {
    open spec fn spec_opcode(&self) -> (u8, Option<u8>) {
        (self.major(), Some(RandrOpcode::QueryVersion.spec_value()))
    }

    fn opcode(&self) -> (u8, Option<u8>) {
        (self.major_opcode, Some(RandrOpcode::QueryVersion.to_u8()))
    }

    open spec fn spec_name(&self) -> Seq<char> {
        "RandrQueryVersion"@
    }

    fn name(&self) -> &'static str {
        "RandrQueryVersion"
    }
}

impl RequestHandler for RandrGetScreenResourcesHandler {
    open spec fn spec_opcode(&self) -> (u8, Option<u8>) {
        (self.major(), Some(RandrOpcode::GetScreenResources.spec_value()))
    }

    fn opcode(&self) -> (u8, Option<u8>) {
        (self.major_opcode, Some(RandrOpcode::GetScreenResources.to_u8()))
    }

    open spec fn spec_name(&self) -> Seq<char> {
        "RandrGetScreenResources"@
    }

    fn name(&self) -> &'static str {
        "RandrGetScreenResources"
    }
}

impl RequestHandler for RandrGetOutputInfoHandler {
    open spec fn spec_opcode(&self) -> (u8, Option<u8>) {
        (self.major(), Some(RandrOpcode::GetOutputInfo.spec_value()))
    }

    fn opcode(&self) -> (u8, Option<u8>) {
        (self.major_opcode, Some(RandrOpcode::GetOutputInfo.to_u8()))
    }

    open spec fn spec_name(&self) -> Seq<char> {
        "RandrGetOutputInfo"@
    }

    fn name(&self) -> &'static str {
        "RandrGetOutputInfo"
    }
}

impl RequestHandler for RandrGetCrtcInfoHandler {
    open spec fn spec_opcode(&self) -> (u8, Option<u8>) {
        (self.major(), Some(RandrOpcode::GetCrtcInfo.spec_value()))
    }

    fn opcode(&self) -> (u8, Option<u8>) {
        (self.major_opcode, Some(RandrOpcode::GetCrtcInfo.to_u8()))
    }

    open spec fn spec_name(&self) -> Seq<char> {
        "RandrGetCrtcInfo"@
    }

    fn name(&self) -> &'static str {
        "RandrGetCrtcInfo"
    }
}

impl RequestHandler for RandrGetScreenSizeRangeHandler {
    open spec fn spec_opcode(&self) -> (u8, Option<u8>) {
        (self.major(), Some(RandrOpcode::GetScreenSizeRange.spec_value()))
    }

    fn opcode(&self) -> (u8, Option<u8>) {
        (self.major_opcode, Some(RandrOpcode::GetScreenSizeRange.to_u8()))
    }

    open spec fn spec_name(&self) -> Seq<char> {
        "RandrGetScreenSizeRange"@
    }

    fn name(&self) -> &'static str {
        "RandrGetScreenSizeRange"
    }
}

} // verus!
