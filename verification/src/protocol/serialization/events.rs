//! Event Serialization
//!
//! This module handles serialization of X11 events to wire format.

use vstd::prelude::*;
use bytes::BytesMut;
use crate::protocol::buffers::{
    buffer_limit, bytes_mut_contents, put_i16, put_u16, put_u32, put_u8,
};
use crate::protocol::endianness::{
    lemma_u16_at_encoding, lemma_u32_at_encoding, u16_at, u16_bytes, u32_at, u32_bytes, zeros,
};
use crate::protocol::message::events::Event;
use crate::protocol::opcodes::event::{
    BUTTON_PRESS, BUTTON_RELEASE, CONFIGURE_NOTIFY, EXPOSE, KEY_PRESS, KEY_RELEASE,
};
use crate::protocol::serialization::errors::put_zeros;
use crate::protocol::types::ByteOrder;

verus! {

/// A 16-bit field, most significant byte first.
pub open spec fn be16(v: u16) -> Seq<u8> {
    u16_bytes(v, ByteOrder::BigEndian)
}

/// A 32-bit field, most significant byte first.
pub open spec fn be32(v: u32) -> Seq<u8> {
    u32_bytes(v, ByteOrder::BigEndian)
}

/// A key or button event: code, detail, sequence 0, time, root, event,
/// child, the four coordinates, state, same-screen flag, one pad byte.
pub open spec fn input_event_bytes(
    code: u8,
    detail: u8,
    time: u32,
    root: u32,
    event: u32,
    child: u32,
    root_x: i16,
    root_y: i16,
    event_x: i16,
    event_y: i16,
    state: u16,
    same_screen: bool,
) -> Seq<u8> {
    seq![code, detail] + be16(0) + be32(time) + be32(root) + be32(event) + be32(child) + be16(
        root_x as u16,
    ) + be16(root_y as u16) + be16(event_x as u16) + be16(event_y as u16) + be16(state) + seq![
        if same_screen {
            1u8
        } else {
            0u8
        },
        0u8,
    ]
}

/// An Expose event: code 12, a pad byte, sequence 0, the window, the
/// rectangle, the count, then 14 zero bytes to fill the 32-byte event.
pub open spec fn expose_bytes(window: u32, x: u16, y: u16, width: u16, height: u16, count: u16) -> Seq<
    u8,
> {
    seq![EXPOSE, 0u8] + be16(0) + be32(window) + be16(x) + be16(y) + be16(width) + be16(height)
        + be16(count) + zeros(14)
}

/// A ConfigureNotify event.
pub open spec fn configure_notify_bytes(
    event: u32,
    window: u32,
    above_sibling: u32,
    x: i16,
    y: i16,
    width: u16,
    height: u16,
    border_width: u16,
    override_redirect: bool,
) -> Seq<u8> {
    seq![CONFIGURE_NOTIFY, 0u8] + be16(0) + be32(event) + be32(window) + be32(above_sibling) + be16(
        x as u16,
    ) + be16(y as u16) + be16(width) + be16(height) + be16(border_width) + seq![
        if override_redirect {
            1u8
        } else {
            0u8
        },
        0u8,
    ] + be32(0)
}

/// The wire bytes of an event. Events without an encoding of their own are
/// sent as 32 zero bytes.
pub open spec fn event_bytes(e: Event) -> Seq<u8> {
    match e {
        Event::Expose { window, x, y, width, height, count } => expose_bytes(
            window,
            x,
            y,
            width,
            height,
            count,
        ),
        Event::ConfigureNotify {
            event,
            window,
            above_sibling,
            x,
            y,
            width,
            height,
            border_width,
            override_redirect,
        } => configure_notify_bytes(
            event,
            window,
            above_sibling,
            x,
            y,
            width,
            height,
            border_width,
            override_redirect,
        ),
        Event::KeyPress { detail, time, root, event, child, root_x, root_y, event_x, event_y, state, same_screen } => input_event_bytes(
            KEY_PRESS,
            detail,
            time,
            root,
            event,
            child,
            root_x,
            root_y,
            event_x,
            event_y,
            state,
            same_screen,
        ),
        Event::KeyRelease { detail, time, root, event, child, root_x, root_y, event_x, event_y, state, same_screen } => input_event_bytes(
            KEY_RELEASE,
            detail,
            time,
            root,
            event,
            child,
            root_x,
            root_y,
            event_x,
            event_y,
            state,
            same_screen,
        ),
        Event::ButtonPress { detail, time, root, event, child, root_x, root_y, event_x, event_y, state, same_screen } => input_event_bytes(
            BUTTON_PRESS,
            detail,
            time,
            root,
            event,
            child,
            root_x,
            root_y,
            event_x,
            event_y,
            state,
            same_screen,
        ),
        Event::ButtonRelease { detail, time, root, event, child, root_x, root_y, event_x, event_y, state, same_screen } => input_event_bytes(
            BUTTON_RELEASE,
            detail,
            time,
            root,
            event,
            child,
            root_x,
            root_y,
            event_x,
            event_y,
            state,
            same_screen,
        ),
        _ => zeros(32),
    }
}

/// Every event is sent as exactly 32 bytes.
pub proof fn lemma_event_is_32_bytes(e: Event)
    ensures
        event_bytes(e).len() == 32,
{
}

proof fn lemma_expose_fields(window: u32, x: u16, y: u16, width: u16, height: u16, count: u16)
    ensures
        ({
            let b = expose_bytes(window, x, y, width, height, count);
            &&& u32_at(b, 4, ByteOrder::BigEndian) == window
            &&& u16_at(b, 8, ByteOrder::BigEndian) == x
            &&& u16_at(b, 10, ByteOrder::BigEndian) == y
            &&& u16_at(b, 12, ByteOrder::BigEndian) == width
            &&& u16_at(b, 14, ByteOrder::BigEndian) == height
            &&& u16_at(b, 16, ByteOrder::BigEndian) == count
        }),
{
    let b = expose_bytes(window, x, y, width, height, count);
    assert(b.subrange(4, 8) =~= be32(window));
    lemma_u32_at_encoding(b, 4, window, ByteOrder::BigEndian);
    assert(b.subrange(8, 10) =~= be16(x));
    lemma_u16_at_encoding(b, 8, x, ByteOrder::BigEndian);
    assert(b.subrange(10, 12) =~= be16(y));
    lemma_u16_at_encoding(b, 10, y, ByteOrder::BigEndian);
    assert(b.subrange(12, 14) =~= be16(width));
    lemma_u16_at_encoding(b, 12, width, ByteOrder::BigEndian);
    assert(b.subrange(14, 16) =~= be16(height));
    lemma_u16_at_encoding(b, 14, height, ByteOrder::BigEndian);
    assert(b.subrange(16, 18) =~= be16(count));
    lemma_u16_at_encoding(b, 16, count, ByteOrder::BigEndian);
}

proof fn lemma_configure_notify_fields(
    event: u32,
    window: u32,
    above_sibling: u32,
    x: i16,
    y: i16,
    width: u16,
    height: u16,
    border_width: u16,
    override_redirect: bool,
)
    ensures
        ({
            let b = configure_notify_bytes(event, window, above_sibling, x, y, width, height, border_width, override_redirect);
            &&& u32_at(b, 4, ByteOrder::BigEndian) == event
            &&& u32_at(b, 8, ByteOrder::BigEndian) == window
            &&& u32_at(b, 12, ByteOrder::BigEndian) == above_sibling
            &&& u16_at(b, 16, ByteOrder::BigEndian) == x as u16
            &&& u16_at(b, 18, ByteOrder::BigEndian) == y as u16
            &&& u16_at(b, 20, ByteOrder::BigEndian) == width
            &&& u16_at(b, 22, ByteOrder::BigEndian) == height
            &&& u16_at(b, 24, ByteOrder::BigEndian) == border_width
        }),
{
    let b = configure_notify_bytes(event, window, above_sibling, x, y, width, height, border_width, override_redirect);
    assert(b.subrange(4, 8) =~= be32(event));
    lemma_u32_at_encoding(b, 4, event, ByteOrder::BigEndian);
    assert(b.subrange(8, 12) =~= be32(window));
    lemma_u32_at_encoding(b, 8, window, ByteOrder::BigEndian);
    assert(b.subrange(12, 16) =~= be32(above_sibling));
    lemma_u32_at_encoding(b, 12, above_sibling, ByteOrder::BigEndian);
    assert(b.subrange(16, 18) =~= be16(x as u16));
    lemma_u16_at_encoding(b, 16, x as u16, ByteOrder::BigEndian);
    assert(b.subrange(18, 20) =~= be16(y as u16));
    lemma_u16_at_encoding(b, 18, y as u16, ByteOrder::BigEndian);
    assert(b.subrange(20, 22) =~= be16(width));
    lemma_u16_at_encoding(b, 20, width, ByteOrder::BigEndian);
    assert(b.subrange(22, 24) =~= be16(height));
    lemma_u16_at_encoding(b, 22, height, ByteOrder::BigEndian);
    assert(b.subrange(24, 26) =~= be16(border_width));
    lemma_u16_at_encoding(b, 24, border_width, ByteOrder::BigEndian);
}

/// Where a key or button event's fields lie in `b`, most significant byte
/// first.
pub open spec fn input_event_laid_out(
    b: Seq<u8>,
    code: u8,
    detail: u8,
    time: u32,
    root: u32,
    event: u32,
    child: u32,
    root_x: i16,
    root_y: i16,
    event_x: i16,
    event_y: i16,
    state: u16,
    same_screen: bool,
) -> bool {
    &&& b[0] == code
    &&& b[1] == detail
    &&& u32_at(b, 4, ByteOrder::BigEndian) == time
    &&& u32_at(b, 8, ByteOrder::BigEndian) == root
    &&& u32_at(b, 12, ByteOrder::BigEndian) == event
    &&& u32_at(b, 16, ByteOrder::BigEndian) == child
    &&& u16_at(b, 20, ByteOrder::BigEndian) == root_x as u16
    &&& u16_at(b, 22, ByteOrder::BigEndian) == root_y as u16
    &&& u16_at(b, 24, ByteOrder::BigEndian) == event_x as u16
    &&& u16_at(b, 26, ByteOrder::BigEndian) == event_y as u16
    &&& u16_at(b, 28, ByteOrder::BigEndian) == state
    &&& b[30] == if same_screen { 1u8 } else { 0u8 }
}

proof fn lemma_input_event_fields(
    code: u8,
    detail: u8,
    time: u32,
    root: u32,
    event: u32,
    child: u32,
    root_x: i16,
    root_y: i16,
    event_x: i16,
    event_y: i16,
    state: u16,
    same_screen: bool,
)
    ensures
        input_event_laid_out(
            input_event_bytes(code, detail, time, root, event, child, root_x, root_y, event_x, event_y, state, same_screen),
            code,
            detail,
            time,
            root,
            event,
            child,
            root_x,
            root_y,
            event_x,
            event_y,
            state,
            same_screen,
        ),
{
    let b = input_event_bytes(code, detail, time, root, event, child, root_x, root_y, event_x, event_y, state, same_screen);
    assert(b.subrange(4, 8) =~= be32(time));
    lemma_u32_at_encoding(b, 4, time, ByteOrder::BigEndian);
    assert(b.subrange(8, 12) =~= be32(root));
    lemma_u32_at_encoding(b, 8, root, ByteOrder::BigEndian);
    assert(b.subrange(12, 16) =~= be32(event));
    lemma_u32_at_encoding(b, 12, event, ByteOrder::BigEndian);
    assert(b.subrange(16, 20) =~= be32(child));
    lemma_u32_at_encoding(b, 16, child, ByteOrder::BigEndian);
    assert(b.subrange(20, 22) =~= be16(root_x as u16));
    lemma_u16_at_encoding(b, 20, root_x as u16, ByteOrder::BigEndian);
    assert(b.subrange(22, 24) =~= be16(root_y as u16));
    lemma_u16_at_encoding(b, 22, root_y as u16, ByteOrder::BigEndian);
    assert(b.subrange(24, 26) =~= be16(event_x as u16));
    lemma_u16_at_encoding(b, 24, event_x as u16, ByteOrder::BigEndian);
    assert(b.subrange(26, 28) =~= be16(event_y as u16));
    lemma_u16_at_encoding(b, 26, event_y as u16, ByteOrder::BigEndian);
    assert(b.subrange(28, 30) =~= be16(state));
    lemma_u16_at_encoding(b, 28, state, ByteOrder::BigEndian);
}

/// Each event carries its fields where the X11 encoding puts them, most
/// significant byte first: an Expose event its code 12, the window at 4..8,
/// x and y at 8..12, the width and height at 12..16 and the count at 16..18;
/// a ConfigureNotify event its code 22, the event, window and above-sibling
/// windows at 4..16, x and y at 16..20, the width and height at 20..24 and
/// the border width at 24..26; a key or button event its code (2 KeyPress,
/// 3 KeyRelease, 4 ButtonPress, 5 ButtonRelease) and detail, the time at
/// 4..8, the root, event and child windows at 8..20, the root and event
/// coordinates at 20..28, the state at 28..30 and the same-screen flag at 30.
#[verifier::spinoff_prover]
pub proof fn lemma_event_fields(e: Event)
    ensures
        ({
            let b = event_bytes(e);
            match e {
                Event::Expose { window, x, y, width, height, count } => {
                    &&& b[0] == 12
                    &&& u32_at(b, 4, ByteOrder::BigEndian) == window
                    &&& u16_at(b, 8, ByteOrder::BigEndian) == x
                    &&& u16_at(b, 10, ByteOrder::BigEndian) == y
                    &&& u16_at(b, 12, ByteOrder::BigEndian) == width
                    &&& u16_at(b, 14, ByteOrder::BigEndian) == height
                    &&& u16_at(b, 16, ByteOrder::BigEndian) == count
                },
                Event::ConfigureNotify {
                    event,
                    window,
                    above_sibling,
                    x,
                    y,
                    width,
                    height,
                    border_width,
                    override_redirect,
                } => {
                    &&& b[0] == 22
                    &&& u32_at(b, 4, ByteOrder::BigEndian) == event
                    &&& u32_at(b, 8, ByteOrder::BigEndian) == window
                    &&& u32_at(b, 12, ByteOrder::BigEndian) == above_sibling
                    &&& u16_at(b, 16, ByteOrder::BigEndian) == x as u16
                    &&& u16_at(b, 18, ByteOrder::BigEndian) == y as u16
                    &&& u16_at(b, 20, ByteOrder::BigEndian) == width
                    &&& u16_at(b, 22, ByteOrder::BigEndian) == height
                    &&& u16_at(b, 24, ByteOrder::BigEndian) == border_width
                    &&& b[26] == if override_redirect { 1u8 } else { 0u8 }
                },
                Event::KeyPress { detail, time, root, event, child, root_x, root_y, event_x, event_y, state, same_screen } => input_event_laid_out(
                    b,
                    2u8,
                    detail,
                    time,
                    root,
                    event,
                    child,
                    root_x,
                    root_y,
                    event_x,
                    event_y,
                    state,
                    same_screen,
                ),
                Event::KeyRelease { detail, time, root, event, child, root_x, root_y, event_x, event_y, state, same_screen } => input_event_laid_out(
                    b,
                    3u8,
                    detail,
                    time,
                    root,
                    event,
                    child,
                    root_x,
                    root_y,
                    event_x,
                    event_y,
                    state,
                    same_screen,
                ),
                Event::ButtonPress { detail, time, root, event, child, root_x, root_y, event_x, event_y, state, same_screen } => input_event_laid_out(
                    b,
                    4u8,
                    detail,
                    time,
                    root,
                    event,
                    child,
                    root_x,
                    root_y,
                    event_x,
                    event_y,
                    state,
                    same_screen,
                ),
                Event::ButtonRelease { detail, time, root, event, child, root_x, root_y, event_x, event_y, state, same_screen } => input_event_laid_out(
                    b,
                    5u8,
                    detail,
                    time,
                    root,
                    event,
                    child,
                    root_x,
                    root_y,
                    event_x,
                    event_y,
                    state,
                    same_screen,
                ),
                _ => true,
            }
        }),
{
    match e {
        Event::Expose { window, x, y, width, height, count } => {
            lemma_expose_fields(window, x, y, width, height, count);
        },
        Event::ConfigureNotify {
            event,
            window,
            above_sibling,
            x,
            y,
            width,
            height,
            border_width,
            override_redirect,
        } => {
            lemma_configure_notify_fields(event, window, above_sibling, x, y, width, height, border_width, override_redirect);
        },
        Event::KeyPress { detail, time, root, event, child, root_x, root_y, event_x, event_y, state, same_screen } => {
            lemma_input_event_fields(KEY_PRESS, detail, time, root, event, child, root_x, root_y, event_x, event_y, state, same_screen);
        },
        Event::KeyRelease { detail, time, root, event, child, root_x, root_y, event_x, event_y, state, same_screen } => {
            lemma_input_event_fields(KEY_RELEASE, detail, time, root, event, child, root_x, root_y, event_x, event_y, state, same_screen);
        },
        Event::ButtonPress { detail, time, root, event, child, root_x, root_y, event_x, event_y, state, same_screen } => {
            lemma_input_event_fields(BUTTON_PRESS, detail, time, root, event, child, root_x, root_y, event_x, event_y, state, same_screen);
        },
        Event::ButtonRelease { detail, time, root, event, child, root_x, root_y, event_x, event_y, state, same_screen } => {
            lemma_input_event_fields(BUTTON_RELEASE, detail, time, root, event, child, root_x, root_y, event_x, event_y, state, same_screen);
        },
        _ => {},
    }
}

/// Serialize an event to wire format
fn put_expose(buf: &mut BytesMut, window: u32, x: u16, y: u16, width: u16, height: u16, count: u16)
    requires
        bytes_mut_contents(*old(buf)).len() + 32 <= buffer_limit(),
    ensures
        bytes_mut_contents(*final(buf)) == bytes_mut_contents(*old(buf)) + expose_bytes(
            window,
            x,
            y,
            width,
            height,
            count,
        ),
{
    let ghost start = bytes_mut_contents(*buf);
    put_u8(buf, EXPOSE);
    put_u8(buf, 0);  // Padding
    put_u16(buf, 0);  // Sequence number (filled by connection)
    put_u32(buf, window);
    put_u16(buf, x);
    put_u16(buf, y);
    put_u16(buf, width);
    put_u16(buf, height);
    put_u16(buf, count);
    // Pad to 32 bytes
    put_zeros(buf, 14);
    assert(bytes_mut_contents(*buf) =~= start + expose_bytes(window, x, y, width, height, count));
}

fn put_configure_notify(
    buf: &mut BytesMut,
    event: u32,
    window: u32,
    above_sibling: u32,
    x: i16,
    y: i16,
    width: u16,
    height: u16,
    border_width: u16,
    override_redirect: bool,
)
    requires
        bytes_mut_contents(*old(buf)).len() + 32 <= buffer_limit(),
    ensures
        bytes_mut_contents(*final(buf)) == bytes_mut_contents(*old(buf)) + configure_notify_bytes(
            event,
            window,
            above_sibling,
            x,
            y,
            width,
            height,
            border_width,
            override_redirect,
        ),
{
    let ghost start = bytes_mut_contents(*buf);
    put_u8(buf, CONFIGURE_NOTIFY);
    put_u8(buf, 0);  // Padding
    put_u16(buf, 0);  // Sequence number
    put_u32(buf, event);
    put_u32(buf, window);
    put_u32(buf, above_sibling);
    put_i16(buf, x);
    put_i16(buf, y);
    put_u16(buf, width);
    put_u16(buf, height);
    put_u16(buf, border_width);
    put_u8(
        buf,
        if override_redirect {
            1
        } else {
            0
        },
    );
    put_u8(buf, 0);  // Padding
    put_u32(buf, 0);  // Padding
    assert(bytes_mut_contents(*buf) =~= start + configure_notify_bytes(
        event,
        window,
        above_sibling,
        x,
        y,
        width,
        height,
        border_width,
        override_redirect,
    ));
}

fn put_input_event(
    buf: &mut BytesMut,
    code: u8,
    detail: u8,
    time: u32,
    root: u32,
    event: u32,
    child: u32,
    root_x: i16,
    root_y: i16,
    event_x: i16,
    event_y: i16,
    state: u16,
    same_screen: bool,
)
    requires
        bytes_mut_contents(*old(buf)).len() + 32 <= buffer_limit(),
    ensures
        bytes_mut_contents(*final(buf)) == bytes_mut_contents(*old(buf)) + input_event_bytes(
            code,
            detail,
            time,
            root,
            event,
            child,
            root_x,
            root_y,
            event_x,
            event_y,
            state,
            same_screen,
        ),
{
    let ghost start = bytes_mut_contents(*buf);
    put_u8(buf, code);
    put_u8(buf, detail);
    put_u16(buf, 0);  // Sequence number
    put_u32(buf, time);
    put_u32(buf, root);
    put_u32(buf, event);
    put_u32(buf, child);
    put_i16(buf, root_x);
    put_i16(buf, root_y);
    put_i16(buf, event_x);
    put_i16(buf, event_y);
    put_u16(buf, state);
    put_u8(
        buf,
        if same_screen {
            1
        } else {
            0
        },
    );
    put_u8(buf, 0);  // Padding
    assert(bytes_mut_contents(*buf) =~= start + input_event_bytes(
        code,
        detail,
        time,
        root,
        event,
        child,
        root_x,
        root_y,
        event_x,
        event_y,
        state,
        same_screen,
    ));
}

/// Serialize an event to wire format
pub fn serialize_event(event: &Event, buf: &mut BytesMut)
    requires
        bytes_mut_contents(*old(buf)).len() + 32 <= buffer_limit(),
    ensures
        bytes_mut_contents(*final(buf)) == bytes_mut_contents(*old(buf)) + event_bytes(*event),
{
    let ghost start = bytes_mut_contents(*buf);
    match event {
        Event::Expose { window, x, y, width, height, count } => {
            put_expose(buf, *window, *x, *y, *width, *height, *count);
        },
        Event::ConfigureNotify {
            event,
            window,
            above_sibling,
            x,
            y,
            width,
            height,
            border_width,
            override_redirect,
        } => {
            put_configure_notify(
                buf,
                *event,
                *window,
                *above_sibling,
                *x,
                *y,
                *width,
                *height,
                *border_width,
                *override_redirect,
            );
        },
        Event::KeyPress {
            detail,
            time,
            root,
            event,
            child,
            root_x,
            root_y,
            event_x,
            event_y,
            state,
            same_screen,
        } => {
            put_input_event(
                buf,
                KEY_PRESS,
                *detail,
                *time,
                *root,
                *event,
                *child,
                *root_x,
                *root_y,
                *event_x,
                *event_y,
                *state,
                *same_screen,
            );
        },
        Event::KeyRelease {
            detail,
            time,
            root,
            event,
            child,
            root_x,
            root_y,
            event_x,
            event_y,
            state,
            same_screen,
        } => {
            put_input_event(
                buf,
                KEY_RELEASE,
                *detail,
                *time,
                *root,
                *event,
                *child,
                *root_x,
                *root_y,
                *event_x,
                *event_y,
                *state,
                *same_screen,
            );
        },
        Event::ButtonPress {
            detail,
            time,
            root,
            event,
            child,
            root_x,
            root_y,
            event_x,
            event_y,
            state,
            same_screen,
        } => {
            put_input_event(
                buf,
                BUTTON_PRESS,
                *detail,
                *time,
                *root,
                *event,
                *child,
                *root_x,
                *root_y,
                *event_x,
                *event_y,
                *state,
                *same_screen,
            );
        },
        Event::ButtonRelease {
            detail,
            time,
            root,
            event,
            child,
            root_x,
            root_y,
            event_x,
            event_y,
            state,
            same_screen,
        } => {
            put_input_event(
                buf,
                BUTTON_RELEASE,
                *detail,
                *time,
                *root,
                *event,
                *child,
                *root_x,
                *root_y,
                *event_x,
                *event_y,
                *state,
                *same_screen,
            );
        },
        _ => {
            // Events without an encoding of their own
            put_u8(buf, 0);
            put_zeros(buf, 31);
            assert(bytes_mut_contents(*buf) =~= start + zeros(32));
        },
    }
}

} // verus!
