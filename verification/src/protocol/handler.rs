//! Protocol Request Handler Traits
//!
//! The identity of each request handler, and the registry that routes a
//! request to the handler of its (major, minor) opcode.

pub mod default;
pub mod extension;
pub mod headless;
pub mod native_display;
pub mod other_handler;
pub mod property;
pub mod registry;
pub mod surface;
pub mod virtual_display;
pub mod window;

use vstd::prelude::*;
use crate::protocol::extension_registry::{
    lemma_standard_extension_opcodes, spec_major_opcode,
    ExtensionRegistry,
};
use crate::protocol::handlers::{
    BigRequestsHandler, ChangeGCHandler, ChangePropertyHandler, ClearAreaHandler,
    CopyAreaHandler, CreateGCHandler, CreateGlyphCursorHandler, CreatePixmapHandler,
    CreateWindowHandler, DestroyWindowHandler, FillArcHandler, FreePixmapHandler,
    GetGeometryHandler, GetInputFocusHandler, GetPropertyHandler, GrabPointerHandler,
    InternAtomHandler, MapWindowHandler, OpenFontHandler, PolyArcHandler,
    PolyFillRectangleHandler, PolyLineHandler, PutImageHandler, QueryColorsHandler,
    QueryExtensionHandler, RenderCreateSolidFillHandler, RenderQueryVersionHandler,
    UnmapWindowHandler,
};
use crate::protocol::randr::handlers::{
    RandrGetCrtcInfoHandler, RandrGetOutputInfoHandler, RandrGetScreenResourcesHandler,
    RandrGetScreenSizeRangeHandler, RandrQueryVersionHandler,
};
use crate::protocol::types::{RandrOpcode, RenderOpcode, X11Error};

verus! {

/// Result type for request handlers
pub type HandlerResult<T> = Result<T, X11Error>;

/// What identifies a request handler.
pub trait RequestHandler {
    /// The (major, minor) opcode this handler serves.
    spec fn spec_opcode(&self) -> (u8, Option<u8>);

    /// The (major, minor) opcode this handler supports. `minor` is `None`
    /// for core protocol requests, and `Some(_)` for extension sub-requests
    /// that share a major opcode (e.g. every RANDR request handler holds the
    /// session's RANDR major opcode, assigned by `ExtensionRegistry` and
    /// passed into the handler's constructor, distinguished by minor
    /// opcode).
    fn opcode(&self) -> (r: (u8, Option<u8>))
        ensures
            r == self.spec_opcode(),
    ;

    /// The handler's name.
    spec fn spec_name(&self) -> Seq<char>;

    /// Get a human-readable name for this handler
    fn name(&self) -> (r: &'static str)
        ensures
            r@ == self.spec_name(),
    ;
}

/// A request handler, one variant per handler type.
pub enum HandlerKind {
    GetGeometry(GetGeometryHandler),
    InternAtom(InternAtomHandler),
    ChangeProperty(ChangePropertyHandler),
    GetProperty(GetPropertyHandler),
    QueryColors(QueryColorsHandler),
    CreatePixmap(CreatePixmapHandler),
    FreePixmap(FreePixmapHandler),
    GetInputFocus(GetInputFocusHandler),
    PutImage(PutImageHandler),
    CopyArea(CopyAreaHandler),
    OpenFont(OpenFontHandler),
    CreateGlyphCursor(CreateGlyphCursorHandler),
    GrabPointer(GrabPointerHandler),
    QueryExtension(QueryExtensionHandler),
    CreateWindow(CreateWindowHandler),
    DestroyWindow(DestroyWindowHandler),
    MapWindow(MapWindowHandler),
    ClearArea(ClearAreaHandler),
    UnmapWindow(UnmapWindowHandler),
    CreateGC(CreateGCHandler),
    ChangeGC(ChangeGCHandler),
    PolyArc(PolyArcHandler),
    FillArc(FillArcHandler),
    PolyLine(PolyLineHandler),
    PolyFillRectangle(PolyFillRectangleHandler),
    BigRequests(BigRequestsHandler),
    RenderQueryVersion(RenderQueryVersionHandler),
    RenderCreateSolidFill(RenderCreateSolidFillHandler),
    RandrQueryVersion(RandrQueryVersionHandler),
    RandrGetScreenResources(RandrGetScreenResourcesHandler),
    RandrGetOutputInfo(RandrGetOutputInfoHandler),
    RandrGetCrtcInfo(RandrGetCrtcInfoHandler),
    RandrGetScreenSizeRange(RandrGetScreenSizeRangeHandler),
}

impl RequestHandler for HandlerKind {
    open spec fn spec_opcode(&self) -> (u8, Option<u8>) {
        match self {
            HandlerKind::GetGeometry(h) => h.spec_opcode(),
            HandlerKind::InternAtom(h) => h.spec_opcode(),
            HandlerKind::ChangeProperty(h) => h.spec_opcode(),
            HandlerKind::GetProperty(h) => h.spec_opcode(),
            HandlerKind::QueryColors(h) => h.spec_opcode(),
            HandlerKind::CreatePixmap(h) => h.spec_opcode(),
            HandlerKind::FreePixmap(h) => h.spec_opcode(),
            HandlerKind::GetInputFocus(h) => h.spec_opcode(),
            HandlerKind::PutImage(h) => h.spec_opcode(),
            HandlerKind::CopyArea(h) => h.spec_opcode(),
            HandlerKind::OpenFont(h) => h.spec_opcode(),
            HandlerKind::CreateGlyphCursor(h) => h.spec_opcode(),
            HandlerKind::GrabPointer(h) => h.spec_opcode(),
            HandlerKind::QueryExtension(h) => h.spec_opcode(),
            HandlerKind::CreateWindow(h) => h.spec_opcode(),
            HandlerKind::DestroyWindow(h) => h.spec_opcode(),
            HandlerKind::MapWindow(h) => h.spec_opcode(),
            HandlerKind::ClearArea(h) => h.spec_opcode(),
            HandlerKind::UnmapWindow(h) => h.spec_opcode(),
            HandlerKind::CreateGC(h) => h.spec_opcode(),
            HandlerKind::ChangeGC(h) => h.spec_opcode(),
            HandlerKind::PolyArc(h) => h.spec_opcode(),
            HandlerKind::FillArc(h) => h.spec_opcode(),
            HandlerKind::PolyLine(h) => h.spec_opcode(),
            HandlerKind::PolyFillRectangle(h) => h.spec_opcode(),
            HandlerKind::BigRequests(h) => h.spec_opcode(),
            HandlerKind::RenderQueryVersion(h) => h.spec_opcode(),
            HandlerKind::RenderCreateSolidFill(h) => h.spec_opcode(),
            HandlerKind::RandrQueryVersion(h) => h.spec_opcode(),
            HandlerKind::RandrGetScreenResources(h) => h.spec_opcode(),
            HandlerKind::RandrGetOutputInfo(h) => h.spec_opcode(),
            HandlerKind::RandrGetCrtcInfo(h) => h.spec_opcode(),
            HandlerKind::RandrGetScreenSizeRange(h) => h.spec_opcode(),
        }
    }

    open spec fn spec_name(&self) -> Seq<char> {
        match self {
            HandlerKind::GetGeometry(h) => h.spec_name(),
            HandlerKind::InternAtom(h) => h.spec_name(),
            HandlerKind::ChangeProperty(h) => h.spec_name(),
            HandlerKind::GetProperty(h) => h.spec_name(),
            HandlerKind::QueryColors(h) => h.spec_name(),
            HandlerKind::CreatePixmap(h) => h.spec_name(),
            HandlerKind::FreePixmap(h) => h.spec_name(),
            HandlerKind::GetInputFocus(h) => h.spec_name(),
            HandlerKind::PutImage(h) => h.spec_name(),
            HandlerKind::CopyArea(h) => h.spec_name(),
            HandlerKind::OpenFont(h) => h.spec_name(),
            HandlerKind::CreateGlyphCursor(h) => h.spec_name(),
            HandlerKind::GrabPointer(h) => h.spec_name(),
            HandlerKind::QueryExtension(h) => h.spec_name(),
            HandlerKind::CreateWindow(h) => h.spec_name(),
            HandlerKind::DestroyWindow(h) => h.spec_name(),
            HandlerKind::MapWindow(h) => h.spec_name(),
            HandlerKind::ClearArea(h) => h.spec_name(),
            HandlerKind::UnmapWindow(h) => h.spec_name(),
            HandlerKind::CreateGC(h) => h.spec_name(),
            HandlerKind::ChangeGC(h) => h.spec_name(),
            HandlerKind::PolyArc(h) => h.spec_name(),
            HandlerKind::FillArc(h) => h.spec_name(),
            HandlerKind::PolyLine(h) => h.spec_name(),
            HandlerKind::PolyFillRectangle(h) => h.spec_name(),
            HandlerKind::BigRequests(h) => h.spec_name(),
            HandlerKind::RenderQueryVersion(h) => h.spec_name(),
            HandlerKind::RenderCreateSolidFill(h) => h.spec_name(),
            HandlerKind::RandrQueryVersion(h) => h.spec_name(),
            HandlerKind::RandrGetScreenResources(h) => h.spec_name(),
            HandlerKind::RandrGetOutputInfo(h) => h.spec_name(),
            HandlerKind::RandrGetCrtcInfo(h) => h.spec_name(),
            HandlerKind::RandrGetScreenSizeRange(h) => h.spec_name(),
        }
    }

    fn opcode(&self) -> (u8, Option<u8>) {
        match self {
            HandlerKind::GetGeometry(h) => h.opcode(),
            HandlerKind::InternAtom(h) => h.opcode(),
            HandlerKind::ChangeProperty(h) => h.opcode(),
            HandlerKind::GetProperty(h) => h.opcode(),
            HandlerKind::QueryColors(h) => h.opcode(),
            HandlerKind::CreatePixmap(h) => h.opcode(),
            HandlerKind::FreePixmap(h) => h.opcode(),
            HandlerKind::GetInputFocus(h) => h.opcode(),
            HandlerKind::PutImage(h) => h.opcode(),
            HandlerKind::CopyArea(h) => h.opcode(),
            HandlerKind::OpenFont(h) => h.opcode(),
            HandlerKind::CreateGlyphCursor(h) => h.opcode(),
            HandlerKind::GrabPointer(h) => h.opcode(),
            HandlerKind::QueryExtension(h) => h.opcode(),
            HandlerKind::CreateWindow(h) => h.opcode(),
            HandlerKind::DestroyWindow(h) => h.opcode(),
            HandlerKind::MapWindow(h) => h.opcode(),
            HandlerKind::ClearArea(h) => h.opcode(),
            HandlerKind::UnmapWindow(h) => h.opcode(),
            HandlerKind::CreateGC(h) => h.opcode(),
            HandlerKind::ChangeGC(h) => h.opcode(),
            HandlerKind::PolyArc(h) => h.opcode(),
            HandlerKind::FillArc(h) => h.opcode(),
            HandlerKind::PolyLine(h) => h.opcode(),
            HandlerKind::PolyFillRectangle(h) => h.opcode(),
            HandlerKind::BigRequests(h) => h.opcode(),
            HandlerKind::RenderQueryVersion(h) => h.opcode(),
            HandlerKind::RenderCreateSolidFill(h) => h.opcode(),
            HandlerKind::RandrQueryVersion(h) => h.opcode(),
            HandlerKind::RandrGetScreenResources(h) => h.opcode(),
            HandlerKind::RandrGetOutputInfo(h) => h.opcode(),
            HandlerKind::RandrGetCrtcInfo(h) => h.opcode(),
            HandlerKind::RandrGetScreenSizeRange(h) => h.opcode(),
        }
    }

    fn name(&self) -> &'static str {
        match self {
            HandlerKind::GetGeometry(h) => h.name(),
            HandlerKind::InternAtom(h) => h.name(),
            HandlerKind::ChangeProperty(h) => h.name(),
            HandlerKind::GetProperty(h) => h.name(),
            HandlerKind::QueryColors(h) => h.name(),
            HandlerKind::CreatePixmap(h) => h.name(),
            HandlerKind::FreePixmap(h) => h.name(),
            HandlerKind::GetInputFocus(h) => h.name(),
            HandlerKind::PutImage(h) => h.name(),
            HandlerKind::CopyArea(h) => h.name(),
            HandlerKind::OpenFont(h) => h.name(),
            HandlerKind::CreateGlyphCursor(h) => h.name(),
            HandlerKind::GrabPointer(h) => h.name(),
            HandlerKind::QueryExtension(h) => h.name(),
            HandlerKind::CreateWindow(h) => h.name(),
            HandlerKind::DestroyWindow(h) => h.name(),
            HandlerKind::MapWindow(h) => h.name(),
            HandlerKind::ClearArea(h) => h.name(),
            HandlerKind::UnmapWindow(h) => h.name(),
            HandlerKind::CreateGC(h) => h.name(),
            HandlerKind::ChangeGC(h) => h.name(),
            HandlerKind::PolyArc(h) => h.name(),
            HandlerKind::FillArc(h) => h.name(),
            HandlerKind::PolyLine(h) => h.name(),
            HandlerKind::PolyFillRectangle(h) => h.name(),
            HandlerKind::BigRequests(h) => h.name(),
            HandlerKind::RenderQueryVersion(h) => h.name(),
            HandlerKind::RenderCreateSolidFill(h) => h.name(),
            HandlerKind::RandrQueryVersion(h) => h.name(),
            HandlerKind::RandrGetScreenResources(h) => h.name(),
            HandlerKind::RandrGetOutputInfo(h) => h.name(),
            HandlerKind::RandrGetCrtcInfo(h) => h.name(),
            HandlerKind::RandrGetScreenSizeRange(h) => h.name(),
        }
    }
}

/// Whether two (major, minor) opcodes are the same.
fn key_eq(a: (u8, Option<u8>), b: (u8, Option<u8>)) -> (r: bool)
    ensures
        r == (a == b),
{
    a.0 == b.0 && match (a.1, b.1) {
        (Some(x), Some(y)) => x == y,
        (None, None) => true,
        _ => false,
    }
}

/// Registry for managing request handlers by (major, minor) opcode
pub struct RequestHandlerRegistry {
    handlers: Vec<((u8, Option<u8>), HandlerKind)>,
}

/// The handlers of a list of entries, by opcode; a later entry wins.
pub open spec fn handler_map_of(entries: Seq<((u8, Option<u8>), HandlerKind)>) -> Map<
    (u8, Option<u8>),
    HandlerKind,
>
    decreases entries.len(),
{
    if entries.len() == 0 {
        Map::empty()
    } else {
        handler_map_of(entries.drop_last()).insert(entries.last().0, entries.last().1)
    }
}

/// No opcode occurs twice among the entries.
pub open spec fn keys_unique(entries: Seq<((u8, Option<u8>), HandlerKind)>) -> bool {
    forall|i: int, j: int|
        0 <= i < j < entries.len() ==> (#[trigger] entries[i]).0 != (#[trigger] entries[j]).0
}

proof fn lemma_map_of_contains(entries: Seq<((u8, Option<u8>), HandlerKind)>, key: (u8, Option<u8>))
    ensures
        handler_map_of(entries).contains_key(key) <==> exists|i: int|
            0 <= i < entries.len() && (#[trigger] entries[i]).0 == key,
    decreases entries.len(),
{
    if entries.len() > 0 {
        let prefix = entries.drop_last();
        lemma_map_of_contains(prefix, key);
        if exists|i: int| 0 <= i < entries.len() && (#[trigger] entries[i]).0 == key {
            let i = choose|i: int| 0 <= i < entries.len() && (#[trigger] entries[i]).0 == key;
            if i < entries.len() - 1 {
                assert(prefix[i].0 == key);
            }
        }
        if exists|i: int| 0 <= i < prefix.len() && (#[trigger] prefix[i]).0 == key {
            let i = choose|i: int| 0 <= i < prefix.len() && (#[trigger] prefix[i]).0 == key;
            assert(entries[i].0 == key);
        }
    }
}

proof fn lemma_map_of_update(
    entries: Seq<((u8, Option<u8>), HandlerKind)>,
    i: int,
    handler: HandlerKind,
)
    requires
        0 <= i < entries.len(),
        keys_unique(entries),
    ensures
        handler_map_of(entries.update(i, (entries[i].0, handler))) == handler_map_of(entries).insert(
            entries[i].0,
            handler,
        ),
    decreases entries.len(),
{
    let key = entries[i].0;
    let updated = entries.update(i, (key, handler));
    if i == entries.len() - 1 {
        assert(updated.drop_last() =~= entries.drop_last());
        assert(handler_map_of(entries).insert(key, handler) =~= handler_map_of(
            entries.drop_last(),
        ).insert(key, handler));
    } else {
        let prefix = entries.drop_last();
        assert(keys_unique(prefix));
        lemma_map_of_update(prefix, i, handler);
        assert(updated.drop_last() =~= prefix.update(i, (key, handler)));
        assert(entries.last().0 != key);
        assert(handler_map_of(updated) =~= handler_map_of(entries).insert(key, handler));
    }
}

proof fn lemma_map_of_value(entries: Seq<((u8, Option<u8>), HandlerKind)>, i: int)
    requires
        0 <= i < entries.len(),
        keys_unique(entries),
    ensures
        handler_map_of(entries).contains_key(entries[i].0),
        handler_map_of(entries)[entries[i].0] == entries[i].1,
    decreases entries.len(),
{
    if i < entries.len() - 1 {
        assert(keys_unique(entries.drop_last()));
        lemma_map_of_value(entries.drop_last(), i);
        assert(entries.last().0 != entries[i].0);
    }
}

impl RequestHandlerRegistry {
    /// Each registered handler under its opcode, in registration order.
    pub closed spec fn entries(&self) -> Seq<((u8, Option<u8>), HandlerKind)> {
        self.handlers@
    }

    /// The registered handlers, by opcode.
    pub open spec fn handler_map(&self) -> Map<(u8, Option<u8>), HandlerKind> {
        handler_map_of(self.entries())
    }

    /// The handler registered for an opcode.
    pub open spec fn lookup_spec(&self, key: (u8, Option<u8>)) -> Option<HandlerKind> {
        if self.handler_map().contains_key(key) {
            Some(self.handler_map()[key])
        } else {
            None
        }
    }

    /// The registry's invariant: no opcode is registered twice, and each
    /// handler sits under its own opcode.
    pub open spec fn wf(&self) -> bool {
        &&& keys_unique(self.entries())
        &&& forall|i: int|
            0 <= i < self.entries().len() ==> (#[trigger] self.entries()[i]).0
                == self.entries()[i].1.spec_opcode()
    }

    /// Create a new empty registry
    pub fn new() -> (r: Self)
        ensures
            r.wf(),
            r.handler_map() == Map::<(u8, Option<u8>), HandlerKind>::empty(),
            r.entries().len() == 0,
    {
        Self { handlers: Vec::new() }
    }

    /// Register a handler for its (major, minor) opcode, in place of any
    /// handler registered for it before.
    pub fn register_handler(&mut self, handler: HandlerKind)
        requires
            old(self).wf(),
        ensures
            final(self).wf(),
            final(self).handler_map() == old(self).handler_map().insert(handler.spec_opcode(), handler),
            final(self).entries().len() == old(self).entries().len() + if old(
                self,
            ).handler_map().contains_key(handler.spec_opcode()) {
                0int
            } else {
                1int
            },
    {
        let key = handler.opcode();
        proof {
            lemma_map_of_contains(self.entries(), key);
        }
        let mut i: usize = 0;
        while i < self.handlers.len()
            invariant
                i <= self.handlers@.len(),
                self.handlers@ == old(self).handlers@,
                old(self).wf(),
                key == handler.spec_opcode(),
                forall|j: int| 0 <= j < i ==> (#[trigger] self.handlers@[j]).0 != key,
            decreases self.handlers@.len() - i,
        {
            if key_eq(self.handlers[i].0, key) {
                proof {
                    lemma_map_of_update(self.entries(), i as int, handler);
                    lemma_map_of_value(self.entries(), i as int);
                }
                self.handlers.set(i, (key, handler));
                proof {
                    assert forall|a: int, b: int|
                        0 <= a < b < self.entries().len() implies (#[trigger] self.entries()[a]).0
                        != (#[trigger] self.entries()[b]).0 by {
                        assert(old(self).entries()[a].0 == self.entries()[a].0);
                        assert(old(self).entries()[b].0 == self.entries()[b].0);
                    }
                }
                return;
            }
            i = i + 1;
        }
        self.handlers.push((key, handler));
        proof {
            assert(self.entries().drop_last() =~= old(self).entries());
            assert forall|a: int, b: int|
                0 <= a < b < self.entries().len() implies (#[trigger] self.entries()[a]).0 != (
                #[trigger] self.entries()[b]).0 by {
                if b == old(self).entries().len() {
                    assert(old(self).entries()[a].0 != key);
                }
            }
        }
    }

    /// The handler for a request's (major, minor) opcode, if one is registered.
    pub fn handler_for(&self, opcode: u8, minor_opcode: Option<u8>) -> (r: Option<&HandlerKind>)
        requires
            self.wf(),
        ensures
            r is Some <==> self.lookup_spec((opcode, minor_opcode)) is Some,
            r matches Some(h) ==> self.lookup_spec((opcode, minor_opcode)) == Some(*h),
    {
        let key = (opcode, minor_opcode);
        proof {
            lemma_map_of_contains(self.entries(), key);
        }
        let mut i: usize = 0;
        while i < self.handlers.len()
            invariant
                i <= self.handlers@.len(),
                self.wf(),
                key == (opcode, minor_opcode),
                forall|j: int| 0 <= j < i ==> (#[trigger] self.handlers@[j]).0 != key,
            decreases self.handlers@.len() - i,
        {
            if key_eq(self.handlers[i].0, key) {
                proof {
                    assert(self.entries()[i as int].0 == key);
                    lemma_map_of_value(self.entries(), i as int);
                    assert(self.handler_map().contains_key(key));
                }
                return Some(&self.handlers[i].1);
            }
            i = i + 1;
        }
        None
    }

    /// Get the number of registered handlers
    pub fn handler_count(&self) -> (n: usize)
        ensures
            n == self.entries().len(),
    {
        self.handlers.len()
    }

    /// Get all registered (major, minor) opcodes
    pub fn registered_opcodes(&self) -> (v: Vec<(u8, Option<u8>)>)
        ensures
            v@.len() == self.entries().len(),
            forall|i: int| 0 <= i < v@.len() ==> v@[i] == (#[trigger] self.entries()[i]).0,
    {
        let mut v: Vec<(u8, Option<u8>)> = Vec::new();
        let mut i: usize = 0;
        while i < self.handlers.len()
            invariant
                i <= self.handlers@.len(),
                v@.len() == i,
                forall|j: int| 0 <= j < i ==> v@[j] == (#[trigger] self.handlers@[j]).0,
            decreases self.handlers@.len() - i,
        {
            v.push(self.handlers[i].0);
            i = i + 1;
        }
        v
    }
}

/// The core opcodes the standard registry has a handler for.
pub open spec fn core_handler_opcodes() -> Set<u8> {
    set![1u8, 4, 8, 61, 10, 14, 55, 56, 68, 71, 65, 70, 16, 18, 20, 91, 53, 54, 43, 72, 62, 45, 94, 26, 98]
}

/// The (major, minor) opcodes the standard registry serves: the core
/// opcodes above, BIG-REQUESTS, five RANDR requests and two RENDER requests,
/// each extension under the major opcode assigned to it.
pub open spec fn standard_handler_key(k: (u8, Option<u8>)) -> bool {
    ||| k.1 is None && core_handler_opcodes().contains(k.0)
    ||| k.1 is None && spec_major_opcode("BIG-REQUESTS"@) == Some(k.0)
    ||| spec_major_opcode("RANDR"@) == Some(k.0) && k.1 is Some && set![
        RandrOpcode::QueryVersion.spec_value(),
        RandrOpcode::GetScreenResources.spec_value(),
        RandrOpcode::GetOutputInfo.spec_value(),
        RandrOpcode::GetCrtcInfo.spec_value(),
        RandrOpcode::GetScreenSizeRange.spec_value(),
    ].contains(k.1.unwrap())
    ||| spec_major_opcode("RENDER"@) == Some(k.0) && k.1 is Some && set![
        RenderOpcode::QueryVersion.spec_value(),
        RenderOpcode::CreateSolidFill.spec_value(),
    ].contains(k.1.unwrap())
}

/// Register the core protocol's handlers in an empty registry.
#[verifier::rlimit(40)]
fn register_core_handlers(registry: &mut RequestHandlerRegistry)
    requires
        old(registry).wf(),
        old(registry).handler_map() == Map::<(u8, Option<u8>), HandlerKind>::empty(),
        old(registry).entries().len() == 0,
    ensures
        final(registry).wf(),
        forall|k: (u8, Option<u8>)|
            #[trigger] final(registry).handler_map().contains_key(k) <==> k.1 is None
                && core_handler_opcodes().contains(k.0),
        final(registry).entries().len() == 25,
        final(registry).lookup_spec((1, None)) matches Some(HandlerKind::CreateWindow(_)),
        final(registry).lookup_spec((4, None)) matches Some(HandlerKind::DestroyWindow(_)),
        final(registry).lookup_spec((8, None)) matches Some(HandlerKind::MapWindow(_)),
        final(registry).lookup_spec((61, None)) matches Some(HandlerKind::ClearArea(_)),
        final(registry).lookup_spec((10, None)) matches Some(HandlerKind::UnmapWindow(_)),
        final(registry).lookup_spec((14, None)) matches Some(HandlerKind::GetGeometry(_)),
        final(registry).lookup_spec((55, None)) matches Some(HandlerKind::CreateGC(_)),
        final(registry).lookup_spec((56, None)) matches Some(HandlerKind::ChangeGC(_)),
        final(registry).lookup_spec((68, None)) matches Some(HandlerKind::PolyArc(_)),
        final(registry).lookup_spec((71, None)) matches Some(HandlerKind::FillArc(_)),
        final(registry).lookup_spec((65, None)) matches Some(HandlerKind::PolyLine(_)),
        final(registry).lookup_spec((70, None)) matches Some(HandlerKind::PolyFillRectangle(_)),
        final(registry).lookup_spec((16, None)) matches Some(HandlerKind::InternAtom(_)),
        final(registry).lookup_spec((18, None)) matches Some(HandlerKind::ChangeProperty(_)),
        final(registry).lookup_spec((20, None)) matches Some(HandlerKind::GetProperty(_)),
        final(registry).lookup_spec((91, None)) matches Some(HandlerKind::QueryColors(_)),
        final(registry).lookup_spec((53, None)) matches Some(HandlerKind::CreatePixmap(_)),
        final(registry).lookup_spec((54, None)) matches Some(HandlerKind::FreePixmap(_)),
        final(registry).lookup_spec((43, None)) matches Some(HandlerKind::GetInputFocus(_)),
        final(registry).lookup_spec((72, None)) matches Some(HandlerKind::PutImage(_)),
        final(registry).lookup_spec((62, None)) matches Some(HandlerKind::CopyArea(_)),
        final(registry).lookup_spec((45, None)) matches Some(HandlerKind::OpenFont(_)),
        final(registry).lookup_spec((94, None)) matches Some(HandlerKind::CreateGlyphCursor(_)),
        final(registry).lookup_spec((26, None)) matches Some(HandlerKind::GrabPointer(_)),
        final(registry).lookup_spec((98, None)) matches Some(HandlerKind::QueryExtension(_)),
{
    assert(!registry.handler_map().contains_key((1u8, None::<u8>)) && registry.entries().len() == 0);
    registry.register_handler(HandlerKind::CreateWindow(CreateWindowHandler));
    assert(!registry.handler_map().contains_key((4u8, None::<u8>)) && registry.entries().len() == 1);
    registry.register_handler(HandlerKind::DestroyWindow(DestroyWindowHandler));
    assert(!registry.handler_map().contains_key((8u8, None::<u8>)) && registry.entries().len() == 2);
    registry.register_handler(HandlerKind::MapWindow(MapWindowHandler));
    assert(!registry.handler_map().contains_key((61u8, None::<u8>)) && registry.entries().len() == 3);
    registry.register_handler(HandlerKind::ClearArea(ClearAreaHandler));
    assert(!registry.handler_map().contains_key((10u8, None::<u8>)) && registry.entries().len() == 4);
    registry.register_handler(HandlerKind::UnmapWindow(UnmapWindowHandler));
    assert(!registry.handler_map().contains_key((14u8, None::<u8>)) && registry.entries().len() == 5);
    registry.register_handler(HandlerKind::GetGeometry(GetGeometryHandler));
    assert(!registry.handler_map().contains_key((55u8, None::<u8>)) && registry.entries().len() == 6);
    registry.register_handler(HandlerKind::CreateGC(CreateGCHandler));
    assert(!registry.handler_map().contains_key((56u8, None::<u8>)) && registry.entries().len() == 7);
    registry.register_handler(HandlerKind::ChangeGC(ChangeGCHandler));
    assert(!registry.handler_map().contains_key((68u8, None::<u8>)) && registry.entries().len() == 8);
    registry.register_handler(HandlerKind::PolyArc(PolyArcHandler));
    assert(!registry.handler_map().contains_key((71u8, None::<u8>)) && registry.entries().len() == 9);
    registry.register_handler(HandlerKind::FillArc(FillArcHandler));
    assert(!registry.handler_map().contains_key((65u8, None::<u8>)) && registry.entries().len() == 10);
    registry.register_handler(HandlerKind::PolyLine(PolyLineHandler));
    assert(!registry.handler_map().contains_key((70u8, None::<u8>)) && registry.entries().len() == 11);
    registry.register_handler(HandlerKind::PolyFillRectangle(PolyFillRectangleHandler));
    assert(!registry.handler_map().contains_key((16u8, None::<u8>)) && registry.entries().len() == 12);
    registry.register_handler(HandlerKind::InternAtom(InternAtomHandler));
    assert(!registry.handler_map().contains_key((18u8, None::<u8>)) && registry.entries().len() == 13);
    registry.register_handler(HandlerKind::ChangeProperty(ChangePropertyHandler));
    assert(!registry.handler_map().contains_key((20u8, None::<u8>)) && registry.entries().len() == 14);
    registry.register_handler(HandlerKind::GetProperty(GetPropertyHandler));
    assert(!registry.handler_map().contains_key((91u8, None::<u8>)) && registry.entries().len() == 15);
    registry.register_handler(HandlerKind::QueryColors(QueryColorsHandler));
    assert(!registry.handler_map().contains_key((53u8, None::<u8>)) && registry.entries().len() == 16);
    registry.register_handler(HandlerKind::CreatePixmap(CreatePixmapHandler));
    assert(!registry.handler_map().contains_key((54u8, None::<u8>)) && registry.entries().len() == 17);
    registry.register_handler(HandlerKind::FreePixmap(FreePixmapHandler));
    assert(!registry.handler_map().contains_key((43u8, None::<u8>)) && registry.entries().len() == 18);
    registry.register_handler(HandlerKind::GetInputFocus(GetInputFocusHandler));
    assert(!registry.handler_map().contains_key((72u8, None::<u8>)) && registry.entries().len() == 19);
    registry.register_handler(HandlerKind::PutImage(PutImageHandler));
    assert(!registry.handler_map().contains_key((62u8, None::<u8>)) && registry.entries().len() == 20);
    registry.register_handler(HandlerKind::CopyArea(CopyAreaHandler));
    assert(!registry.handler_map().contains_key((45u8, None::<u8>)) && registry.entries().len() == 21);
    registry.register_handler(HandlerKind::OpenFont(OpenFontHandler));
    assert(!registry.handler_map().contains_key((94u8, None::<u8>)) && registry.entries().len() == 22);
    registry.register_handler(HandlerKind::CreateGlyphCursor(CreateGlyphCursorHandler));
    assert(!registry.handler_map().contains_key((26u8, None::<u8>)) && registry.entries().len() == 23);
    registry.register_handler(HandlerKind::GrabPointer(GrabPointerHandler));
    assert(!registry.handler_map().contains_key((98u8, None::<u8>)) && registry.entries().len() == 24);
    registry.register_handler(HandlerKind::QueryExtension(QueryExtensionHandler));
    assert(registry.entries().len() == 25);
}

/// Convenience function to create a registry with standard handlers.
///
/// `extensions` supplies this session's dynamically assigned extension major
/// opcodes (see `ExtensionRegistry`) so extension handlers register under the
/// same opcode `parse_dynamic` will route requests to.
#[verifier::rlimit(60)]
pub fn create_standard_handler_registry(extensions: &ExtensionRegistry) -> (registry: RequestHandlerRegistry)
    ensures
        registry.wf(),
        registry.lookup_spec((1, None)) matches Some(HandlerKind::CreateWindow(_)),
        registry.lookup_spec((4, None)) matches Some(HandlerKind::DestroyWindow(_)),
        registry.lookup_spec((8, None)) matches Some(HandlerKind::MapWindow(_)),
        registry.lookup_spec((61, None)) matches Some(HandlerKind::ClearArea(_)),
        registry.lookup_spec((10, None)) matches Some(HandlerKind::UnmapWindow(_)),
        registry.lookup_spec((14, None)) matches Some(HandlerKind::GetGeometry(_)),
        registry.lookup_spec((55, None)) matches Some(HandlerKind::CreateGC(_)),
        registry.lookup_spec((56, None)) matches Some(HandlerKind::ChangeGC(_)),
        registry.lookup_spec((68, None)) matches Some(HandlerKind::PolyArc(_)),
        registry.lookup_spec((71, None)) matches Some(HandlerKind::FillArc(_)),
        registry.lookup_spec((65, None)) matches Some(HandlerKind::PolyLine(_)),
        registry.lookup_spec((70, None)) matches Some(HandlerKind::PolyFillRectangle(_)),
        registry.lookup_spec((16, None)) matches Some(HandlerKind::InternAtom(_)),
        registry.lookup_spec((18, None)) matches Some(HandlerKind::ChangeProperty(_)),
        registry.lookup_spec((20, None)) matches Some(HandlerKind::GetProperty(_)),
        registry.lookup_spec((91, None)) matches Some(HandlerKind::QueryColors(_)),
        registry.lookup_spec((53, None)) matches Some(HandlerKind::CreatePixmap(_)),
        registry.lookup_spec((54, None)) matches Some(HandlerKind::FreePixmap(_)),
        registry.lookup_spec((43, None)) matches Some(HandlerKind::GetInputFocus(_)),
        registry.lookup_spec((72, None)) matches Some(HandlerKind::PutImage(_)),
        registry.lookup_spec((62, None)) matches Some(HandlerKind::CopyArea(_)),
        registry.lookup_spec((45, None)) matches Some(HandlerKind::OpenFont(_)),
        registry.lookup_spec((94, None)) matches Some(HandlerKind::CreateGlyphCursor(_)),
        registry.lookup_spec((26, None)) matches Some(HandlerKind::GrabPointer(_)),
        registry.lookup_spec((98, None)) matches Some(HandlerKind::QueryExtension(_)),
        spec_major_opcode("BIG-REQUESTS"@) matches Some(m) ==> registry.lookup_spec((m, None)) matches Some(HandlerKind::BigRequests(_)),
        spec_major_opcode("RANDR"@) matches Some(m) ==> {
            &&& registry.lookup_spec((m, Some(RandrOpcode::QueryVersion.spec_value()))) matches Some(HandlerKind::RandrQueryVersion(_))
            &&& registry.lookup_spec((m, Some(RandrOpcode::GetScreenResources.spec_value()))) matches Some(HandlerKind::RandrGetScreenResources(_))
            &&& registry.lookup_spec((m, Some(RandrOpcode::GetOutputInfo.spec_value()))) matches Some(HandlerKind::RandrGetOutputInfo(_))
            &&& registry.lookup_spec((m, Some(RandrOpcode::GetCrtcInfo.spec_value()))) matches Some(HandlerKind::RandrGetCrtcInfo(_))
            &&& registry.lookup_spec((m, Some(RandrOpcode::GetScreenSizeRange.spec_value()))) matches Some(HandlerKind::RandrGetScreenSizeRange(_))
        },
        spec_major_opcode("RENDER"@) matches Some(m) ==> {
            &&& registry.lookup_spec((m, Some(RenderOpcode::QueryVersion.spec_value()))) matches Some(HandlerKind::RenderQueryVersion(_))
            &&& registry.lookup_spec((m, Some(RenderOpcode::CreateSolidFill.spec_value()))) matches Some(HandlerKind::RenderCreateSolidFill(_))
        },
        forall|k: (u8, Option<u8>)|
            #[trigger] registry.handler_map().contains_key(k) <==> standard_handler_key(k),
        registry.entries().len() == 33,
{
    let mut registry = RequestHandlerRegistry::new();
    register_core_handlers(&mut registry);
    proof {
        lemma_standard_extension_opcodes();
    }
    if let Some(major) = extensions.major_opcode("BIG-REQUESTS") {
        registry.register_handler(HandlerKind::BigRequests(BigRequestsHandler::new(major)));
    }
    if let Some(major) = extensions.major_opcode("RANDR") {
        registry.register_handler(HandlerKind::RandrQueryVersion(RandrQueryVersionHandler::new(major)));
        registry.register_handler(HandlerKind::RandrGetScreenResources(RandrGetScreenResourcesHandler::new(major)));
        registry.register_handler(HandlerKind::RandrGetOutputInfo(RandrGetOutputInfoHandler::new(major)));
        registry.register_handler(HandlerKind::RandrGetCrtcInfo(RandrGetCrtcInfoHandler::new(major)));
        registry.register_handler(HandlerKind::RandrGetScreenSizeRange(RandrGetScreenSizeRangeHandler::new(major)));
    }
    if let Some(major) = extensions.major_opcode("RENDER") {
        registry.register_handler(HandlerKind::RenderQueryVersion(RenderQueryVersionHandler::new(major)));
        registry.register_handler(HandlerKind::RenderCreateSolidFill(RenderCreateSolidFillHandler::new(major)));
    }
    registry
}

} // verus!
