//! Assigns extension major opcodes once per server session, the way real
//! X servers do, instead of hardcoding a fixed number per extension.
//!
//! The spec does not mandate any particular major opcode for a given
//! extension - clients are required to learn it via `QueryExtension`. This
//! registry assigns sequential major opcodes (starting at 128, the first
//! value outside the core protocol's 1-127 range) to a fixed, ordered list
//! of extension names at construction time, so assignment is dynamic in the
//! sense that matters (nothing is hardcoded per-extension) while still being
//! reproducible run-to-run (same list, same order, every startup).

use vstd::prelude::*;
use crate::protocol::constants::FIRST_EXTENSION_OPCODE;
use crate::protocol::utf8::str_eq;

verus! {

/// Extensions this server knows about, in assignment order. Not all of these
/// have a real implementation yet - they still get a major opcode assigned so
/// `QueryExtension` can answer consistently, and so real handlers can be added
/// later without changing opcode assignment for extensions ahead of them.
pub open spec fn known_extension_names() -> Seq<Seq<char>> {
    seq![
        "BIG-REQUESTS"@,
        "RANDR"@,
        "SHAPE"@,
        "MIT-SHM"@,
        "XINERAMA"@,
        "RENDER"@,
        "XKEYBOARD"@,
        "XInputExtension"@,
        "Generic Event Extension"@,
    ]
}

/// Extensions with an actual request handler registered for their
/// sub-requests today. `QueryExtension` reports `present=0` for anything not
/// in this set, even though it still has a major opcode assigned.
pub open spec fn implemented_extension_names() -> Seq<Seq<char>> {
    seq![
        "BIG-REQUESTS"@,
        "RANDR"@,
        "RENDER"@,
        "SHAPE"@,
        "XKEYBOARD"@,
        "XInputExtension"@,
        "Generic Event Extension"@,
    ]
}

/// Position of the first occurrence of `name` in `names`, if any.
pub open spec fn first_index_of(names: Seq<Seq<char>>, name: Seq<char>) -> Option<int>
    decreases names.len(),
{
    if names.len() == 0 {
        None
    } else if names[0] == name {
        Some(0)
    } else {
        match first_index_of(names.drop_first(), name) {
            Some(i) => Some(i + 1),
            None => None,
        }
    }
}

/// The major opcode assigned to `name`: 128 plus its position in the known list.
pub open spec fn spec_major_opcode(name: Seq<char>) -> Option<u8> {
    match first_index_of(known_extension_names(), name) {
        Some(i) => Some((FIRST_EXTENSION_OPCODE + i) as u8),
        None => None,
    }
}

/// The known extension that owns `opcode`, if any.
pub open spec fn spec_extension_for_opcode(opcode: u8) -> Option<Seq<char>> {
    if FIRST_EXTENSION_OPCODE <= opcode < FIRST_EXTENSION_OPCODE + known_extension_names().len() {
        Some(known_extension_names()[opcode - FIRST_EXTENSION_OPCODE])
    } else {
        None
    }
}

proof fn lemma_first_index_of(names: Seq<Seq<char>>, name: Seq<char>)
    ensures
        first_index_of(names, name) matches Some(i) ==> 0 <= i < names.len() && names[i] == name,
        first_index_of(names, name) is None ==> !names.contains(name),
    decreases names.len(),
{
    if names.len() > 0 {
        lemma_first_index_of(names.drop_first(), name);
        if first_index_of(names, name) is None {
            assert forall|j: int| 0 <= j < names.len() implies names[j] != name by {
                if j > 0 {
                    assert(names[j] == names.drop_first()[j - 1]);
                }
            }
        }
    }
}

/// The names this server knows about, in opcode assignment order.
pub fn known_extensions() -> (v: Vec<&'static str>)
    ensures
        v@.map_values(|s: &'static str| s@) == known_extension_names(),
{
    let v = vec![
        "BIG-REQUESTS",
        "RANDR",
        "SHAPE",
        "MIT-SHM",
        "XINERAMA",
        "RENDER",
        "XKEYBOARD",
        "XInputExtension",
        "Generic Event Extension",
    ];
    assert(v@.map_values(|s: &'static str| s@) =~= known_extension_names());
    v
}

/// The names of the extensions that have a handler behind them.
pub fn implemented_extensions() -> (v: Vec<&'static str>)
    ensures
        v@.map_values(|s: &'static str| s@) == implemented_extension_names(),
{
    let v = vec![
        "BIG-REQUESTS",
        "RANDR",
        "RENDER",
        "SHAPE",
        "XKEYBOARD",
        "XInputExtension",
        "Generic Event Extension",
    ];
    assert(v@.map_values(|s: &'static str| s@) =~= implemented_extension_names());
    v
}

/// The known extensions, in order, each with the major opcode it is assigned:
/// `FIRST_EXTENSION_OPCODE` plus its position.
pub open spec fn assigned_opcode_table() -> Seq<(Seq<char>, u8)> {
    Seq::new(
        known_extension_names().len(),
        |i: int| (known_extension_names()[i], (FIRST_EXTENSION_OPCODE + i) as u8),
    )
}

/// The session's extension major opcode table.
#[derive(Debug)]
pub struct ExtensionRegistry {
    major_opcodes: Vec<(&'static str, u8)>,
}

impl ExtensionRegistry {
    #[verifier::type_invariant]
    spec fn inv(&self) -> bool {
        &&& self.major_opcodes@.len() == known_extension_names().len()
        &&& forall|i: int|
            0 <= i < self.major_opcodes@.len() ==> {
                &&& (#[trigger] self.major_opcodes@[i]).0@ == known_extension_names()[i]
                &&& self.major_opcodes@[i].1 == FIRST_EXTENSION_OPCODE + i
            }
    }

    /// The opcode table: each known extension with its major opcode, in order.
    pub closed spec fn table(&self) -> Seq<(Seq<char>, u8)> {
        self.major_opcodes@.map_values(|e: (&'static str, u8)| (e.0@, e.1))
    }

    /// A table that gives the known extensions, in order, the major opcodes from
    /// `FIRST_EXTENSION_OPCODE` on.
    pub fn new() -> (r: Self)
        ensures
            r.table() == assigned_opcode_table(),
    {
        let names = known_extensions();
        let mut major_opcodes: Vec<(&'static str, u8)> = Vec::new();
        let mut next_opcode: u8 = FIRST_EXTENSION_OPCODE;
        let mut i: usize = 0;
        assert(names@.len() == known_extension_names().len());
        while i < names.len()
            invariant
                names@.map_values(|s: &'static str| s@) == known_extension_names(),
                names@.len() == known_extension_names().len(),
                i <= names@.len(),
                major_opcodes@.len() == i,
                next_opcode == FIRST_EXTENSION_OPCODE + i,
                forall|j: int|
                    0 <= j < i ==> {
                        &&& (#[trigger] major_opcodes@[j]).0@ == known_extension_names()[j]
                        &&& major_opcodes@[j].1 == FIRST_EXTENSION_OPCODE + j
                    },
            decreases names@.len() - i,
        {
            assert(names@.map_values(|s: &'static str| s@)[i as int] == names@[i as int]@);
            major_opcodes.push((names[i], next_opcode));
            i = i + 1;
            next_opcode = next_opcode + 1;
        }
        let r = Self { major_opcodes };
        assert(r.table() =~= assigned_opcode_table());
        r
    }

    /// The major opcode assigned to `name` this session, if it's a known
    /// extension.
    pub fn major_opcode(&self, name: &str) -> (r: Option<u8>)
        ensures
            r == spec_major_opcode(name@),
    {
        proof {
            use_type_invariant(self);
        }
        let mut i: usize = 0;
        assert(known_extension_names().skip(0) =~= known_extension_names());
        while i < self.major_opcodes.len()
            invariant
                i <= self.major_opcodes@.len(),
                self.major_opcodes@.len() == known_extension_names().len(),
                forall|j: int|
                    0 <= j < self.major_opcodes@.len() ==> {
                        &&& (#[trigger] self.major_opcodes@[j]).0@ == known_extension_names()[j]
                        &&& self.major_opcodes@[j].1 == FIRST_EXTENSION_OPCODE + j
                    },
                first_index_of(known_extension_names(), name@) == (match first_index_of(
                    known_extension_names().skip(i as int),
                    name@,
                ) {
                    Some(k) => Some(k + i),
                    None => None::<int>,
                }),
            decreases self.major_opcodes@.len() - i,
        {
            let (n, op) = self.major_opcodes[i];
            proof {
                assert(known_extension_names().skip(i as int).drop_first()
                    =~= known_extension_names().skip(i + 1));
            }
            if str_eq(n, name) {
                return Some(op);
            }
            i = i + 1;
        }
        None
    }

    /// Look up which known extension (if any) owns a given major opcode,
    /// for routing an incoming request byte to the right parser.
    pub fn extension_for_opcode(&self, major_opcode: u8) -> (r: Option<&'static str>)
        ensures
            r is Some <==> spec_extension_for_opcode(major_opcode) is Some,
            r matches Some(s) ==> spec_extension_for_opcode(major_opcode) == Some(s@),
    {
        proof {
            use_type_invariant(self);
        }
        let mut i: usize = 0;
        while i < self.major_opcodes.len()
            invariant
                i <= self.major_opcodes@.len(),
                self.major_opcodes@.len() == known_extension_names().len(),
                forall|j: int|
                    0 <= j < self.major_opcodes@.len() ==> {
                        &&& (#[trigger] self.major_opcodes@[j]).0@ == known_extension_names()[j]
                        &&& self.major_opcodes@[j].1 == FIRST_EXTENSION_OPCODE + j
                    },
                forall|j: int| 0 <= j < i ==> self.major_opcodes@[j].1 != major_opcode,
            decreases self.major_opcodes@.len() - i,
        {
            let (n, op) = self.major_opcodes[i];
            if op == major_opcode {
                return Some(n);
            }
            i = i + 1;
        }
        proof {
            if FIRST_EXTENSION_OPCODE <= major_opcode < FIRST_EXTENSION_OPCODE
                + known_extension_names().len() {
                assert(self.major_opcodes@[major_opcode - FIRST_EXTENSION_OPCODE].1
                    == major_opcode);
            }
        }
        None
    }

    /// Whether `name` has a real request handler backing it, as opposed to
    /// just having a major opcode reserved.
    pub fn is_implemented(&self, name: &str) -> (r: bool)
        ensures
            r == implemented_extension_names().contains(name@),
    {
        let names = implemented_extensions();
        let mut i: usize = 0;
        while i < names.len()
            invariant
                names@.map_values(|s: &'static str| s@) == implemented_extension_names(),
                i <= names@.len(),
                forall|j: int| 0 <= j < i ==> names@[j]@ != name@,
            decreases names@.len() - i,
        {
            assert(names@.map_values(|s: &'static str| s@)[i as int] == names@[i as int]@);
            if str_eq(names[i], name) {
                return true;
            }
            i = i + 1;
        }
        proof {
            assert forall|j: int| 0 <= j < implemented_extension_names().len() implies
                implemented_extension_names()[j] != name@ by {
                assert(names@.map_values(|s: &'static str| s@)[j] == names@[j]@);
            }
        }
        false
    }
}

/// Every known extension is assigned a major opcode outside the core range, and that
/// opcode leads back to the same extension.
pub proof fn lemma_extension_opcode_round_trip(name: Seq<char>)
    ensures
        spec_major_opcode(name) is Some <==> known_extension_names().contains(name),
        spec_major_opcode(name) matches Some(op) ==> op >= FIRST_EXTENSION_OPCODE
            && spec_extension_for_opcode(op) == Some(name),
{
    lemma_first_index_of(known_extension_names(), name);
    if let Some(i) = first_index_of(known_extension_names(), name) {
        assert(known_extension_names().contains(name));
    }
}

/// Distinct extensions are assigned distinct major opcodes.
pub proof fn lemma_extension_opcodes_unique(a: Seq<char>, b: Seq<char>)
    requires
        spec_major_opcode(a) is Some,
        spec_major_opcode(a) == spec_major_opcode(b),
    ensures
        a == b,
{
    lemma_extension_opcode_round_trip(a);
    lemma_extension_opcode_round_trip(b);
}

/// BIG-REQUESTS, RANDR and RENDER, the extensions with handlers in the
/// standard registry, are assigned opcodes 128, 129 and 133.
pub proof fn lemma_standard_extension_opcodes()
    ensures
        spec_major_opcode("BIG-REQUESTS"@) == Some(128u8),
        spec_major_opcode("RANDR"@) == Some(129u8),
        spec_major_opcode("RENDER"@) == Some(133u8),
{
    reveal_strlit("BIG-REQUESTS");
    reveal_strlit("RANDR");
    reveal_strlit("SHAPE");
    reveal_strlit("MIT-SHM");
    reveal_strlit("XINERAMA");
    reveal_strlit("RENDER");
    let names = known_extension_names();
    assert(names[0] == "BIG-REQUESTS"@);
    assert(first_index_of(names, "BIG-REQUESTS"@) == Some(0int));
    assert(names[0].len() != "RANDR"@.len());
    assert(names[0] != "RANDR"@);
    assert(names.drop_first()[0] == "RANDR"@);
    assert(first_index_of(names.drop_first(), "RANDR"@) == Some(0int));
    assert(first_index_of(names, "RANDR"@) == Some(1int));
    let r = "RENDER"@;
    assert(names.drop_first().drop_first().drop_first().drop_first().drop_first()[0] == r);
    assert(names[0].len() != r.len() && names[1].len() != r.len() && names[2].len() != r.len()
        && names[3].len() != r.len() && names[4].len() != r.len());
    assert(names[0] != r && names[1] != r && names[2] != r && names[3] != r && names[4] != r);
    assert(first_index_of(names.drop_first().drop_first().drop_first().drop_first().drop_first(), r) == Some(0int));
    assert(first_index_of(names.drop_first().drop_first().drop_first().drop_first(), r) == Some(1int));
    assert(first_index_of(names.drop_first().drop_first().drop_first(), r) == Some(2int));
    assert(first_index_of(names.drop_first().drop_first(), r) == Some(3int));
    assert(first_index_of(names.drop_first(), r) == Some(4int));
    assert(first_index_of(names, r) == Some(5int));
}

} // verus!
