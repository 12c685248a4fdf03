//! Basic Extension Protocol Handler
//!
//! Handles QueryExtension and ListExtensions, and BIG-REQUESTS' enable request.

use vstd::prelude::*;
use crate::protocol::buffers::{
    buffer_limit, bytes_advance, bytes_contents, bytes_copy_from_slice, bytes_mut_contents,
    bytes_mut_new, bytes_mut_to_vec, bytes_remaining, extend_from_slice, put_u16_le, put_u32_le,
    put_u8,
};
use crate::protocol::endianness::{le16, le32, pad_to, zeros};
use crate::protocol::error::{ProtocolError, ServerError, ServerResult};
use crate::protocol::opcodes::server::{LIST_EXTENSIONS, QUERY_EXTENSION};
use crate::protocol::serialization::errors::put_zeros;
use crate::protocol::serialization::wire::{x11_string_read, X11BufExt};
use crate::protocol::types::Opcode;
use crate::protocol::utf8::str_eq;
use crate::protocol::wire::{WireRequest, WireResponse};
use vstd::utf8::encode_utf8;
use vstd::string::StringSliceAdditionalSpecFns;

verus! {

impl Clone for ExtensionHandler {
    fn clone(&self) -> (r: Self)
        ensures
            r.extensions() == self.extensions(),
    {
        proof {
            use_type_invariant(self);
            assert(self.extensions() =~= handler_extensions());
        }
        Self::new()
    }
}

/// Information about a supported extension
#[derive(Clone)]
struct ExtensionInfo {
    name: String,
    major_opcode: u8,
    first_event: u8,
    first_error: u8,
}

/// Basic extension handler for common extension requests
pub struct ExtensionHandler {
    supported_extensions: Vec<ExtensionInfo>,
}

/// The major opcode this handler gives BIG-REQUESTS.
pub const BIG_REQUESTS_MAJOR: u8 = 132;

/// The major opcode this handler gives XC-MISC.
pub const XC_MISC_MAJOR: u8 = 133;

/// The extensions this handler supports: name, major opcode, first event, first error.
pub open spec fn handler_extensions() -> Seq<(Seq<char>, u8, u8, u8)> {
    seq![("BIG-REQUESTS"@, 132u8, 0u8, 0u8), ("XC-MISC"@, 133u8, 0u8, 0u8)]
}

/// The bytes of a supported extension's name.
pub open spec fn handler_extension_name_bytes() -> Seq<Seq<u8>> {
    seq![
        seq![66u8, 73, 71, 45, 82, 69, 81, 85, 69, 83, 84, 83],
        seq![88u8, 67, 45, 77, 73, 83, 67],
    ]
}

/// The 32-byte QueryExtension reply.
pub open spec fn query_extension_reply_bytes(
    present: bool,
    major_opcode: u8,
    first_event: u8,
    first_error: u8,
) -> Seq<u8> {
    seq![1u8, if present { 1u8 } else { 0u8 }] + le16(0) + le32(0) + seq![
        major_opcode,
        first_event,
        first_error,
    ] + zeros(21)
}

/// The 32-byte BigReqEnable reply, offering the largest request length.
pub open spec fn big_req_enable_reply_bytes() -> Seq<u8> {
    seq![1u8, 0u8] + le16(0) + le32(0) + le32(0x3FFFFFFF) + zeros(20)
}

/// The names of a ListExtensions reply, each after a byte with its length.
pub open spec fn counted_names(names: Seq<Seq<u8>>) -> Seq<u8>
    decreases names.len(),
{
    if names.len() == 0 {
        Seq::empty()
    } else {
        counted_names(names.drop_last()) + seq![names.last().len() as u8] + names.last()
    }
}

/// The ListExtensions reply: count, the names' length in 4-byte words, the counted
/// names and zeros to a 4-byte boundary.
pub open spec fn list_extensions_reply_bytes(names: Seq<Seq<u8>>) -> Seq<u8> {
    let block = counted_names(names);
    seq![1u8, names.len() as u8] + le16(0) + le32(((block.len() + 3) / 4) as u32) + block
        + zeros(pad_to(8 + block.len(), 4))
}

/// The name a QueryExtension request asks for: the X11 string that starts two
/// bytes in, when the request has its 4-byte header and the string reads.
pub open spec fn queried_extension_name(data: Seq<u8>) -> Option<Seq<char>> {
    if data.len() < 4 {
        None
    } else {
        match x11_string_read(data.subrange(2, data.len() as int)) {
            Some((s, _)) => Some(s),
            None => None,
        }
    }
}

/// The reply a QueryExtension for `name` gets.
pub open spec fn query_reply_for(name: Option<Seq<char>>) -> Seq<u8> {
    match name {
        Some(n) => if n == "BIG-REQUESTS"@ {
            query_extension_reply_bytes(true, 132, 0, 0)
        } else if n == "XC-MISC"@ {
            query_extension_reply_bytes(true, 133, 0, 0)
        } else {
            query_extension_reply_bytes(false, 0, 0, 0)
        },
        None => query_extension_reply_bytes(false, 0, 0, 0),
    }
}

proof fn lemma_extension_name_bytes()
    ensures
        encode_utf8(handler_extensions()[0].0) == handler_extension_name_bytes()[0],
        encode_utf8(handler_extensions()[1].0) == handler_extension_name_bytes()[1],
{
    reveal_strlit("BIG-REQUESTS");
    reveal_strlit("XC-MISC");
    let a = handler_extensions()[0].0;
    let b = handler_extensions()[1].0;
    assert(vstd::utf8::is_ascii_chars(a));
    assert(vstd::utf8::is_ascii_chars(b));
    vstd::utf8::is_ascii_chars_encode_utf8(a);
    vstd::utf8::is_ascii_chars_encode_utf8(b);
    assert(encode_utf8(a) =~= handler_extension_name_bytes()[0]);
    assert(encode_utf8(b) =~= handler_extension_name_bytes()[1]);
}

proof fn lemma_counted_lengths()
    ensures
        counted_names(handler_extension_name_bytes().take(0)).len() == 0,
        counted_names(handler_extension_name_bytes().take(1)).len() == 13,
        counted_names(handler_extension_name_bytes().take(2)).len() == 21,
{
    let names = handler_extension_name_bytes();
    assert(names.take(0) =~= Seq::<Seq<u8>>::empty());
    lemma_counted_names_step(names, 0);
    lemma_counted_names_step(names, 1);
}

proof fn lemma_counted_names_step(names: Seq<Seq<u8>>, i: int)
    requires
        0 <= i < names.len(),
    ensures
        counted_names(names.take(i + 1)) == counted_names(names.take(i)) + seq![
            names[i].len() as u8,
        ] + names[i],
{
    assert(names.take(i + 1).drop_last() =~= names.take(i));
}

impl ExtensionHandler {
    #[verifier::type_invariant]
    spec fn inv(&self) -> bool {
        &&& self.supported_extensions@.len() == 2
        &&& forall|i: int|
            0 <= i < 2 ==> {
                let e = #[trigger] self.supported_extensions@[i];
                &&& e.name@ == handler_extensions()[i].0
                &&& encode_utf8(e.name@) == handler_extension_name_bytes()[i]
                &&& e.major_opcode == handler_extensions()[i].1
                &&& e.first_event == handler_extensions()[i].2
                &&& e.first_error == handler_extensions()[i].3
            }
    }

    /// The extensions this handler answers for.
    pub closed spec fn extensions(&self) -> Seq<(Seq<char>, u8, u8, u8)> {
        self.supported_extensions@.map_values(
            |e: ExtensionInfo| (e.name@, e.major_opcode, e.first_event, e.first_error),
        )
    }

    pub fn new() -> (r: Self)
        ensures
            r.extensions() == handler_extensions(),
    {
        let big = ExtensionInfo {
            name: "BIG-REQUESTS".to_owned(),
            major_opcode: 132,
            first_event: 0,
            first_error: 0,
        };
        let misc = ExtensionInfo {
            name: "XC-MISC".to_owned(),
            major_opcode: 133,
            first_event: 0,
            first_error: 0,
        };
        proof {
            reveal_strlit("BIG-REQUESTS");
            reveal_strlit("XC-MISC");
            lemma_extension_name_bytes();
        }
        let r = Self { supported_extensions: vec![big, misc] };
        assert(r.extensions() =~= handler_extensions());
        r
    }

    /// Build a QueryExtension response using proper X11 wire format
    fn build_query_extension_response(
        &self,
        present: bool,
        major_opcode: u8,
        first_event: u8,
        first_error: u8,
    ) -> (r: WireResponse)
        ensures
            r.response_type == 1,
            r.data@ == query_extension_reply_bytes(present, major_opcode, first_event, first_error),
    {
        let mut buf = bytes_mut_new();
        put_u8(&mut buf, 1);
        put_u8(&mut buf, if present { 1 } else { 0 });
        put_u16_le(&mut buf, 0);
        put_u32_le(&mut buf, 0);
        put_u8(&mut buf, major_opcode);
        put_u8(&mut buf, first_event);
        put_u8(&mut buf, first_error);
        put_zeros(&mut buf, 21);
        let data = bytes_mut_to_vec(&buf);
        assert(data@ =~= query_extension_reply_bytes(
            present,
            major_opcode,
            first_event,
            first_error,
        ));
        WireResponse { response_type: 1, data }
    }

    /// Handle BigReqEnable request specifically
    fn handle_big_req_enable(&self) -> (r: WireResponse)
        ensures
            r.response_type == 1,
            r.data@ == big_req_enable_reply_bytes(),
    {
        let mut buf = bytes_mut_new();
        put_u8(&mut buf, 1);
        put_u8(&mut buf, 0);
        put_u16_le(&mut buf, 0);
        put_u32_le(&mut buf, 0);
        put_u32_le(&mut buf, 0x3FFFFFFF);
        put_zeros(&mut buf, 20);
        let data = bytes_mut_to_vec(&buf);
        assert(data@ =~= big_req_enable_reply_bytes());
        WireResponse { response_type: 1, data }
    }

    /// Parse QueryExtension request data: the name is the X11 string after the
    /// request's first two bytes.
    fn parse_query_extension_request(&self, data: &[u8]) -> (r: Option<String>)
        requires
            data@.len() <= buffer_limit(),
        ensures
            r is Some <==> queried_extension_name(data@) is Some,
            r matches Some(s) ==> queried_extension_name(data@) == Some(s@),
    {
        if data.len() < 4 {
            return None;
        }
        let mut buf = bytes_copy_from_slice(data);
        if bytes_remaining(&buf) < 4 {
            return None;
        }
        bytes_advance(&mut buf, 2);
        assert(bytes_contents(buf) =~= data@.subrange(2, data@.len() as int));
        match buf.get_x11_string() {
            Ok(name) => Some(name),
            Err(_) => None,
        }
    }

    /// Build ListExtensions response
    fn build_list_extensions_response(&self) -> (r: WireResponse)
        ensures
            r.response_type == 1,
            r.data@ == list_extensions_reply_bytes(handler_extension_name_bytes()),
    {
        proof {
            use_type_invariant(self);
            lemma_counted_lengths();
        }
        let ghost names = handler_extension_name_bytes();
        let num_extensions = self.supported_extensions.len() as u8;
        let mut data_length: usize = 0;
        let mut i: usize = 0;
        while i < self.supported_extensions.len()
            invariant
                names == handler_extension_name_bytes(),
                self.supported_extensions@.len() == 2,
                forall|j: int|
                    0 <= j < 2 ==> encode_utf8((#[trigger] self.supported_extensions@[j]).name@)
                        == names[j],
                counted_names(names.take(0)).len() == 0,
                counted_names(names.take(1)).len() == 13,
                counted_names(names.take(2)).len() == 21,
                i <= 2,
                data_length == counted_names(names.take(i as int)).len(),
            decreases 2 - i,
        {
            proof {
                lemma_counted_names_step(names, i as int);
            }
            let ghost e = self.supported_extensions@[i as int];
            assert(encode_utf8(e.name@) == names[i as int]);
            data_length = data_length + 1 + self.supported_extensions[i].name.as_str().len();
            i = i + 1;
        }
        let reply_length = (data_length + 3) / 4;
        let mut buf = bytes_mut_new();
        put_u8(&mut buf, 1);
        put_u8(&mut buf, num_extensions);
        put_u16_le(&mut buf, 0);
        put_u32_le(&mut buf, reply_length as u32);
        let ghost header = bytes_mut_contents(buf);
        let mut k: usize = 0;
        while k < self.supported_extensions.len()
            invariant
                names == handler_extension_name_bytes(),
                self.supported_extensions@.len() == 2,
                forall|j: int|
                    0 <= j < 2 ==> encode_utf8((#[trigger] self.supported_extensions@[j]).name@)
                        == names[j],
                counted_names(names.take(0)).len() == 0,
                counted_names(names.take(1)).len() == 13,
                counted_names(names.take(2)).len() == 21,
                k <= 2,
                header.len() == 8,
                bytes_mut_contents(buf) == header + counted_names(names.take(k as int)),
            decreases 2 - k,
        {
            let name = self.supported_extensions[k].name.as_str();
            proof {
                lemma_counted_names_step(names, k as int);
            }
            let ghost e = self.supported_extensions@[k as int];
            assert(name.spec_bytes() == names[k as int]);
            put_u8(&mut buf, name.len() as u8);
            extend_from_slice(&mut buf, name.as_bytes());
            k = k + 1;
        }
        let total = 8 + data_length;
        put_zeros(&mut buf, (4 - total % 4) % 4);
        let data = bytes_mut_to_vec(&buf);
        assert(names.take(2) =~= names);
        assert(data@ =~= list_extensions_reply_bytes(names));
        WireResponse { response_type: 1, data }
    }

    /// Handle extension-specific requests: BIG-REQUESTS' enable request is answered;
    /// XC-MISC's requests and every other extension request are unimplemented.
    fn handle_extension_request(&self, client_id: u32, major: u8, minor: u8) -> (r: ServerResult<
        WireResponse,
    >)
        ensures
            (major == BIG_REQUESTS_MAJOR && minor == 0) ==> (r matches Ok(resp)
                && resp.response_type == 1 && resp.data@ == big_req_enable_reply_bytes()),
            !(major == BIG_REQUESTS_MAJOR && minor == 0) ==> r == Err::<WireResponse, ServerError>(
                ServerError::ProtocolError(
                    ProtocolError::UnimplementedOpcode(Opcode::Extension(major, minor)),
                ),
            ),
    {
        if major == BIG_REQUESTS_MAJOR && minor == 0 {
            Ok(self.handle_big_req_enable())
        } else {
            Err(
                ServerError::ProtocolError(
                    ProtocolError::UnimplementedOpcode(Opcode::Extension(major, minor)),
                ),
            )
        }
    }

    /// Answer QueryExtension (present with its opcodes for a supported extension, else
    /// absent), ListExtensions and BIG-REQUESTS' enable request; any other request is
    /// unimplemented.
    pub fn handle_request(&self, client_id: u32, request: &WireRequest) -> (r: ServerResult<
        Option<WireResponse>,
    >)
        requires
            request.data@.len() <= buffer_limit(),
        ensures
            request.opcode == Opcode::Core(QUERY_EXTENSION) ==> (r matches Ok(Some(resp))
                && resp.response_type == 1 && resp.data@ == query_reply_for(
                queried_extension_name(request.data@),
            )),
            request.opcode == Opcode::Core(LIST_EXTENSIONS) ==> (r matches Ok(Some(resp))
                && resp.response_type == 1 && resp.data@ == list_extensions_reply_bytes(
                handler_extension_name_bytes(),
            )),
            request.opcode == Opcode::Extension(BIG_REQUESTS_MAJOR, 0) ==> (r matches Ok(
                Some(resp),
            ) && resp.response_type == 1 && resp.data@ == big_req_enable_reply_bytes()),
            (request.opcode != Opcode::Core(QUERY_EXTENSION) && request.opcode != Opcode::Core(
                LIST_EXTENSIONS,
            ) && request.opcode != Opcode::Extension(BIG_REQUESTS_MAJOR, 0)) ==> r == Err::<
                Option<WireResponse>,
                ServerError,
            >(ServerError::ProtocolError(ProtocolError::UnimplementedOpcode(request.opcode))),
    {
        proof {
            use_type_invariant(self);
        }
        if request.opcode == Opcode::Core(QUERY_EXTENSION) {
            match self.parse_query_extension_request(request.data.as_slice()) {
                Some(extension_name) => {
                    let mut i: usize = 0;
                    while i < self.supported_extensions.len()
                        invariant
                            self.supported_extensions@.len() == 2,
                            forall|j: int|
                                0 <= j < 2 ==> {
                                    let e = #[trigger] self.supported_extensions@[j];
                                    &&& e.name@ == handler_extensions()[j].0
                                    &&& e.major_opcode == handler_extensions()[j].1
                                    &&& e.first_event == handler_extensions()[j].2
                                    &&& e.first_error == handler_extensions()[j].3
                                },
                            i <= 2,
                            request.opcode == Opcode::Core(QUERY_EXTENSION),
                            queried_extension_name(request.data@) == Some(extension_name@),
                            forall|j: int| 0 <= j < i ==> handler_extensions()[j].0 != extension_name@,
                        decreases 2 - i,
                    {
                        let ext = &self.supported_extensions[i];
                        if str_eq(ext.name.as_str(), extension_name.as_str()) {
                            proof {
                                reveal_strlit("BIG-REQUESTS");
                                reveal_strlit("XC-MISC");
                            }
                            return Ok(
                                Some(
                                    self.build_query_extension_response(
                                        true,
                                        ext.major_opcode,
                                        ext.first_event,
                                        ext.first_error,
                                    ),
                                ),
                            );
                        }
                        i = i + 1;
                    }
                    proof {
                        assert(handler_extensions()[0].0 != extension_name@);
                        assert(handler_extensions()[1].0 != extension_name@);
                    }
                    Ok(Some(self.build_query_extension_response(false, 0, 0, 0)))
                },
                None => Ok(Some(self.build_query_extension_response(false, 0, 0, 0))),
            }
        } else if request.opcode == Opcode::Core(LIST_EXTENSIONS) {
            Ok(Some(self.build_list_extensions_response()))
        } else {
            match request.opcode {
                Opcode::Extension(major, minor) => {
                    if major == BIG_REQUESTS_MAJOR && minor == 0 {
                        Ok(Some(self.handle_big_req_enable()))
                    } else {
                        match self.handle_extension_request(client_id, major, minor) {
                            Ok(resp) => Ok(Some(resp)),
                            Err(e) => Err(e),
                        }
                    }
                },
                Opcode::Core(_) => Err(
                    ServerError::ProtocolError(ProtocolError::UnimplementedOpcode(request.opcode)),
                ),
            }
        }
    }

    /// The opcodes this handler registers for.
    pub fn supported_opcodes(&self) -> (v: Vec<Opcode>)
        ensures
            v@ == seq![
                Opcode::Core(QUERY_EXTENSION),
                Opcode::Core(LIST_EXTENSIONS),
                Opcode::Extension(BIG_REQUESTS_MAJOR, 0),
            ],
    {
        let v = vec![
            Opcode::Core(QUERY_EXTENSION),
            Opcode::Core(LIST_EXTENSIONS),
            Opcode::Extension(BIG_REQUESTS_MAJOR, 0),
        ];
        assert(v@ =~= seq![
            Opcode::Core(QUERY_EXTENSION),
            Opcode::Core(LIST_EXTENSIONS),
            Opcode::Extension(BIG_REQUESTS_MAJOR, 0),
        ]);
        v
    }
}

} // verus!
