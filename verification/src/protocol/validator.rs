//! Field checks on parsed core requests.

use vstd::prelude::*;
use super::request::{Request, RequestKind};
use super::types::{Result, X11Error};

verus! {

/// A check that a parsed request's fields make sense.
pub trait RequestValidator {
    /// The requests that `validate` accepts.
    spec fn accepts(request: &Request) -> bool;

    fn validate(request: &Request) -> (r: Result<()>)
        ensures
            r is Ok <==> Self::accepts(request),
    ;
}

/// The message of the error that `X11RequestValidator` gives for a refused request.
pub open spec fn validation_message(request: &Request) -> Option<Seq<char>> {
    match request.kind {
        RequestKind::CreateWindow(req) => if req.width == 0 || req.height == 0 {
            Some("CreateWindow: width and height must be non-zero"@)
        } else if req.depth == 0 {
            Some("CreateWindow: depth must be non-zero"@)
        } else {
            None
        },
        RequestKind::DestroyWindow(req) => if req.window == 0 {
            Some("DestroyWindow: window id must be non-zero"@)
        } else {
            None
        },
        RequestKind::MapWindow(req) => if req.window == 0 {
            Some("MapWindow: window id must be non-zero"@)
        } else {
            None
        },
        RequestKind::UnmapWindow(req) => if req.window == 0 {
            Some("UnmapWindow: window id must be non-zero"@)
        } else {
            None
        },
        RequestKind::InternAtom(req) => if req.atom_name@.len() == 0 {
            Some("InternAtom: atom_name must not be empty"@)
        } else {
            None
        },
        _ => None,
    }
}

/// The core protocol's field checks: windows need non-zero size and depth, window ids
/// must be non-zero, and an atom needs a name. Other requests pass.
pub struct X11RequestValidator;

impl X11RequestValidator {
    /// The error `validate` gives, with the message that names the field at fault.
    pub fn check(request: &Request) -> (r: Result<()>)
        ensures
            validation_message(request) is None ==> r is Ok,
            validation_message(request) matches Some(m) ==> (r matches Err(
                X11Error::DetailedValue(s),
            ) && s@ == m),
    {
        match &request.kind {
            RequestKind::CreateWindow(req) => {
                if req.width == 0 || req.height == 0 {
                    return Err(
                        X11Error::DetailedValue(
                            "CreateWindow: width and height must be non-zero".to_owned(),
                        ),
                    );
                }
                if req.depth == 0 {
                    return Err(
                        X11Error::DetailedValue("CreateWindow: depth must be non-zero".to_owned()),
                    );
                }
            },
            RequestKind::DestroyWindow(req) => {
                if req.window == 0 {
                    return Err(
                        X11Error::DetailedValue(
                            "DestroyWindow: window id must be non-zero".to_owned(),
                        ),
                    );
                }
            },
            RequestKind::MapWindow(req) => {
                if req.window == 0 {
                    return Err(
                        X11Error::DetailedValue("MapWindow: window id must be non-zero".to_owned()),
                    );
                }
            },
            RequestKind::UnmapWindow(req) => {
                if req.window == 0 {
                    return Err(
                        X11Error::DetailedValue(
                            "UnmapWindow: window id must be non-zero".to_owned(),
                        ),
                    );
                }
            },
            RequestKind::InternAtom(req) => {
                if req.atom_name.as_str().is_empty() {
                    return Err(
                        X11Error::DetailedValue("InternAtom: atom_name must not be empty".to_owned()),
                    );
                }
            },
            _ => {},
        }
        Ok(())
    }
}

impl RequestValidator for X11RequestValidator {
    open spec fn accepts(request: &Request) -> bool {
        validation_message(request) is None
    }

    fn validate(request: &Request) -> (r: Result<()>) {
        Self::check(request)
    }
}

} // verus!
