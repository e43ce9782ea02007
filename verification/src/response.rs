//! Responses the service emits: a status code and a plain byte body.

use vstd::prelude::*;

verus! {

/// Status of a response that succeeded.
pub const STATUS_OK: u16 = 200;

/// Status of a response to an unmatched request or an absent object.
pub const STATUS_NOT_FOUND: u16 = 404;

/// Status of a response to a request that failed on storage or transport.
pub const STATUS_SERVER_ERROR: u16 = 500;

/// A response: an HTTP status code and the body to send with it.
pub struct Response {
    pub status: u16,
    pub body: Vec<u8>,
}

/// The mathematical counterpart of `Response`.
pub struct ResponseModel {
    pub status: int,
    pub body: Seq<u8>,
}

impl View for Response {
    type V = ResponseModel;

    open spec fn view(&self) -> ResponseModel {
        ResponseModel { status: self.status as int, body: self.body@ }
    }
}

/// The fixed body of the index page: the text `Index to images service.`.
pub open spec fn index_body() -> Seq<u8> {
    seq![
        73u8,
        110,
        100,
        101,
        120,
        32,
        116,
        111,
        32,
        105,
        109,
        97,
        103,
        101,
        115,
        32,
        115,
        101,
        114,
        118,
        105,
        99,
        101,
        46,
    ]
}

/// A response with the given status and an empty body.
pub fn response_with_code(status_code: u16) -> (r: Response)
    ensures
        r.status == status_code,
        r.body@ == Seq::<u8>::empty(),
{
    let body: Vec<u8> = Vec::new();
    proof {
        assert(body@ =~= Seq::<u8>::empty());
    }
    Response { status: status_code, body }
}

/// The index response: status 200 with the fixed index text.
pub fn index_response() -> (r: Response)
    ensures
        r.status == STATUS_OK,
        r.body@ == index_body(),
{
    let body: Vec<u8> = vec![
        73u8,
        110,
        100,
        101,
        120,
        32,
        116,
        111,
        32,
        105,
        109,
        97,
        103,
        101,
        115,
        32,
        115,
        101,
        114,
        118,
        105,
        99,
        101,
        46,
    ];
    proof {
        assert(body@ =~= index_body());
    }
    Response { status: STATUS_OK, body }
}

} // verus!
