//! The service itself: one function per request, composing the router and
//! the stream transfer engine against the store. The whole observable
//! behaviour of a request is pinned by `spec_handle`.

use vstd::prelude::*;
use crate::name::generate_name;
use crate::response::{
    index_body,
    index_response,
    response_with_code,
    Response,
    ResponseModel,
    STATUS_NOT_FOUND,
    STATUS_OK,
};
use crate::router::{classify, spec_classify, Intent, IntentSpec, Method};
use crate::store::Store;
use crate::transfer::{DownloadSession, UploadSession, CHUNK_LEN};
use crate::valid_name;

verus! {

/// The bytes of a chunked body, in arrival order: all chunks joined.
pub open spec fn concat_chunks(chunks: Seq<Seq<u8>>) -> Seq<u8>
    decreases chunks.len(),
{
    if chunks.len() == 0 {
        Seq::empty()
    } else {
        concat_chunks(chunks.drop_last()) + chunks.last()
    }
}

/// The chunks of a body, each as its byte sequence.
pub open spec fn chunks_view(chunks: Seq<Vec<u8>>) -> Seq<Seq<u8>> {
    chunks.map_values(|chunk: Vec<u8>| chunk@)
}

/// Joining one more chunk extends the joined prefix by exactly that chunk.
pub proof fn lemma_concat_chunks_take_step(chunks: Seq<Seq<u8>>, i: int)
    requires
        0 <= i < chunks.len(),
    ensures
        concat_chunks(chunks.take(i + 1)) == concat_chunks(chunks.take(i)) + chunks[i],
{
    assert(chunks.take(i + 1).drop_last() =~= chunks.take(i));
    assert(chunks.take(i + 1).last() == chunks[i]);
}

/// What one request does: how the store changes and what response comes
/// back, as a function of the store's contents, the request's method, path
/// and body, and the name a fresh upload would be filed under.
pub open spec fn spec_handle(
    contents: Map<Seq<u8>, Seq<u8>>,
    m: Method,
    path: Seq<u8>,
    body: Seq<u8>,
    fresh_name: Seq<u8>,
) -> (Map<Seq<u8>, Seq<u8>>, ResponseModel) {
    match spec_classify(m, path) {
        IntentSpec::Index => (
            contents,
            ResponseModel { status: STATUS_OK as int, body: index_body() },
        ),
        IntentSpec::Upload => (
            contents.insert(fresh_name, body),
            ResponseModel { status: STATUS_OK as int, body: fresh_name },
        ),
        IntentSpec::Download(name) => if contents.contains_key(name) {
            (contents, ResponseModel { status: STATUS_OK as int, body: contents[name] })
        } else {
            (contents, ResponseModel { status: STATUS_NOT_FOUND as int, body: Seq::empty() })
        },
        IntentSpec::NotFound => (
            contents,
            ResponseModel { status: STATUS_NOT_FOUND as int, body: Seq::empty() },
        ),
    }
}

/// Handles one request against the store, with the fresh name injected by
/// the caller: the index and unmatched requests answer immediately, an
/// upload streams the body chunks in arrival order into a new object named
/// `fresh_name`, and a download streams the named object back, or answers
/// 404 when it is absent. The store changes exactly as `spec_handle` says,
/// and only on an upload.
pub fn handle_request(
    store: &mut Store,
    method: Method,
    path: &[u8],
    body_chunks: &Vec<Vec<u8>>,
    fresh_name: Vec<u8>,
) -> (resp: Response)
    requires
        old(store).wf(),
        valid_name(fresh_name@),
    ensures
        final(store).wf(),
        ({
            let (c, r) = spec_handle(
                old(store).contents(),
                method,
                path@,
                concat_chunks(chunks_view(body_chunks@)),
                fresh_name@,
            );
            final(store).contents() == c && resp@ == r
        }),
{
    let intent = classify(method, path);
    match intent {
        Intent::Index => index_response(),
        Intent::NotFound => response_with_code(STATUS_NOT_FOUND),
        Intent::Download(name) => {
            match DownloadSession::open(store, name.as_slice()) {
                Some(mut session) => {
                    let body = session.drain();
                    proof {
                        assert(Seq::<u8>::empty() + body@ =~= body@);
                    }
                    Response { status: STATUS_OK, body }
                },
                None => response_with_code(STATUS_NOT_FOUND),
            }
        },
        Intent::Upload => {
            let ghost chunk_views = chunks_view(body_chunks@);
            let mut session = UploadSession::begin(fresh_name);
            let mut i: usize = 0;
            proof {
                assert(concat_chunks(chunk_views.take(0)) =~= Seq::<u8>::empty());
            }
            while i < body_chunks.len()
                invariant
                    i <= body_chunks@.len(),
                    chunk_views == chunks_view(body_chunks@),
                    session.wf(),
                    session.name() == fresh_name@,
                    session.written() == concat_chunks(chunk_views.take(i as int)),
                decreases body_chunks@.len() - i,
            {
                session.push_chunk(body_chunks[i].as_slice());
                proof {
                    lemma_concat_chunks_take_step(chunk_views, i as int);
                }
                i = i + 1;
            }
            proof {
                assert(chunk_views.take(i as int) =~= chunk_views);
            }
            session.finish(store)
        },
    }
}

/// Handles one request, drawing the fresh name itself from the process-wide
/// pseudorandom source: on an upload some well-formed name comes out, the
/// body lands under it, and the response carries it; every other request
/// behaves exactly as `handle_request` with any name would.
pub fn imageservice_handler(
    store: &mut Store,
    method: Method,
    path: &[u8],
    body_chunks: &Vec<Vec<u8>>,
) -> (resp: Response)
    requires
        old(store).wf(),
    ensures
        final(store).wf(),
        exists|fresh_name: Seq<u8>|
            valid_name(fresh_name) && ({
                let (c, r) = spec_handle(
                    old(store).contents(),
                    method,
                    path@,
                    concat_chunks(chunks_view(body_chunks@)),
                    fresh_name,
                );
                final(store).contents() == c && resp@ == r
            }),
{
    let fresh_name = generate_name();
    let ghost witness = fresh_name@;
    let resp = handle_request(store, method, path, body_chunks, fresh_name);
    proof {
        assert(valid_name(witness) && ({
            let (c, r) = spec_handle(
                old(store).contents(),
                method,
                path@,
                concat_chunks(chunks_view(body_chunks@)),
                witness,
            );
            store.contents() == c && resp@ == r
        }));
    }
    resp
}

} // verus!
