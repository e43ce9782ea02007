//! The service's laws: what holds of every request, stated over the same
//! request model `spec_handle` that the handler's contract is written
//! against, and proved once for all stores, bodies and names.

use vstd::prelude::*;
use crate::response::{index_body, ResponseModel, STATUS_NOT_FOUND, STATUS_OK};
use crate::router::{
    download_prefix,
    is_download_path,
    root_path,
    spec_classify,
    IntentSpec,
    Method,
    DOWNLOAD_PREFIX_LEN,
};
use crate::service::spec_handle;
use crate::valid_name;

verus! {

/// A `GET /` request always answers 200 with the fixed index text and
/// leaves the store untouched, whatever the store holds and whatever body
/// or fresh name comes with the request.
pub proof fn lemma_index_request(
    contents: Map<Seq<u8>, Seq<u8>>,
    body: Seq<u8>,
    fresh_name: Seq<u8>,
)
    ensures
        spec_handle(contents, Method::Get, root_path(), body, fresh_name) == (
            contents,
            ResponseModel { status: STATUS_OK as int, body: index_body() },
        ),
{
}

/// A request whose method and path match no rule always answers 404 with an
/// empty body and leaves the store untouched.
pub proof fn lemma_unmatched_request(
    contents: Map<Seq<u8>, Seq<u8>>,
    m: Method,
    path: Seq<u8>,
    body: Seq<u8>,
    fresh_name: Seq<u8>,
)
    requires
        spec_classify(m, path) is NotFound,
    ensures
        spec_handle(contents, m, path, body, fresh_name) == (
            contents,
            ResponseModel { status: STATUS_NOT_FOUND as int, body: Seq::<u8>::empty() },
        ),
{
}

/// The download path built from a well-formed name classifies as a download
/// of exactly that name.
pub proof fn lemma_classify_download(name: Seq<u8>)
    requires
        valid_name(name),
    ensures
        spec_classify(Method::Get, download_prefix() + name) == IntentSpec::Download(name),
{
    let path = download_prefix() + name;
    assert(download_prefix().len() == DOWNLOAD_PREFIX_LEN);
    assert(root_path().len() == 1);
    assert(path.take(DOWNLOAD_PREFIX_LEN as int) =~= download_prefix());
    assert(path.skip(DOWNLOAD_PREFIX_LEN as int) =~= name);
    assert(is_download_path(path));
    assert(path != root_path());
}

/// A `GET` of a path that is neither the index nor a well-formed download
/// path — wrong length, a byte outside the alphabet, a missing or extra
/// segment — always answers 404 with an empty body and leaves the store
/// untouched.
pub proof fn lemma_malformed_download(
    contents: Map<Seq<u8>, Seq<u8>>,
    path: Seq<u8>,
    body: Seq<u8>,
    fresh_name: Seq<u8>,
)
    requires
        path != root_path(),
        !is_download_path(path),
    ensures
        spec_handle(contents, Method::Get, path, body, fresh_name) == (
            contents,
            ResponseModel { status: STATUS_NOT_FOUND as int, body: Seq::<u8>::empty() },
        ),
{
}

/// A download of a well-formed name that no stored object carries always
/// answers 404 with an empty body and leaves the store untouched.
pub proof fn lemma_download_absent(
    contents: Map<Seq<u8>, Seq<u8>>,
    name: Seq<u8>,
    body: Seq<u8>,
    fresh_name: Seq<u8>,
)
    requires
        valid_name(name),
        !contents.contains_key(name),
    ensures
        spec_handle(contents, Method::Get, download_prefix() + name, body, fresh_name) == (
            contents,
            ResponseModel { status: STATUS_NOT_FOUND as int, body: Seq::<u8>::empty() },
        ),
{
    lemma_classify_download(name);
}

/// Downloads are read-only and deterministic: a download request never
/// changes the store, and repeating it yields the identical response every
/// time.
pub proof fn lemma_download_idempotent(
    contents: Map<Seq<u8>, Seq<u8>>,
    path: Seq<u8>,
    body1: Seq<u8>,
    body2: Seq<u8>,
    fresh1: Seq<u8>,
    fresh2: Seq<u8>,
)
    requires
        spec_classify(Method::Get, path) is Download,
    ensures
        ({
            let (c1, r1) = spec_handle(contents, Method::Get, path, body1, fresh1);
            let (c2, r2) = spec_handle(c1, Method::Get, path, body2, fresh2);
            c1 == contents && c2 == contents && r1 == r2
        }),
{
}

/// Round trip: uploading any byte sequence and then downloading under the
/// name the upload answered with yields 200 and exactly the uploaded bytes,
/// and the upload's answer is itself a well-formed name.
pub proof fn lemma_round_trip(contents: Map<Seq<u8>, Seq<u8>>, body: Seq<u8>, fresh_name: Seq<u8>)
    requires
        valid_name(fresh_name),
    ensures
        ({
            let (c1, up) = spec_handle(
                contents,
                Method::Post,
                crate::router::upload_path(),
                body,
                fresh_name,
            );
            let (c2, down) = spec_handle(
                c1,
                Method::Get,
                download_prefix() + up.body,
                Seq::<u8>::empty(),
                fresh_name,
            );
            up.status == STATUS_OK && valid_name(up.body) && down.status == STATUS_OK
                && down.body == body && c2 == c1
        }),
{
    assert(root_path().len() == 1);
    assert(crate::router::upload_path().len() == 7);
    assert(spec_classify(Method::Post, crate::router::upload_path()) is Upload);
    lemma_classify_download(fresh_name);
}

/// Independent uploads do not contaminate one another: two uploads under
/// distinct names leave each body retrievable under its own name, whichever
/// order they land in.
pub proof fn lemma_independent_uploads(
    contents: Map<Seq<u8>, Seq<u8>>,
    body1: Seq<u8>,
    body2: Seq<u8>,
    name1: Seq<u8>,
    name2: Seq<u8>,
)
    requires
        valid_name(name1),
        valid_name(name2),
        name1 != name2,
    ensures
        ({
            let (c1, up1) = spec_handle(
                contents,
                Method::Post,
                crate::router::upload_path(),
                body1,
                name1,
            );
            let (c2, up2) = spec_handle(
                c1,
                Method::Post,
                crate::router::upload_path(),
                body2,
                name2,
            );
            let (c3, down1) = spec_handle(
                c2,
                Method::Get,
                download_prefix() + name1,
                Seq::<u8>::empty(),
                name1,
            );
            let (c4, down2) = spec_handle(
                c2,
                Method::Get,
                download_prefix() + name2,
                Seq::<u8>::empty(),
                name2,
            );
            up1.body == name1 && up2.body == name2 && down1.status == STATUS_OK && down1.body
                == body1 && down2.status == STATUS_OK && down2.body == body2 && c3 == c2 && c4
                == c2
        }),
{
    assert(spec_classify(Method::Post, crate::router::upload_path()) is Upload);
    lemma_classify_download(name1);
    lemma_classify_download(name2);
}

} // verus!
