//! Request classification: maps an inbound request's method and path to an
//! intent, with no side effects and no failure mode.

use vstd::prelude::*;
use crate::{is_name_byte, name_byte, valid_name, NAME_LEN};

verus! {

/// The request methods the service distinguishes. Every method other than
/// `GET` and `POST` routes the same way, so a single variant stands for all
/// of them.
#[derive(Clone, Copy)]
pub enum Method {
    Get,
    Post,
    Other,
}

/// What a request asks the service to do, derived purely from its method and
/// path. A download carries the requested object name.
pub enum Intent {
    Index,
    Upload,
    Download(Vec<u8>),
    NotFound,
}

/// The mathematical counterpart of `Intent`, with the name as a sequence.
pub enum IntentSpec {
    Index,
    Upload,
    Download(Seq<u8>),
    NotFound,
}

impl View for Intent {
    type V = IntentSpec;

    open spec fn view(&self) -> IntentSpec {
        match self {
            Intent::Index => IntentSpec::Index,
            Intent::Upload => IntentSpec::Upload,
            Intent::Download(name) => IntentSpec::Download(name@),
            Intent::NotFound => IntentSpec::NotFound,
        }
    }
}

/// Length of the `/download/` path prefix, in bytes.
pub const DOWNLOAD_PREFIX_LEN: usize = 10;

/// The path of the index page: `/`.
pub open spec fn root_path() -> Seq<u8> {
    seq![47u8]
}

/// The path of the upload endpoint: `/upload`.
pub open spec fn upload_path() -> Seq<u8> {
    seq![47u8, 117, 112, 108, 111, 97, 100]
}

/// The prefix of every download path: `/download/`.
pub open spec fn download_prefix() -> Seq<u8> {
    seq![47u8, 100, 111, 119, 110, 108, 111, 97, 100, 47]
}

/// A download path: the `/download/` prefix followed by exactly one
/// well-formed object name and nothing else. The pattern anchors at both
/// ends of the path.
pub open spec fn is_download_path(path: Seq<u8>) -> bool {
    &&& path.len() == DOWNLOAD_PREFIX_LEN + NAME_LEN
    &&& path.take(DOWNLOAD_PREFIX_LEN as int) == download_prefix()
    &&& valid_name(path.skip(DOWNLOAD_PREFIX_LEN as int))
}

/// The classification rules, in priority order: `GET /` is the index, a
/// `GET` of a well-formed download path is a download of the embedded name,
/// `POST /upload` is an upload, and everything else is not found.
pub open spec fn spec_classify(m: Method, path: Seq<u8>) -> IntentSpec {
    if m is Get && path == root_path() {
        IntentSpec::Index
    } else if m is Get && is_download_path(path) {
        IntentSpec::Download(path.skip(DOWNLOAD_PREFIX_LEN as int))
    } else if m is Post && path == upload_path() {
        IntentSpec::Upload
    } else {
        IntentSpec::NotFound
    }
}

/// The `/upload` path as a byte string.
fn upload_path_vec() -> (v: Vec<u8>)
    ensures
        v@ == upload_path(),
{
    let v: Vec<u8> = vec![47u8, 117, 112, 108, 111, 97, 100];
    proof {
        assert(v@ =~= upload_path());
    }
    v
}

/// The `/download/` prefix as a byte string.
fn download_prefix_vec() -> (v: Vec<u8>)
    ensures
        v@ == download_prefix(),
{
    let v: Vec<u8> = vec![47u8, 100, 111, 119, 110, 108, 111, 97, 100, 47];
    proof {
        assert(v@ =~= download_prefix());
    }
    v
}

/// Decides whether `path` is a well-formed download path.
fn is_download(path: &[u8]) -> (r: bool)
    ensures
        r == is_download_path(path@),
{
    if path.len() != DOWNLOAD_PREFIX_LEN + NAME_LEN {
        return false;
    }
    let prefix = download_prefix_vec();
    let mut i: usize = 0;
    while i < DOWNLOAD_PREFIX_LEN
        invariant
            i <= DOWNLOAD_PREFIX_LEN,
            path@.len() == DOWNLOAD_PREFIX_LEN + NAME_LEN,
            prefix@ == download_prefix(),
            prefix@.len() == DOWNLOAD_PREFIX_LEN,
            forall|j: int| 0 <= j < i ==> path@[j] == download_prefix()[j],
        decreases DOWNLOAD_PREFIX_LEN - i,
    {
        if path[i] != prefix[i] {
            proof {
                assert(path@.take(DOWNLOAD_PREFIX_LEN as int)[i as int] == path@[i as int]);
            }
            return false;
        }
        i = i + 1;
    }
    proof {
        assert(path@.take(DOWNLOAD_PREFIX_LEN as int) =~= download_prefix());
    }
    let mut k: usize = DOWNLOAD_PREFIX_LEN;
    while k < path.len()
        invariant
            DOWNLOAD_PREFIX_LEN <= k <= path@.len(),
            path@.len() == DOWNLOAD_PREFIX_LEN + NAME_LEN,
            path@.take(DOWNLOAD_PREFIX_LEN as int) == download_prefix(),
            forall|j: int| DOWNLOAD_PREFIX_LEN <= j < k ==> is_name_byte(path@[j]),
        decreases path@.len() - k,
    {
        if !name_byte(path[k]) {
            proof {
                assert(path@.skip(DOWNLOAD_PREFIX_LEN as int)[k - DOWNLOAD_PREFIX_LEN]
                    == path@[k as int]);
            }
            return false;
        }
        k = k + 1;
    }
    proof {
        assert forall|j: int| 0 <= j < path@.skip(DOWNLOAD_PREFIX_LEN as int).len() implies
            is_name_byte(path@.skip(DOWNLOAD_PREFIX_LEN as int)[j]) by {
            assert(path@.skip(DOWNLOAD_PREFIX_LEN as int)[j] == path@[j + DOWNLOAD_PREFIX_LEN]);
        }
    }
    true
}

/// Classifies a request by method and path. Classification always succeeds:
/// every request resolves to exactly one intent, the one `spec_classify`
/// assigns it.
pub fn classify(method: Method, path: &[u8]) -> (intent: Intent)
    ensures
        intent@ == spec_classify(method, path@),
{
    match method {
        Method::Get => {
            if path.len() == 1 && path[0] == 47 {
                proof {
                    assert(path@ =~= root_path());
                }
                Intent::Index
            } else if is_download(path) {
                proof {
                    assert(path@.len() != root_path().len());
                }
                let name_slice = vstd::slice::slice_subrange(path, DOWNLOAD_PREFIX_LEN, path.len());
                let name = vstd::slice::slice_to_vec(name_slice);
                proof {
                    assert(name@ =~= path@.skip(DOWNLOAD_PREFIX_LEN as int));
                }
                Intent::Download(name)
            } else {
                proof {
                    if path@ == root_path() {
                        assert(path@.len() == 1 && path@[0] == 47);
                    }
                }
                Intent::NotFound
            }
        },
        Method::Post => {
            let upload = upload_path_vec();
            if crate::bytes_eq(path, upload.as_slice()) {
                Intent::Upload
            } else {
                Intent::NotFound
            }
        },
        Method::Other => Intent::NotFound,
    }
}

} // verus!
