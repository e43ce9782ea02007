//! A minimal HTTP file relay: uploads are stored under a freshly generated
//! alphanumeric name, and that name later retrieves the stored bytes.

use vstd::prelude::*;

verus! {

/// Length of every generated object name, in characters.
pub const NAME_LEN: usize = 20;

/// ASCII code of 'A'.
pub const UPPER_A: u8 = 65;

/// ASCII code of 'Z'.
pub const UPPER_Z: u8 = 90;

/// ASCII code of 'a'.
pub const LOWER_A: u8 = 97;

/// ASCII code of 'z'.
pub const LOWER_Z: u8 = 122;

/// ASCII code of '0'.
pub const DIGIT_0: u8 = 48;

/// ASCII code of '9'.
pub const DIGIT_9: u8 = 57;

/// A byte that may appear in an object name: an ASCII letter or digit.
pub open spec fn is_name_byte(b: u8) -> bool {
    (UPPER_A <= b && b <= UPPER_Z) || (LOWER_A <= b && b <= LOWER_Z) || (DIGIT_0 <= b && b
        <= DIGIT_9)
}

/// A well-formed object name: exactly `NAME_LEN` bytes, all alphanumeric.
pub open spec fn valid_name(s: Seq<u8>) -> bool {
    s.len() == NAME_LEN && forall|i: int| 0 <= i < s.len() ==> is_name_byte(s[i])
}

/// Decides whether `b` may appear in an object name.
pub fn name_byte(b: u8) -> (r: bool)
    ensures
        r == is_name_byte(b),
{
    (UPPER_A <= b && b <= UPPER_Z) || (LOWER_A <= b && b <= LOWER_Z) || (DIGIT_0 <= b && b
        <= DIGIT_9)
}

/// Byte-for-byte equality of two byte strings.
pub fn bytes_eq(a: &[u8], b: &[u8]) -> (r: bool)
    ensures
        r == (a@ == b@),
{
    if a.len() != b.len() {
        return false;
    }
    let mut i: usize = 0;
    while i < a.len()
        invariant
            i <= a@.len(),
            a@.len() == b@.len(),
            forall|j: int| 0 <= j < i ==> a@[j] == b@[j],
        decreases a@.len() - i,
    {
        if a[i] != b[i] {
            return false;
        }
        i = i + 1;
    }
    proof {
        assert(a@ =~= b@);
    }
    true
}

} // verus!

mod laws;
mod name;
mod response;
mod router;
mod service;
mod store;
mod transfer;

pub use laws::lemma_classify_download;
pub use laws::lemma_download_absent;
pub use laws::lemma_download_idempotent;
pub use laws::lemma_independent_uploads;
pub use laws::lemma_index_request;
pub use laws::lemma_malformed_download;
pub use laws::lemma_round_trip;
pub use laws::lemma_unmatched_request;
pub use name::generate_name;
pub use response::index_body;
pub use response::index_response;
pub use response::response_with_code;
pub use response::Response;
pub use response::ResponseModel;
pub use response::STATUS_NOT_FOUND;
pub use response::STATUS_OK;
pub use response::STATUS_SERVER_ERROR;
pub use router::Intent;
pub use router::IntentSpec;
pub use router::Method;
pub use router::classify;
pub use router::download_prefix;
pub use router::is_download_path;
pub use router::root_path;
pub use router::spec_classify;
pub use router::upload_path;
pub use router::DOWNLOAD_PREFIX_LEN;
pub use store::entries_map;
pub use store::lemma_entries_map_absent;
pub use store::lemma_entries_map_found;
pub use store::Store;
pub use store::StoredObject;
pub use transfer::error_response;
pub use transfer::other;
pub use transfer::DownloadSession;
pub use transfer::TransferError;
pub use transfer::UploadSession;
pub use transfer::CHUNK_LEN;
pub use service::chunks_view;
pub use service::concat_chunks;
pub use service::handle_request;
pub use service::imageservice_handler;
pub use service::lemma_concat_chunks_take_step;
pub use service::spec_handle;
