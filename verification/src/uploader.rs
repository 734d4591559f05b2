//! Delivery engine decisions: the payload size limit, text-versus-file
//! routing on the full content-type string, and the linear endpoint
//! failover policy.
//!
//! The network transfer itself is performed outside this core; the
//! decisions around it — whether to transfer at all, over which endpoint
//! list, and when to fail over or give up — are made and proved here.

use vstd::prelude::*;
use vstd::string::StrSliceExecFns;
use crate::classify::TextSubtype;
use crate::classify::subtype_label;
use crate::config::Config;

verus! {

/// The content-type strings that route over the text endpoint list; every
/// other content type routes over the file endpoint list.
pub open spec fn is_text_category(t: Seq<char>) -> bool {
    t == "text"@ || t == "text_url"@ || t == "text_email"@ || t == "text_color"@
}

/// Whether a payload of `len` bytes exceeds a limit of `max_mb` whole
/// megabytes.
pub open spec fn exceeds_size_limit(len: int, max_mb: u64) -> bool {
    len > max_mb * 1048576
}

/// What the delivery engine decides to do with a payload, before any
/// transfer is attempted.
#[derive(Clone, Copy, PartialEq, Eq, Structural, Debug)]
pub enum UploadRoute {
    /// The payload exceeds the size limit: fail at once, no transfer.
    RejectTooLarge,
    /// The matching feature flag is off: succeed trivially, no transfer.
    SkipDisabled,
    /// Send the raw bytes as a plain-text body over the text endpoints.
    SendText,
    /// Send the bytes as a multipart file part over the file endpoints.
    SendFile,
}

/// Compares two strings character by character.
fn str_eq(a: &str, b: &str) -> (r: bool)
    ensures
        r == (a@ == b@),
{
    let na = a.unicode_len();
    let nb = b.unicode_len();
    if na != nb {
        return false;
    }
    let mut i: usize = 0;
    while i < na
        invariant
            i <= na,
            na == a@.len(),
            na == b@.len(),
            forall|k: int| 0 <= k < i ==> a@[k] == b@[k],
        decreases na - i,
    {
        if a.get_char(i) != b.get_char(i) {
            return false;
        }
        i = i + 1;
    }
    proof {
        assert(a@ =~= b@);
    }
    true
}

/// Decides the route of a payload: the size limit is checked first and
/// rejects without any transfer; then the content type picks the endpoint
/// family, whose feature flag may skip the transfer entirely.
pub fn plan_upload(config: &Config, content_type: &str, data_len: usize) -> (r: UploadRoute)
    ensures
        exceeds_size_limit(data_len as int, config.max_file_size_mb) ==> r
            == UploadRoute::RejectTooLarge,
        !exceeds_size_limit(data_len as int, config.max_file_size_mb) ==> {
            if is_text_category(content_type@) {
                r == if config.enable_text {
                    UploadRoute::SendText
                } else {
                    UploadRoute::SkipDisabled
                }
            } else {
                r == if config.enable_file {
                    UploadRoute::SendFile
                } else {
                    UploadRoute::SkipDisabled
                }
            }
        },
{
    if (data_len as u128) > (config.max_file_size_mb as u128) * 1048576 {
        return UploadRoute::RejectTooLarge;
    }
    let text_route = str_eq(content_type, "text") || str_eq(content_type, "text_url") || str_eq(
        content_type,
        "text_email",
    ) || str_eq(content_type, "text_color");
    if text_route {
        if config.enable_text {
            UploadRoute::SendText
        } else {
            UploadRoute::SkipDisabled
        }
    } else {
        if config.enable_file {
            UploadRoute::SendFile
        } else {
            UploadRoute::SkipDisabled
        }
    }
}

/// A cursor over an ordered endpoint list during linear failover: the
/// number of endpoints already attempted, all of which failed.
#[derive(Clone, Copy, PartialEq, Eq, Structural, Debug)]
pub struct FailoverCursor {
    pub attempted: usize,
}

impl FailoverCursor {
    /// A fresh traversal: nothing attempted yet.
    pub fn new() -> (c: FailoverCursor)
        ensures
            c.attempted == 0,
    {
        FailoverCursor { attempted: 0 }
    }

    /// The endpoint to try next, in list order; nothing is left once every
    /// endpoint has been attempted, and the overall delivery then fails.
    pub fn next_endpoint<'a>(&self, urls: &'a Vec<String>) -> (r: Option<&'a String>)
        ensures
            self.attempted < urls@.len() ==> (r matches Some(u) && *u == urls@[self.attempted as int]),
            self.attempted >= urls@.len() ==> r is None,
    {
        if self.attempted < urls.len() {
            Some(&urls[self.attempted])
        } else {
            None
        }
    }

    /// Records that the current endpoint failed, moving on to the next.
    pub fn record_failure(&mut self)
        requires
            old(self).attempted < usize::MAX,
        ensures
            final(self).attempted == old(self).attempted + 1,
    {
        self.attempted = self.attempted + 1;
    }
}

/// An HTTP status code that counts as a delivered upload.
pub fn is_success_status(code: u16) -> (r: bool)
    ensures
        r == (200 <= code && code < 300),
{
    200 <= code && code < 300
}

/// The index of the first endpoint whose transfer succeeds, given the
/// outcome each endpoint would report; nothing when all of them fail.
pub open spec fn first_success(outcomes: Seq<bool>) -> Option<int>
    decreases outcomes.len(),
{
    if outcomes.len() == 0 {
        None
    } else if outcomes[0] {
        Some(0int)
    } else {
        match first_success(outcomes.skip(1)) {
            Some(i) => Some(i + 1),
            None => None,
        }
    }
}

/// Failover law: the traversal is linear and stops at the first success —
/// when some endpoint succeeds, every endpoint before it was attempted and
/// failed; the overall delivery fails only when every endpoint fails.
pub proof fn lemma_failover_is_linear(outcomes: Seq<bool>)
    ensures
        match first_success(outcomes) {
            Some(i) => 0 <= i < outcomes.len() && outcomes[i] && (forall|j: int|
                0 <= j < i ==> !outcomes[j]),
            None => forall|j: int| 0 <= j < outcomes.len() ==> !outcomes[j],
        },
    decreases outcomes.len(),
{
    if outcomes.len() == 0 {
    } else if outcomes[0] {
    } else {
        lemma_failover_is_linear(outcomes.skip(1));
        assert forall|j: int| 0 <= j < outcomes.len() implies outcomes[j] == outcomes.skip(1)[j - 1]
            || j == 0 by {}
    }
}

/// Routing law: a text payload routes over the text endpoints whatever its
/// classified sub-type, since every full content type built from the
/// `text` kind is a text category.
pub proof fn lemma_classified_text_routes_as_text(t: TextSubtype)
    ensures
        is_text_category("text"@),
        is_text_category("text"@ + "_"@ + subtype_label(t)),
{
    reveal_strlit("text");
    reveal_strlit("_");
    reveal_strlit("url");
    reveal_strlit("email");
    reveal_strlit("color");
    reveal_strlit("text_url");
    reveal_strlit("text_email");
    reveal_strlit("text_color");
    match t {
        TextSubtype::Url => {
            assert("text"@ + "_"@ + "url"@ =~= "text_url"@);
        },
        TextSubtype::Email => {
            assert("text"@ + "_"@ + "email"@ =~= "text_email"@);
        },
        TextSubtype::Color => {
            assert("text"@ + "_"@ + "color"@ =~= "text_color"@);
        },
    }
}

/// Routing law: image and file payloads are not text categories, so they
/// route over the file endpoints with a multipart body.
pub proof fn lemma_binary_kinds_route_as_file()
    ensures
        !is_text_category("image"@),
        !is_text_category("file"@),
{
    reveal_strlit("image");
    reveal_strlit("file");
    reveal_strlit("text");
    reveal_strlit("text_url");
    reveal_strlit("text_email");
    reveal_strlit("text_color");
    assert("image"@.len() == 5);
    assert("file"@.len() == 4);
    assert("text"@.len() == 4);
    assert("text_url"@.len() == 8);
    assert("text_email"@.len() == 10);
    assert("text_color"@.len() == 10);
    assert("file"@[0] == 'f');
    assert("text"@[0] == 't');
}

} // verus!
