//! Change-watcher decision logic: given a snapshot of what the clipboard
//! currently offers and a fresh configuration, pick the content kind by
//! priority (files over image over text), fingerprint it, consult the
//! debounce store, and decide what — if anything — to upload.
//!
//! Reading the clipboard, reading files from disk and performing the
//! upload happen outside this core; this module makes every decision in
//! between.

use vstd::prelude::*;
use vstd::string::StrSliceExecFns;
use vstd::string::StringExecFns;
use vstd::utf8::encode_utf8;
use crate::classify::classify;
use crate::classify::get_text_subtype;
use crate::classify::subtype_label;
use crate::config::Config;
use crate::debounce::ContentKind;
use crate::debounce::DebounceState;
use crate::debounce::debounce_next;
use crate::debounce::is_novel;
use crate::hash::djb2;
use crate::hash::hash_bytes;
use crate::hash::hash_string_vec;
use crate::hash::join_all;

verus! {

/// What the clipboard offers at the moment a change fires: each format
/// that is present, already read into plain values. The image is the
/// normalized lossless encoding of the picture, so equal pictures
/// fingerprint alike.
pub struct ClipboardSnapshot {
    pub files: Option<Vec<String>>,
    pub image_png: Option<Vec<u8>>,
    pub text: Option<String>,
}

/// What a clipboard change leads to: nothing, or one upload of the chosen
/// kind.
pub enum ChangeAction {
    /// Dropped: monitoring disabled, nothing on the clipboard, empty
    /// content, or a duplicate of the last accepted content of its kind.
    Ignored,
    /// Upload each listed file, in order.
    UploadFiles { paths: Vec<String> },
    /// Upload the encoded image bytes.
    UploadImage { bytes: Vec<u8> },
    /// Upload the text, classified into an optional sub-type.
    UploadText { text: String, subtype: Option<String> },
}

/// The fingerprint of a file-path list: the paths are concatenated in
/// order, so the same paths in another order fingerprint differently.
pub open spec fn paths_fingerprint(paths: Vec<String>) -> u64 {
    djb2(encode_utf8(join_all(paths.deep_view())))
}

/// The fingerprint of a text payload: the hash of its encoded bytes.
pub open spec fn text_fingerprint(t: Seq<char>) -> u64 {
    djb2(encode_utf8(t))
}

/// The kind a snapshot is handled as: the first format present in the
/// priority order files, image, text — the others are ignored entirely.
pub open spec fn snapshot_kind(s: ClipboardSnapshot) -> Option<ContentKind> {
    if s.files is Some {
        Some(ContentKind::File)
    } else if s.image_png is Some {
        Some(ContentKind::Image)
    } else if s.text is Some {
        Some(ContentKind::Text)
    } else {
        None
    }
}

/// Whether the content of the chosen kind is empty; empty content is
/// dropped before fingerprinting and never touches the debounce store.
pub open spec fn snapshot_is_empty(s: ClipboardSnapshot) -> bool {
    match snapshot_kind(s) {
        Some(ContentKind::File) => s.files.unwrap()@.len() == 0,
        Some(ContentKind::Image) => s.image_png.unwrap()@.len() == 0,
        Some(ContentKind::Text) => s.text.unwrap()@.len() == 0,
        None => true,
    }
}

/// The fingerprint of the content of the chosen kind.
pub open spec fn snapshot_fingerprint(s: ClipboardSnapshot) -> u64 {
    match snapshot_kind(s) {
        Some(ContentKind::File) => paths_fingerprint(s.files.unwrap()),
        Some(ContentKind::Image) => djb2(s.image_png.unwrap()@),
        Some(ContentKind::Text) => text_fingerprint(s.text.unwrap()@),
        None => 0,
    }
}

/// Whether a snapshot is dropped with no debounce-state mutation at all:
/// monitoring off, no format present, or empty content.
pub open spec fn snapshot_dropped(config: Config, s: ClipboardSnapshot) -> bool {
    !config.enable_monitoring || snapshot_kind(s) is None || snapshot_is_empty(s)
}

/// Handles one clipboard-change event: checks the monitoring gate, picks
/// the content kind by priority, fingerprints the content, and asks the
/// debounce store whether it is novel. Exactly the novel, nonempty
/// content of the chosen kind is turned into an upload action; everything
/// else is ignored, and only the compare-and-set of the chosen kind ever
/// mutates the state.
pub fn handle_change(state: &mut DebounceState, config: &Config, snapshot: ClipboardSnapshot) -> (a:
    ChangeAction)
    ensures
        snapshot_dropped(*config, snapshot) ==> (*final(state) == *old(state)
            && a is Ignored),
        !snapshot_dropped(*config, snapshot) ==> ({
            let kind = snapshot_kind(snapshot).unwrap();
            let fp = snapshot_fingerprint(snapshot);
            *final(state) == debounce_next(*old(state), kind, fp) && (if !is_novel(
                *old(state),
                kind,
                fp,
            ) {
                a is Ignored
            } else {
                match kind {
                    ContentKind::File => (a matches ChangeAction::UploadFiles { paths } && paths
                        == snapshot.files.unwrap()),
                    ContentKind::Image => (a matches ChangeAction::UploadImage { bytes } && bytes
                        == snapshot.image_png.unwrap()),
                    ContentKind::Text => (a matches ChangeAction::UploadText { text, subtype }
                        && text == snapshot.text.unwrap() && (subtype is Some <==> classify(text@)
                        is Some) && (subtype matches Some(label) ==> (classify(text@)
                        matches Some(st) && label@ == subtype_label(st)))),
                }
            })
        }),
{
    if !config.enable_monitoring {
        return ChangeAction::Ignored;
    }
    let ClipboardSnapshot { files, image_png, text } = snapshot;
    match files {
        Some(paths) => {
            if paths.len() == 0 {
                ChangeAction::Ignored
            } else {
                let sl = paths.as_slice();
                let fp = hash_string_vec(sl);
                proof {
                    assert(sl.deep_view() =~= paths.deep_view());
                }
                let novel = state.should_process(ContentKind::File, fp);
                if novel {
                    ChangeAction::UploadFiles { paths }
                } else {
                    ChangeAction::Ignored
                }
            }
        },
        None => match image_png {
            Some(bytes) => {
                if bytes.len() == 0 {
                    ChangeAction::Ignored
                } else {
                    let fp = hash_bytes(bytes.as_slice());
                    let novel = state.should_process(ContentKind::Image, fp);
                    if novel {
                        ChangeAction::UploadImage { bytes }
                    } else {
                        ChangeAction::Ignored
                    }
                }
            },
            None => match text {
                Some(t) => {
                    if t.as_str().is_empty() {
                        ChangeAction::Ignored
                    } else {
                        let fp = hash_bytes(t.as_str().as_bytes());
                        let novel = state.should_process(ContentKind::Text, fp);
                        if novel {
                            let subtype = get_text_subtype(t.as_str());
                            ChangeAction::UploadText { text: t, subtype }
                        } else {
                            ChangeAction::Ignored
                        }
                    }
                },
                None => ChangeAction::Ignored,
            },
        },
    }
}

/// Priority law: a snapshot that offers a file list is handled as files
/// only, whatever else it offers.
pub proof fn lemma_files_take_priority(s: ClipboardSnapshot)
    requires
        s.files is Some,
    ensures
        snapshot_kind(s) == Some(ContentKind::File),
{
}

/// Priority law: a snapshot that offers an image but no file list is
/// handled as an image only, even when text is also present.
pub proof fn lemma_image_over_text(s: ClipboardSnapshot)
    requires
        s.files is None,
        s.image_png is Some,
    ensures
        snapshot_kind(s) == Some(ContentKind::Image),
{
}

// ---------------------------------------------------------------------------
// Per-file helpers of the files branch
// ---------------------------------------------------------------------------

/// The path starts with the URI prefix `file://`.
pub open spec fn has_file_uri_prefix(s: Seq<char>) -> bool {
    s.len() >= 7 && s[0] == 'f' && s[1] == 'i' && s[2] == 'l' && s[3] == 'e' && s[4] == ':' && s[5]
        == '/' && s[6] == '/'
}

/// Strips a leading `file://` URI prefix, if present, before the path is
/// read from disk.
pub fn clean_file_path(path: &str) -> (r: &str)
    ensures
        has_file_uri_prefix(path@) ==> r@ == path@.skip(7),
        !has_file_uri_prefix(path@) ==> r@ == path@,
{
    let n = path.unicode_len();
    if n >= 7 && path.get_char(0) == 'f' && path.get_char(1) == 'i' && path.get_char(2) == 'l'
        && path.get_char(3) == 'e' && path.get_char(4) == ':' && path.get_char(5) == '/'
        && path.get_char(6) == '/' {
        let r = path.substring_char(7, n);
        proof {
            assert(r@ =~= path@.skip(7));
        }
        r
    } else {
        path
    }
}

/// The suffix of a path after its last `/`; empty for a path that ends in
/// a `/`.
pub open spec fn after_last_slash(s: Seq<char>) -> Seq<char>
    decreases s.len(),
{
    if s.len() == 0 {
        s
    } else if s.last() == '/' {
        Seq::<char>::empty()
    } else {
        after_last_slash(s.drop_last()).push(s.last())
    }
}

proof fn lemma_after_last_slash(s: Seq<char>, i: int)
    requires
        0 <= i <= s.len(),
        i == 0 || s[i - 1] == '/',
        forall|k: int| i <= k < s.len() ==> s[k] != '/',
    ensures
        after_last_slash(s) == s.skip(i),
    decreases s.len(),
{
    if s.len() == 0 {
        assert(after_last_slash(s) =~= s.skip(i));
    } else if s.last() == '/' {
        assert(i == s.len());
        assert(after_last_slash(s) =~= s.skip(i));
    } else {
        assert(i < s.len() || i == 0);
        if i == s.len() {
            assert(s[i - 1] == '/');
            assert(s[s.len() - 1] != '/');
            assert(false);
        }
        lemma_after_last_slash(s.drop_last(), i);
        assert(after_last_slash(s) == s.drop_last().skip(i).push(s.last()));
        assert(s.drop_last().skip(i).push(s.last()) =~= s.skip(i));
    }
}

/// Finds the index right after the last `/` of the path, or 0 when there
/// is none.
fn basename_start(path: &str) -> (i: usize)
    ensures
        i <= path@.len(),
        i == 0 || path@[i - 1] == '/',
        forall|k: int| i <= k < path@.len() ==> path@[k] != '/',
{
    let n = path.unicode_len();
    let mut i: usize = n;
    while i > 0
        invariant
            i <= n,
            n == path@.len(),
            forall|k: int| i <= k < n ==> path@[k] != '/',
        decreases i,
    {
        if path.get_char(i - 1) == '/' {
            return i;
        }
        i = i - 1;
    }
    i
}

/// The name a file is uploaded under: what follows the last `/` of its
/// path, or `file` when the path leaves that empty.
pub fn file_name_of(path: &str) -> (r: String)
    ensures
        after_last_slash(path@).len() > 0 ==> r@ == after_last_slash(path@),
        after_last_slash(path@).len() == 0 ==> r@ == "file"@,
{
    let n = path.unicode_len();
    let i = basename_start(path);
    proof {
        lemma_after_last_slash(path@, i as int);
    }
    if i < n {
        String::from_str(path.substring_char(i, n))
    } else {
        String::from_str("file")
    }
}

// ---------------------------------------------------------------------------
// Content-type and notification text
// ---------------------------------------------------------------------------

/// Builds the full content type handed to the delivery engine: the kind
/// alone, or the kind and sub-type joined by an underscore.
pub fn full_content_type(kind: &str, subtype: Option<&str>) -> (r: String)
    ensures
        subtype matches Some(sub) ==> r@ == kind@ + "_"@ + sub@,
        subtype is None ==> r@ == kind@,
{
    match subtype {
        Some(sub) => {
            let mut out = String::from_str(kind);
            out.append("_");
            out.append(sub);
            out
        },
        None => String::from_str(kind),
    }
}

/// The notification shown for a delivery outcome: a title and a body
/// quoting the payload description, with the error text on failure.
pub fn notification_message(success: bool, description: &str, error: &str) -> (r: (String, String))
    ensures
        success ==> r.0@ == "Upload Success"@ && r.1@ == "'"@ + description@ + "' uploaded"@,
        !success ==> r.0@ == "Upload Failed"@ && r.1@ == "'"@ + description@ + "' upload error: "@
            + error@,
{
    if success {
        let mut body = String::from_str("'");
        body.append(description);
        body.append("' uploaded");
        (String::from_str("Upload Success"), body)
    } else {
        let mut body = String::from_str("'");
        body.append(description);
        body.append("' upload error: ");
        body.append(error);
        (String::from_str("Upload Failed"), body)
    }
}

} // verus!
