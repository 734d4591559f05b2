//! Duplicate suppression: per-kind last-seen fingerprints, updated by a
//! single compare-and-set decision per clipboard event.

use vstd::prelude::*;

verus! {

/// The coarse category of a clipboard content payload.
#[derive(Clone, Copy, PartialEq, Eq, Structural, Debug)]
pub enum ContentKind {
    Text,
    Image,
    File,
}

/// The last accepted fingerprint of each content kind; zero means that no
/// content of that kind has been accepted yet.
#[derive(Clone, Copy, PartialEq, Eq, Structural, Debug)]
pub struct DebounceState {
    pub last_text_hash: u64,
    pub last_image_hash: u64,
    pub last_files_hash: u64,
}

/// The fingerprint stored for a given kind.
pub open spec fn stored_hash(s: DebounceState, kind: ContentKind) -> u64 {
    match kind {
        ContentKind::Text => s.last_text_hash,
        ContentKind::Image => s.last_image_hash,
        ContentKind::File => s.last_files_hash,
    }
}

/// Whether a fingerprint is novel for its kind: it differs from the one
/// stored for that kind.
pub open spec fn is_novel(s: DebounceState, kind: ContentKind, fingerprint: u64) -> bool {
    fingerprint != stored_hash(s, kind)
}

/// The state after a decision: unchanged when the fingerprint repeats the
/// stored one; otherwise the stored fingerprint of that kind is replaced,
/// and accepting a new image additionally resets the stored text
/// fingerprint to zero (cross-type invalidation).
pub open spec fn debounce_next(s: DebounceState, kind: ContentKind, fingerprint: u64) -> DebounceState {
    if !is_novel(s, kind, fingerprint) {
        s
    } else {
        match kind {
            ContentKind::Text => DebounceState { last_text_hash: fingerprint, ..s },
            ContentKind::Image => DebounceState {
                last_image_hash: fingerprint,
                last_text_hash: 0,
                ..s
            },
            ContentKind::File => DebounceState { last_files_hash: fingerprint, ..s },
        }
    }
}

impl DebounceState {
    /// A fresh state: nothing has been seen, all fingerprints are zero.
    pub fn new() -> (s: DebounceState)
        ensures
            s == (DebounceState { last_text_hash: 0u64, last_image_hash: 0u64, last_files_hash: 0u64 }),
    {
        DebounceState { last_text_hash: 0, last_image_hash: 0, last_files_hash: 0 }
    }

    /// The compare-and-set decision: returns whether the content is novel
    /// and should be processed, and updates the stored fingerprints
    /// accordingly.
    pub fn should_process(&mut self, kind: ContentKind, fingerprint: u64) -> (process: bool)
        ensures
            process == is_novel(*old(self), kind, fingerprint),
            *final(self) == debounce_next(*old(self), kind, fingerprint),
    {
        match kind {
            ContentKind::Text => {
                if fingerprint == self.last_text_hash {
                    false
                } else {
                    self.last_text_hash = fingerprint;
                    true
                }
            },
            ContentKind::Image => {
                if fingerprint == self.last_image_hash {
                    false
                } else {
                    self.last_image_hash = fingerprint;
                    self.last_text_hash = 0;
                    true
                }
            },
            ContentKind::File => {
                if fingerprint == self.last_files_hash {
                    false
                } else {
                    self.last_files_hash = fingerprint;
                    true
                }
            },
        }
    }
}

impl Default for DebounceState {
    /// Same as `new`: all fingerprints start at zero.
    fn default() -> (s: DebounceState)
        ensures
            s == (DebounceState { last_text_hash: 0u64, last_image_hash: 0u64, last_files_hash: 0u64 }),
    {
        DebounceState::new()
    }
}

/// Debounce law: the same fingerprint submitted twice in a row for the same
/// kind is accepted at most once — whatever the first decision was, the
/// second always answers "do not process" and leaves the state unchanged.
pub proof fn lemma_debounce_suppresses_repeat(s: DebounceState, kind: ContentKind, fingerprint: u64)
    ensures
        !is_novel(debounce_next(s, kind, fingerprint), kind, fingerprint),
        debounce_next(debounce_next(s, kind, fingerprint), kind, fingerprint)
            == debounce_next(s, kind, fingerprint),
{
}

/// Debounce law: a fingerprint that differs from the stored one is always
/// accepted.
pub proof fn lemma_debounce_accepts_new(s: DebounceState, kind: ContentKind, fingerprint: u64)
    requires
        fingerprint != stored_hash(s, kind),
    ensures
        is_novel(s, kind, fingerprint),
{
}

/// Cross-type invalidation law: accepting a new image fingerprint resets
/// the stored text fingerprint to zero, so any nonzero text fingerprint —
/// including one equal to the text fingerprint stored before the image —
/// is treated as novel afterwards.
pub proof fn lemma_image_invalidates_text(s: DebounceState, image_fp: u64, text_fp: u64)
    requires
        image_fp != s.last_image_hash,
        text_fp != 0,
    ensures
        debounce_next(s, ContentKind::Image, image_fp).last_text_hash == 0,
        is_novel(debounce_next(s, ContentKind::Image, image_fp), ContentKind::Text, text_fp),
{
}

} // verus!
