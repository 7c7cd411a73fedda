//! What an audio stream error means, read from its message: a device that
//! went away, a permission problem, a closed channel, or a failed stream.
use vstd::prelude::*;
use crate::text::{contains, contains_seq, lemma_contains_piece, lowercase, to_lowercase};

verus! {

broadcast use vstd::string::group_string_axioms;

/// The kinds of audio stream failure.
#[derive(Clone, Copy, Debug, PartialEq, Eq, Structural)]
pub enum AudioErrorKind {
    DeviceDisconnected,
    PermissionDenied,
    ChannelClosed,
    StreamFailed,
}

/// The phrases that mean the device went away.
pub open spec fn names_disconnect(l: Seq<char>) -> bool {
    contains_seq(l, "device is no longer available"@) || contains_seq(l, "device not found"@)
        || contains_seq(l, "device disconnected"@) || contains_seq(l, "no such device"@)
        || contains_seq(l, "device unavailable"@) || contains_seq(l, "device removed"@)
}

/// The kind of an error whose lower-cased message is `l`; anything not
/// recognised counts as a failed stream.
pub open spec fn error_kind_spec(l: Seq<char>) -> AudioErrorKind {
    if names_disconnect(l) {
        AudioErrorKind::DeviceDisconnected
    } else if contains_seq(l, "permission"@) || contains_seq(l, "access denied"@) {
        AudioErrorKind::PermissionDenied
    } else if contains_seq(l, "channel closed"@) {
        AudioErrorKind::ChannelClosed
    } else {
        AudioErrorKind::StreamFailed
    }
}

/// What an error message means, read in lower case: any of the phrases for
/// a device that went away means a disconnect; otherwise `permission` or
/// `access denied` means a permission problem; otherwise `channel closed`
/// means a closed channel; a message with none of these is a failed stream.
pub proof fn lemma_error_kinds(l: Seq<char>)
    ensures
        (contains_seq(l, "device not found"@) || contains_seq(l, "device disconnected"@) || contains_seq(
            l,
            "no such device"@,
        ) || contains_seq(l, "device unavailable"@) || contains_seq(l, "device removed"@) || contains_seq(
            l,
            "device is no longer available"@,
        )) <==> error_kind_spec(l) == AudioErrorKind::DeviceDisconnected,
        error_kind_spec(l) == AudioErrorKind::PermissionDenied ==> contains_seq(l, "permission"@)
            || contains_seq(l, "access denied"@),
        error_kind_spec(l) == AudioErrorKind::ChannelClosed ==> contains_seq(l, "channel closed"@),
        !contains_seq(l, "device"@) && (contains_seq(l, "permission"@) || contains_seq(l, "access denied"@))
            ==> error_kind_spec(l) == AudioErrorKind::PermissionDenied,
        !contains_seq(l, "device"@) && !contains_seq(l, "permission"@) && !contains_seq(l, "access denied"@)
            && !contains_seq(l, "channel closed"@) ==> error_kind_spec(l) == AudioErrorKind::StreamFailed,
{
    reveal_strlit("device");
    reveal_strlit("device not found");
    reveal_strlit("device disconnected");
    reveal_strlit("no such device");
    reveal_strlit("device unavailable");
    reveal_strlit("device removed");
    reveal_strlit("device is no longer available");
    if !contains_seq(l, "device"@) {
        assert("device not found"@.subrange(0, 6) =~= "device"@);
        assert("device disconnected"@.subrange(0, 6) =~= "device"@);
        assert("no such device"@.subrange(8, 14) =~= "device"@);
        assert("device unavailable"@.subrange(0, 6) =~= "device"@);
        assert("device removed"@.subrange(0, 6) =~= "device"@);
        assert("device is no longer available"@.subrange(0, 6) =~= "device"@);
        if contains_seq(l, "device not found"@) {
            lemma_contains_piece(l, "device not found"@, 0, "device"@);
        }
        if contains_seq(l, "device disconnected"@) {
            lemma_contains_piece(l, "device disconnected"@, 0, "device"@);
        }
        if contains_seq(l, "no such device"@) {
            lemma_contains_piece(l, "no such device"@, 8, "device"@);
        }
        if contains_seq(l, "device unavailable"@) {
            lemma_contains_piece(l, "device unavailable"@, 0, "device"@);
        }
        if contains_seq(l, "device removed"@) {
            lemma_contains_piece(l, "device removed"@, 0, "device"@);
        }
        if contains_seq(l, "device is no longer available"@) {
            lemma_contains_piece(l, "device is no longer available"@, 0, "device"@);
        }
    }
}

/// Classifies an audio stream error by its message, compared in lower case.
pub fn classify_stream_error(message: &str) -> (r: AudioErrorKind)
    ensures
        r == error_kind_spec(lowercase(message@)),
{
    let l = to_lowercase(message);
    let s = l.as_str();
    if contains(s, "device is no longer available") || contains(s, "device not found") || contains(
        s,
        "device disconnected",
    ) || contains(s, "no such device") || contains(s, "device unavailable") || contains(
        s,
        "device removed",
    ) {
        AudioErrorKind::DeviceDisconnected
    } else if contains(s, "permission") || contains(s, "access denied") {
        AudioErrorKind::PermissionDenied
    } else if contains(s, "channel closed") {
        AudioErrorKind::ChannelClosed
    } else {
        AudioErrorKind::StreamFailed
    }
}

} // verus!
