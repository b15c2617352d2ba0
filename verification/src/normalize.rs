//! Rewriting a path into the text that an external tool accepts as an
//! argument.
//!
//! On Windows an absolute path may come in extended-length form: `\\?\C:\dir`
//! for a drive, `\\?\UNC\server\share` for a network share. Tools that parse
//! their own arguments do not take that form, so the marker is removed and a
//! share gets its conventional `\\server\share` spelling back. Elsewhere a
//! path is written as it is. Nothing here looks at the file system.

use vstd::prelude::*;

verus! {

/// The path convention to write for.
#[derive(Clone, Copy, Debug, PartialEq, Eq)]
pub enum Platform {
    /// Absolute paths may carry the extended-length marker.
    Windows,
    /// Paths are written as they are.
    Other,
}

/// `\\?\`, which opens an extended-length path.
pub open spec fn extended_marker() -> Seq<char> {
    seq!['\\', '\\', '?', '\\']
}

/// `UNC`, which follows the extended-length marker of a network share.
pub open spec fn share_marker() -> Seq<char> {
    seq!['U', 'N', 'C']
}

/// `path` without its extended-length marker; the share marker that follows
/// it, if any, gives way to one more backslash.
pub open spec fn strip_extended(path: Seq<char>) -> Seq<char> {
    if extended_marker().is_prefix_of(path) {
        let rest = path.skip(4);
        if share_marker().is_prefix_of(rest) {
            seq!['\\'] + rest.skip(3)
        } else {
            rest
        }
    } else {
        path
    }
}

/// The text of `path` as an argument on `platform`.
pub open spec fn normalized(path: Seq<char>, platform: Platform) -> Seq<char> {
    match platform {
        Platform::Windows => strip_extended(path),
        Platform::Other => path,
    }
}

/// Whether what is left of `path` once its extended-length marker is removed
/// starts with such a marker again: `\\?\\\?\..` or `\\?\UNC\?\..`.
pub open spec fn marked_twice(path: Seq<char>) -> bool {
    ||| (extended_marker() + extended_marker()).is_prefix_of(path)
    ||| (extended_marker() + share_marker() + seq!['\\', '?', '\\']).is_prefix_of(path)
}

/// A path without an extended-length marker is already normal: it is
/// returned unchanged on either platform.
pub proof fn lemma_normal_path_unchanged(path: Seq<char>, platform: Platform)
    requires
        !extended_marker().is_prefix_of(path),
    ensures
        normalized(path, platform) == path,
{
}

/// What normalizing leaves carries no extended-length marker, unless the path
/// was marked twice.
pub proof fn lemma_normalized_has_no_marker(path: Seq<char>)
    ensures
        extended_marker().is_prefix_of(strip_extended(path)) <==> marked_twice(path),
{
    let marker = extended_marker();
    let out = strip_extended(path);
    if marker.is_prefix_of(path) {
        let rest = path.skip(4);
        assert(path =~= marker + rest);
        if share_marker().is_prefix_of(rest) {
            let tail = rest.skip(3);
            assert(rest =~= share_marker() + tail);
            let twice = marker + share_marker() + seq!['\\', '?', '\\'];
            let single = marker + marker;
            assert(!single.is_prefix_of(path)) by {
                if single.is_prefix_of(path) {
                    assert(path[4] == single[4]);
                    assert(rest[0] == share_marker()[0]);
                }
            }
            if marker.is_prefix_of(out) {
                assert(out.subrange(0, 4) == marker);
                assert forall|i: int| 0 <= i < 10 implies path[i] == twice[i] by {
                    if i >= 7 {
                        assert(out.subrange(0, 4)[i - 6] == marker[i - 6]);
                        assert(path[i] == tail[i - 7]);
                    } else if i >= 4 {
                        assert(path[i] == rest[i - 4]);
                        assert(rest.subrange(0, 3)[i - 4] == share_marker()[i - 4]);
                    } else {
                        assert(path.subrange(0, 4)[i] == marker[i]);
                    }
                }
                assert(path.subrange(0, 10) =~= twice);
            }
            if twice.is_prefix_of(path) {
                assert forall|i: int| 0 <= i < 4 implies out[i] == marker[i] by {
                    if i >= 1 {
                        assert(out[i] == tail[i - 1]);
                        assert(path.subrange(0, 10)[i + 6] == twice[i + 6]);
                    }
                }
                assert(out.subrange(0, 4) =~= marker);
            }
        } else {
            let twice = marker + share_marker() + seq!['\\', '?', '\\'];
            let single = marker + marker;
            assert(!twice.is_prefix_of(path)) by {
                if twice.is_prefix_of(path) {
                    assert forall|i: int| 0 <= i < 3 implies rest[i] == share_marker()[i] by {
                        assert(path.subrange(0, 10)[i + 4] == twice[i + 4]);
                    }
                    assert(rest.subrange(0, 3) =~= share_marker());
                }
            }
            if marker.is_prefix_of(rest) {
                assert forall|i: int| 0 <= i < 8 implies path[i] == single[i] by {
                    if i >= 4 {
                        assert(rest.subrange(0, 4)[i - 4] == marker[i - 4]);
                    } else {
                        assert(path.subrange(0, 4)[i] == marker[i]);
                    }
                }
                assert(path.subrange(0, 8) =~= single);
            }
            if single.is_prefix_of(path) {
                assert forall|i: int| 0 <= i < 4 implies rest[i] == marker[i] by {
                    assert(path.subrange(0, 8)[i + 4] == single[i + 4]);
                }
                assert(rest.subrange(0, 4) =~= marker);
            }
        }
    } else {
        assert(!(marker + marker).is_prefix_of(path)) by {
            if (marker + marker).is_prefix_of(path) {
                assert(path.subrange(0, 4) =~= path.subrange(0, 8).subrange(0, 4));
                assert(path.subrange(0, 4) =~= marker);
            }
        }
        let twice = marker + share_marker() + seq!['\\', '?', '\\'];
        assert(!twice.is_prefix_of(path)) by {
            if twice.is_prefix_of(path) {
                assert(path.subrange(0, 4) =~= path.subrange(0, 10).subrange(0, 4));
                assert(path.subrange(0, 4) =~= marker);
            }
        }
    }
}

/// Normalizing is idempotent: a second pass returns the result of the first
/// unchanged. A path that was marked twice is left out, as one pass removes
/// one marker only.
pub proof fn lemma_normalize_idempotent(path: Seq<char>, platform: Platform)
    requires
        platform == Platform::Windows ==> !marked_twice(path),
    ensures
        normalized(normalized(path, platform), platform) == normalized(path, platform),
{
    lemma_normalized_has_no_marker(path);
}

/// Of a path that was marked twice, a second pass removes the second marker:
/// it does not return the result of the first.
pub proof fn lemma_marked_twice_needs_two_passes(path: Seq<char>)
    requires
        marked_twice(path),
    ensures
        normalized(normalized(path, Platform::Windows), Platform::Windows) != normalized(
            path,
            Platform::Windows,
        ),
{
    lemma_normalized_has_no_marker(path);
    let once = strip_extended(path);
    let rest = once.skip(4);
    if share_marker().is_prefix_of(rest) {
        assert(strip_extended(once).len() == once.len() - 6);
    } else {
        assert(strip_extended(once).len() == once.len() - 4);
    }
}

/// Whether `text` begins with `prefix`.
pub fn starts_with(text: &str, prefix: &str) -> (found: bool)
    ensures
        found == prefix@.is_prefix_of(text@),
{
    let text_len: usize = text.unicode_len();
    let prefix_len: usize = prefix.unicode_len();
    if prefix_len > text_len {
        return false;
    }
    let mut i: usize = 0;
    while i < prefix_len
        invariant
            i <= prefix_len,
            prefix_len == prefix@.len(),
            text_len == text@.len(),
            prefix_len <= text_len,
            forall|j: int| 0 <= j < i ==> text@[j] == prefix@[j],
        decreases prefix_len - i,
    {
        if text.get_char(i) != prefix.get_char(i) {
            assert(text@.subrange(0, prefix@.len() as int)[i as int] != prefix@[i as int]);
            return false;
        }
        i += 1;
    }
    assert(text@.subrange(0, prefix@.len() as int) =~= prefix@);
    true
}

/// Writes `path` as an argument for an external tool on `platform`.
pub fn fix_path(path: &str, platform: Platform) -> (text: String)
    ensures
        text@ == normalized(path@, platform),
{
    match platform {
        Platform::Other => String::from_str(path),
        Platform::Windows => {
            proof {
                reveal_strlit("\\\\?\\");
                reveal_strlit("UNC");
                reveal_strlit("\\");
                assert("\\\\?\\"@ =~= extended_marker());
                assert("UNC"@ =~= share_marker());
                assert("\\"@ =~= seq!['\\']);
            }
            if starts_with(path, "\\\\?\\") {
                let rest = path.substring_char(4, path.unicode_len());
                assert(rest@ =~= path@.skip(4));
                if starts_with(rest, "UNC") {
                    let tail = rest.substring_char(3, rest.unicode_len());
                    assert(tail@ =~= rest@.skip(3));
                    String::from_str("\\").concat(tail)
                } else {
                    String::from_str(rest)
                }
            } else {
                String::from_str(path)
            }
        }
    }
}

} // verus!
