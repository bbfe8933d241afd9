//! Destination paths, modeled as sequences of relative segments.
//!
//! The host resolves each item's save path beneath the trusted data
//! root.  The library decides, lexically, what the relative path
//! resolves to — and rejects any path whose traversal would climb above
//! that root, before any network request is issued.  The host converts
//! between its native paths and the segment lists used here.

use vstd::prelude::*;

use crate::errors::DownloadError;

verus! {

/// Lexical normalization of relative path segments.  Empty segments
/// and "." vanish; ".." removes the segment before it; a ".." with
/// nothing left to remove would escape the root: no result.
pub open spec fn spec_normalize(segs: Seq<Seq<char>>) -> Option<Seq<Seq<char>>>
    decreases segs.len(),
{
    if segs.len() == 0 {
        Some(Seq::empty())
    } else {
        match spec_normalize(segs.drop_last()) {
            None => None,
            Some(prefix) => {
                let last = segs.last();
                if last.len() == 0 || last == "."@ {
                    Some(prefix)
                } else if last == ".."@ {
                    if prefix.len() == 0 {
                        None
                    } else {
                        Some(prefix.drop_last())
                    }
                } else {
                    Some(prefix.push(last))
                }
            },
        }
    }
}

/// Once a prefix escapes, the whole path escapes.
proof fn lemma_normalize_none_persists(segs: Seq<Seq<char>>, i: int)
    requires
        0 <= i <= segs.len(),
        spec_normalize(segs.take(i)) is None,
    ensures
        spec_normalize(segs) is None,
    decreases segs.len() - i,
{
    if i == segs.len() {
        assert(segs.take(i) =~= segs);
    } else {
        assert(segs.take(i + 1).drop_last() =~= segs.take(i));
        lemma_normalize_none_persists(segs, i + 1);
    }
}

/// Sanitizes one item's save path: returns the normalized segments to
/// join beneath the trusted data root, or rejects a path that would
/// resolve outside that root.  The rejection is decided here, before
/// any transfer is started.
pub fn sanitize_save_path(segments: &Vec<String>) -> (r: Result<Vec<String>, DownloadError>)
    ensures
        match r {
            Ok(out) => spec_normalize(segments.deep_view()) == Some(out.deep_view()),
            Err(e) => spec_normalize(segments.deep_view()) is None && e
                == DownloadError::PathSecurity,
        },
{
    let dot: String = ".".to_owned();
    let dotdot: String = "..".to_owned();
    let mut out: Vec<String> = Vec::new();
    let mut i: usize = 0;
    while i < segments.len()
        invariant
            0 <= i <= segments@.len(),
            dot@ == "."@,
            dotdot@ == ".."@,
            spec_normalize(segments.deep_view().take(i as int)) == Some(out.deep_view()),
        decreases segments@.len() - i,
    {
        proof {
            assert(segments.deep_view().take(i as int + 1).drop_last() =~= segments.deep_view().take(
                i as int,
            ));
            assert(segments.deep_view().take(i as int + 1).last() == segments@[i as int]@);
        }
        let ghost prev = out.deep_view();
        let seg = &segments[i];
        if seg.as_str().unicode_len() == 0 || *seg == dot {
            // vanishes
        } else if *seg == dotdot {
            if out.len() == 0 {
                proof {
                    lemma_normalize_none_persists(segments.deep_view(), i as int + 1);
                }
                return Err(DownloadError::PathSecurity);
            }
            out.pop();
            proof {
                assert(out.deep_view() =~= prev.drop_last());
            }
        } else {
            out.push(seg.clone());
            proof {
                assert(out.deep_view() =~= prev.push(segments@[i as int]@));
            }
        }
        i = i + 1;
    }
    proof {
        assert(segments.deep_view().take(segments.deep_view().len() as int)
            =~= segments.deep_view());
    }
    Ok(out)
}

/// The temporary file's name: the destination's file name with ".tmp"
/// appended after any existing extension.
pub fn tmp_name(file_name: &str) -> (r: String)
    ensures
        r@ == file_name@ + ".tmp"@,
{
    let mut s: String = file_name.to_owned();
    s.append(".tmp");
    s
}

/// The URL marker file's name: the destination's file name with ".url"
/// appended after any existing extension.
pub fn marker_name(file_name: &str) -> (r: String)
    ensures
        r@ == file_name@ + ".url"@,
{
    let mut s: String = file_name.to_owned();
    s.append(".url");
    s
}

/// The artifact identifier carried on validation notifications: the
/// name of the destination's parent directory, or "unknown" when the
/// path has no parent segment.
pub fn artifact_id(segments: &Vec<String>) -> (r: String)
    ensures
        segments@.len() >= 2 ==> r@ == segments.deep_view()[segments@.len() - 2],
        segments@.len() < 2 ==> r@ == "unknown"@,
{
    if segments.len() >= 2 {
        segments[segments.len() - 2].clone()
    } else {
        "unknown".to_owned()
    }
}

} // verus!
