//! Filesystem-safe transform of a share identifier.
//!
//! A share identifier may contain the share marker character `!` and
//! path separators `/`; the directory a share is mirrored into is named
//! after the identifier with every such character replaced by `-`.

use vstd::prelude::*;

verus! {

/// What one character of a share identifier becomes in a directory name.
pub open spec fn sanitize_char(c: char) -> char {
    if c == '!' || c == '/' {
        '-'
    } else {
        c
    }
}

/// The sanitized form of a whole identifier: every character mapped
/// through [`sanitize_char`].
pub open spec fn sanitized(s: Seq<char>) -> Seq<char> {
    s.map_values(|c: char| sanitize_char(c))
}

/// Relies on std's `String::push`: appends exactly the given character.
#[verifier::external_body]
fn push_char(s: &mut String, c: char)
    ensures
        final(s)@ == old(s)@.push(c),
{
    s.push(c)
}

/// Directory name a share is mirrored into: the identifier with the
/// share marker and path separators replaced, so the result is usable
/// as a single path segment.
pub fn sanitize_share_id(share_id: &str) -> (r: String)
    ensures
        r@ == sanitized(share_id@),
        forall|i: int| 0 <= i < r@.len() ==> r@[i] != '!' && r@[i] != '/',
{
    let n = share_id.unicode_len();
    let mut out = String::new();
    let mut i: usize = 0;
    while i < n
        invariant
            n == share_id@.len(),
            0 <= i <= n,
            out@ == sanitized(share_id@.subrange(0, i as int)),
        decreases n - i,
    {
        let c = share_id.get_char(i);
        if c == '!' || c == '/' {
            push_char(&mut out, '-');
        } else {
            push_char(&mut out, c);
        }
        proof {
            assert(share_id@.subrange(0, i as int + 1).drop_last() =~= share_id@.subrange(
                0,
                i as int,
            ));
            assert(sanitized(share_id@.subrange(0, i as int + 1)) =~= sanitized(
                share_id@.subrange(0, i as int),
            ).push(sanitize_char(share_id@[i as int])));
        }
        i = i + 1;
    }
    proof {
        assert(share_id@.subrange(0, n as int) =~= share_id@);
        assert(forall|i: int|
            0 <= i < sanitized(share_id@).len() ==> sanitized(share_id@)[i] != '!' && sanitized(
                share_id@,
            )[i] != '/');
    }
    out
}

} // verus!
