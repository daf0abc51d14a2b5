//! Path handling: container-identity resolution and the host storage
//! layout convention.
//!
//! A path is modelled as its character sequence.  Its *segments* are the
//! non-empty, non-`.` runs between `/` separators; this matches how the
//! platform resolves a path's components for the cases the snapshotter
//! accepts.  The container identity of a mount path is the next-to-last
//! segment — the name of the mount path's parent directory — and
//! resolution fails when there is no such segment or when it is `..`,
//! i.e. when the parent has no resolvable final component.

use vstd::prelude::*;
use crate::errors::SnapshotError;

verus! {

/// A segment is kept when it is non-empty and not the no-op `.`.
pub open spec fn keepable(seg: Seq<char>) -> bool {
    seg.len() > 0 && seg != seq!['.']
}

/// Scans a path left to right: returns the kept segments already closed
/// by a `/`, and the still-open trailing run.
pub open spec fn seg_scan(s: Seq<char>) -> (Seq<Seq<char>>, Seq<char>)
    decreases s.len(),
{
    if s.len() == 0 {
        (Seq::empty(), Seq::empty())
    } else {
        let prior = seg_scan(s.drop_last());
        if s.last() == '/' {
            (
                if keepable(prior.1) {
                    prior.0.push(prior.1)
                } else {
                    prior.0
                },
                Seq::<char>::empty(),
            )
        } else {
            (prior.0, prior.1.push(s.last()))
        }
    }
}

/// All kept segments of a path, in order.
pub open spec fn path_segments(s: Seq<char>) -> Seq<Seq<char>> {
    let scanned = seg_scan(s);
    if keepable(scanned.1) {
        scanned.0.push(scanned.1)
    } else {
        scanned.0
    }
}

/// The container identity of a mount path: the name of its parent
/// directory, when that is a resolvable component.
pub open spec fn cid_of(path: Seq<char>) -> Option<Seq<char>> {
    let segs = path_segments(path);
    if segs.len() < 2 {
        None
    } else if segs[segs.len() - 2] == seq!['.', '.'] {
        None
    } else {
        Some(segs[segs.len() - 2])
    }
}

/// Resolves the container identity of `path`, exactly as [`cid_of`]
/// describes.  This performs no filesystem or mount-table side effect:
/// it only reads the path text, so a mount request against a path with
/// no resolvable parent component is rejected before anything is done.
pub fn resolve_cid(path: &str) -> (r: Result<String, SnapshotError>)
    ensures
        r matches Ok(c) ==> cid_of(path@) == Some(c@),
        r is Err <==> cid_of(path@) is None,
        r matches Err(e) ==> e is IdentityResolution,
{
    let len = path.unicode_len();
    let mut seg_start: usize = 0;
    let mut kept_count: usize = 0;
    let mut kept_last: Option<String> = None;
    let mut kept_prev: Option<String> = None;
    let ghost mut kept_g: Seq<Seq<char>> = Seq::empty();
    let mut i: usize = 0;
    while i < len
        invariant
            len == path@.len(),
            seg_start <= i <= len,
            kept_count <= i,
            seg_scan(path@.take(i as int)).0 == kept_g,
            seg_scan(path@.take(i as int)).1 == path@.subrange(seg_start as int, i as int),
            kept_count == kept_g.len(),
            kept_count >= 1 ==> (kept_last matches Some(k) && k@ == kept_g[kept_count - 1]),
            kept_count < 1 ==> kept_last is None,
            kept_count >= 2 ==> (kept_prev matches Some(k) && k@ == kept_g[kept_count - 2]),
            kept_count < 2 ==> kept_prev is None,
        decreases len - i,
    {
        let c = path.get_char(i);
        proof {
            assert(path@.take(i as int + 1).drop_last() =~= path@.take(i as int));
            assert(path@.take(i as int + 1).last() == path@[i as int]);
        }
        if c == '/' {
            let seg_len = i - seg_start;
            let keep = seg_len > 1 || (seg_len == 1 && path.get_char(seg_start) != '.');
            proof {
                let partial = path@.subrange(seg_start as int, i as int);
                assert(seq!['.'].len() == 1);
                if seg_len == 1 {
                    assert(partial =~= seq![path@[seg_start as int]]);
                    if path@[seg_start as int] == '.' {
                        assert(partial =~= seq!['.']);
                    } else {
                        assert(partial[0] != '.');
                        assert(partial != seq!['.']);
                    }
                } else if seg_len > 1 {
                    assert(partial.len() > 1);
                    assert(partial != seq!['.']);
                } else {
                    assert(partial.len() == 0);
                }
                assert(keep == keepable(partial));
            }
            if keep {
                let seg = path.substring_char(seg_start, i).to_owned();
                kept_prev = kept_last;
                kept_last = Some(seg);
                kept_count = kept_count + 1;
                proof {
                    kept_g = kept_g.push(path@.subrange(seg_start as int, i as int));
                }
            }
            seg_start = i + 1;
            proof {
                assert(path@.subrange(seg_start as int, i as int + 1) =~= Seq::<char>::empty());
            }
        } else {
            proof {
                assert(path@.subrange(seg_start as int, i as int + 1) =~= path@.subrange(
                    seg_start as int,
                    i as int,
                ).push(path@[i as int]));
            }
        }
        i = i + 1;
    }
    proof {
        assert(path@.take(len as int) =~= path@);
    }
    // close the trailing run, then pick the next-to-last kept segment
    let tail_len = len - seg_start;
    let keep_tail = tail_len > 1 || (tail_len == 1 && path.get_char(seg_start) != '.');
    proof {
        let partial = path@.subrange(seg_start as int, len as int);
        assert(seq!['.'].len() == 1);
        if tail_len == 1 {
            assert(partial =~= seq![path@[seg_start as int]]);
            if path@[seg_start as int] == '.' {
                assert(partial =~= seq!['.']);
            } else {
                assert(partial[0] != '.');
                assert(partial != seq!['.']);
            }
        } else if tail_len > 1 {
            assert(partial.len() > 1);
            assert(partial != seq!['.']);
        } else {
            assert(partial.len() == 0);
        }
        assert(keep_tail == keepable(partial));
    }
    let parent_name: Option<&String> = if keep_tail {
        kept_last.as_ref()
    } else {
        kept_prev.as_ref()
    };
    proof {
        let segs = path_segments(path@);
        if keep_tail {
            assert(segs == kept_g.push(path@.subrange(seg_start as int, len as int)));
            assert(parent_name matches Some(n) ==> kept_count >= 1 && n@ == kept_g[kept_count
                - 1] && segs.len() == kept_count + 1 && segs[segs.len() - 2] == n@);
            assert(parent_name is None ==> kept_count == 0 && segs.len() < 2);
        } else {
            assert(segs == kept_g);
            assert(parent_name matches Some(n) ==> kept_count >= 2 && n@ == kept_g[kept_count
                - 2] && segs[segs.len() - 2] == n@);
            assert(parent_name is None ==> kept_count < 2 && segs.len() < 2);
        }
    }
    match parent_name {
        None => Err(identity_error()),
        Some(name) => {
            let nlen = name.as_str().unicode_len();
            let is_dotdot = nlen == 2 && name.as_str().get_char(0) == '.' && name.as_str().get_char(
                1,
            ) == '.';
            proof {
                if nlen == 2 {
                    assert(name@ =~= seq![name@[0], name@[1]]);
                }
                if is_dotdot {
                    assert(name@ =~= seq!['.', '.']);
                } else if nlen == 2 {
                    assert(name@ != seq!['.', '.']) by {
                        assert(name@[0] != '.' || name@[1] != '.');
                    }
                } else {
                    assert(name@ != seq!['.', '.']) by {
                        assert(name@.len() != 2);
                    }
                }
            }
            if is_dotdot {
                Err(identity_error())
            } else {
                Ok(name.clone())
            }
        },
    }
}

/// The error every failed identity resolution reports.
fn identity_error() -> (r: SnapshotError)
    ensures
        r is IdentityResolution,
{
    let mut detail = String::new();
    detail.append("mount path has no resolvable parent component");
    SnapshotError::IdentityResolution { detail }
}

/// The private host directory that receives this container's built
/// layer images: `/images/<cid>/eccfs`.
pub fn host_image_dir(cid: &str) -> (r: String)
    ensures
        r@ == "/images/"@ + cid@ + "/eccfs"@,
{
    let mut s = String::new();
    s.append("/images/");
    s.append(cid);
    s.append("/eccfs");
    s
}

/// The private host directory backing this container's key-custody
/// mount: `/images/<cid>/keys/sefs/lower`.
pub fn keys_backing_dir(cid: &str) -> (r: String)
    ensures
        r@ == "/images/"@ + cid@ + "/keys/sefs/lower"@,
{
    let mut s = String::new();
    s.append("/images/");
    s.append(cid);
    s.append("/keys/sefs/lower");
    s
}

/// The mount option string naming a backing directory: `dir=<path>`.
pub fn dir_mount_options(dir: &str) -> (r: String)
    ensures
        r@ == "dir="@ + dir@,
{
    let mut s = String::new();
    s.append("dir=");
    s.append(dir);
    s
}

/// Joins a directory and a child name with a single `/`.
pub fn path_join(dir: &str, child: &str) -> (r: String)
    ensures
        r@ == dir@ + "/"@ + child@,
{
    let mut s = String::new();
    s.append(dir);
    s.append("/");
    s.append(child);
    s
}

} // verus!
