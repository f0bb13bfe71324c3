//! Confining a requested static asset path to its asset directory.

use vstd::prelude::*;
use crate::routing::{same_text, AssetKind};

verus! {

/// One path segment applied to the directories walked so far; `None` once the walk
/// has left the root.
pub open spec fn step(walk: Option<Seq<Seq<char>>>, seg: Seq<char>) -> Option<Seq<Seq<char>>> {
    match walk {
        None => None,
        Some(dirs) => if seg.len() == 0 || seg == "."@ {
            Some(dirs)
        } else if seg == ".."@ {
            if dirs.len() == 0 {
                None
            } else {
                Some(dirs.drop_last())
            }
        } else {
            Some(dirs.push(seg))
        },
    }
}

/// The walk over the segments that a `/` has closed, and the segment still open.
pub open spec fn scan(s: Seq<char>) -> (Option<Seq<Seq<char>>>, Seq<char>)
    decreases s.len(),
{
    if s.len() == 0 {
        (Some(Seq::empty()), Seq::empty())
    } else {
        let (walk, cur) = scan(s.drop_last());
        if s.last() == '/' {
            (step(walk, cur), Seq::empty())
        } else {
            (walk, cur.push(s.last()))
        }
    }
}

/// The segments that a relative path names under the root, with `.` and empty
/// segments dropped and each `..` undoing the segment before it; `None` when a `..`
/// would climb above the root.
pub open spec fn normalize(s: Seq<char>) -> Option<Seq<Seq<char>>> {
    let (walk, cur) = scan(s);
    step(walk, cur)
}

/// A segment that names an entry of its directory, and nothing above or beside it.
pub open spec fn is_plain_name(seg: Seq<char>) -> bool {
    seg.len() > 0 && !seg.contains('/') && seg != "."@ && seg != ".."@
}

/// Every segment is a plain name.
pub open spec fn all_plain(dirs: Seq<Seq<char>>) -> bool {
    forall|i: int| 0 <= i < dirs.len() ==> is_plain_name(#[trigger] dirs[i])
}

/// The segment still open never contains a `/`.
proof fn lemma_open_segment_has_no_slash(s: Seq<char>)
    ensures
        !scan(s).1.contains('/'),
    decreases s.len(),
{
    if s.len() > 0 {
        lemma_open_segment_has_no_slash(s.drop_last());
        let cur = scan(s.drop_last()).1;
        if s.last() != '/' {
            assert forall|i: int| 0 <= i < cur.push(s.last()).len() implies cur.push(s.last())[i]
                != '/' by {
                if i < cur.len() {
                    assert(cur.push(s.last())[i] == cur[i]);
                }
            }
        }
    }
}

/// A step keeps a walk of plain names made of plain names.
proof fn lemma_step_keeps_plain(walk: Option<Seq<Seq<char>>>, seg: Seq<char>)
    requires
        walk matches Some(dirs) ==> all_plain(dirs),
        !seg.contains('/'),
    ensures
        step(walk, seg) matches Some(dirs) ==> all_plain(dirs),
{
    if let Some(dirs) = walk {
        if !(seg.len() == 0 || seg == "."@ || seg == ".."@) {
            assert(dirs.push(seg)[dirs.len() as int] == seg);
        }
    }
}

/// The walk over closed segments holds only plain names.
proof fn lemma_scan_keeps_plain(s: Seq<char>)
    ensures
        scan(s).0 matches Some(dirs) ==> all_plain(dirs),
    decreases s.len(),
{
    if s.len() > 0 {
        lemma_scan_keeps_plain(s.drop_last());
        lemma_open_segment_has_no_slash(s.drop_last());
        lemma_step_keeps_plain(scan(s.drop_last()).0, scan(s.drop_last()).1);
    }
}

/// A normalized path holds only plain names: no `..`, no `.`, no empty segment, so
/// joined under the root it cannot name anything outside it.
pub proof fn lemma_normalized_stays_inside(s: Seq<char>)
    ensures
        normalize(s) matches Some(dirs) ==> all_plain(dirs),
{
    lemma_scan_keeps_plain(s);
    lemma_open_segment_has_no_slash(s);
    lemma_step_keeps_plain(scan(s).0, scan(s).1);
}

/// Applies a closed segment to the walk held in `dirs` and `escaped`.
fn apply_segment(dirs: &mut Vec<String>, escaped: &mut bool, seg: String)
    ensures
        (if *final(escaped) {
            None
        } else {
            Some(final(dirs)@.map_values(|d: String| d@))
        }) == step(
            if *old(escaped) {
                None
            } else {
                Some(old(dirs)@.map_values(|d: String| d@))
            },
            seg@,
        ),
{
    if *escaped {
        return;
    }
    let ghost before = dirs@.map_values(|d: String| d@);
    if seg.as_str().unicode_len() == 0 || same_text(seg.as_str(), ".") {
    } else if same_text(seg.as_str(), "..") {
        if dirs.len() == 0 {
            *escaped = true;
        } else {
            dirs.pop();
            assert(dirs@.map_values(|d: String| d@) =~= before.drop_last());
        }
    } else {
        dirs.push(seg);
        assert(dirs@.map_values(|d: String| d@) =~= before.push(seg@));
    }
}

/// Resolves a relative asset path to the segments it names under the asset root,
/// or `None` when it would leave the root.
pub fn normalize_path(s: &str) -> (r: Option<Vec<String>>)
    ensures
        match r {
            Some(dirs) => normalize(s@) == Some(dirs@.map_values(|d: String| d@)),
            None => normalize(s@) is None,
        },
{
    let n = s.unicode_len();
    let mut dirs: Vec<String> = Vec::new();
    let mut escaped = false;
    let mut cur = String::new();
    let mut i: usize = 0;
    assert(dirs@.map_values(|d: String| d@) =~= Seq::<Seq<char>>::empty());
    while i < n
        invariant
            n == s@.len(),
            i <= n,
            scan(s@.subrange(0, i as int)) == (
                if escaped {
                    None
                } else {
                    Some(dirs@.map_values(|d: String| d@))
                },
                cur@,
            ),
        decreases n - i,
    {
        let c = s.get_char(i);
        proof {
            assert(s@.subrange(0, i + 1).drop_last() =~= s@.subrange(0, i as int));
            assert(s@.subrange(0, i + 1).last() == c);
        }
        if c == '/' {
            let seg = cur;
            cur = String::new();
            apply_segment(&mut dirs, &mut escaped, seg);
        } else {
            let one = s.substring_char(i, i + 1);
            assert(one@ =~= seq![c]);
            let ghost before = cur@;
            cur.append(one);
            assert(cur@ =~= before.push(c));
        }
        i = i + 1;
    }
    assert(s@.subrange(0, n as int) =~= s@);
    apply_segment(&mut dirs, &mut escaped, cur);
    if escaped {
        None
    } else {
        Some(dirs)
    }
}

/// A static file to serve: its asset directory and the plain names below it.
pub struct AssetPath {
    pub kind: AssetKind,
    pub segments: Vec<String>,
}

/// An asset path with its segments seen as characters.
pub ghost struct AssetPathView {
    pub kind: AssetKind,
    pub segments: Seq<Seq<char>>,
}

impl View for AssetPath {
    type V = AssetPathView;

    open spec fn view(&self) -> AssetPathView {
        AssetPathView { kind: self.kind, segments: self.segments@.map_values(|d: String| d@) }
    }
}

/// The directory, relative to the working directory, that holds each kind of asset.
pub open spec fn asset_root(kind: AssetKind) -> Seq<char> {
    match kind {
        AssetKind::Css => "assets/css"@,
        AssetKind::Js => "assets/js"@,
    }
}

/// Segments joined with `/`, each preceded by one.
pub open spec fn joined(dirs: Seq<Seq<char>>) -> Seq<char>
    decreases dirs.len(),
{
    if dirs.len() == 0 {
        Seq::empty()
    } else {
        joined(dirs.drop_last()) + "/"@ + dirs.last()
    }
}

impl AssetPath {
    /// The file's path relative to the working directory.
    pub fn file_path(&self) -> (r: String)
        ensures
            r@ == asset_root(self.kind) + joined(self@.segments),
    {
        let ghost dirs = self@.segments;
        let mut out = match self.kind {
            AssetKind::Css => String::from_str("assets/css"),
            AssetKind::Js => String::from_str("assets/js"),
        };
        let mut i: usize = 0;
        while i < self.segments.len()
            invariant
                i <= self.segments@.len(),
                dirs == self.segments@.map_values(|d: String| d@),
                out@ == asset_root(self.kind) + joined(dirs.subrange(0, i as int)),
            decreases self.segments@.len() - i,
        {
            proof {
                assert(dirs.subrange(0, i + 1).drop_last() =~= dirs.subrange(0, i as int));
            }
            out.append("/");
            out.append(self.segments[i].as_str());
            assert(out@ =~= asset_root(self.kind) + joined(dirs.subrange(0, i + 1)));
            i = i + 1;
        }
        assert(dirs.subrange(0, i as int) =~= dirs);
        out
    }
}

} // verus!
