use sugar_path::SugarPath;
use vstd::prelude::*;

use crate::text::{concat, slice_chars, to_chars};

verus! {

/// Whether a path starts at the file system root (paths are separated by `/`).
pub open spec fn is_absolute(path: Seq<char>) -> bool {
    path.len() > 0 && path[0] == '/'
}

/// The pieces of `s` between its `/` separators, empty pieces included.
pub open spec fn split_path(s: Seq<char>) -> Seq<Seq<char>>
    decreases s.len(),
{
    if s.len() == 0 {
        seq![Seq::empty()]
    } else {
        let head = split_path(s.drop_last());
        if s.last() == '/' {
            head.push(Seq::empty())
        } else {
            head.drop_last().push(head.last().push(s.last()))
        }
    }
}

/// Where the pieces of `split_path` begin and end in `s`.
pub open spec fn segment_bounds(s: Seq<char>) -> Seq<(int, int)>
    decreases s.len(),
{
    if s.len() == 0 {
        seq![(0, 0)]
    } else {
        let head = segment_bounds(s.drop_last());
        if s.last() == '/' {
            head.push((s.len() as int, s.len() as int))
        } else {
            head.drop_last().push((head.last().0, s.len() as int))
        }
    }
}

/// A segment that names something: neither empty nor `.`.
pub open spec fn is_named_segment(seg: Seq<char>) -> bool {
    seg.len() > 0 && seg != seq!['.']
}

/// A segment that names a file or directory: neither empty, `.` nor `..`.
pub open spec fn is_normal_segment(seg: Seq<char>) -> bool {
    is_named_segment(seg) && seg != seq!['.', '.']
}

/// The normal segments among `segs`, in order.
pub open spec fn keep_normal(segs: Seq<Seq<char>>) -> Seq<Seq<char>>
    decreases segs.len(),
{
    if segs.len() == 0 {
        segs
    } else if is_normal_segment(segs.last()) {
        keep_normal(segs.drop_last()).push(segs.last())
    } else {
        keep_normal(segs.drop_last())
    }
}

/// The last named segment among `segs`.
pub open spec fn last_named(segs: Seq<Seq<char>>) -> Option<Seq<char>>
    decreases segs.len(),
{
    if segs.len() == 0 {
        None
    } else if is_named_segment(segs.last()) {
        Some(segs.last())
    } else {
        last_named(segs.drop_last())
    }
}

/// The file name of a path: its last named segment, unless that is `..`.
pub open spec fn file_name_of(path: Seq<char>) -> Option<Seq<char>> {
    match last_named(split_path(path)) {
        Some(name) => if is_normal_segment(name) {
            Some(name)
        } else {
            None
        },
        None => None,
    }
}

/// The position of the last `c` in `s`, or -1 when `c` does not occur.
pub open spec fn last_index_of(s: Seq<char>, c: char) -> int
    decreases s.len(),
{
    if s.len() == 0 {
        -1
    } else if s.last() == c {
        s.len() - 1
    } else {
        last_index_of(s.drop_last(), c)
    }
}

/// The extension of a file name: what follows its last `.`, provided that
/// dot is not the first character. Empty when there is none.
pub open spec fn extension_of(name: Seq<char>) -> Seq<char> {
    let dot = last_index_of(name, '.');
    if dot > 0 {
        name.subrange(dot + 1, name.len() as int)
    } else {
        Seq::empty()
    }
}

/// The file name without its extension and the dot before it.
pub open spec fn stem_of(name: Seq<char>) -> Seq<char> {
    let dot = last_index_of(name, '.');
    if dot > 0 {
        name.subrange(0, dot)
    } else {
        name
    }
}

/// The parts joined into one text with `sep` between neighbours.
pub open spec fn join_segments(parts: Seq<Seq<char>>, sep: char) -> Seq<char>
    decreases parts.len(),
{
    if parts.len() == 0 {
        Seq::empty()
    } else if parts.len() == 1 {
        parts[0]
    } else {
        join_segments(parts.drop_last(), sep).push(sep) + parts.last()
    }
}

/// The segments that make up a chunk name: the normal segments of the path,
/// the file name replaced by its stem (left out when the stem is no normal
/// segment).
pub open spec fn chunk_parts_of(rel: Seq<char>) -> Seq<Seq<char>> {
    let normals = keep_normal(split_path(rel));
    match file_name_of(rel) {
        Some(name) => {
            let dirs = normals.drop_last();
            if is_normal_segment(stem_of(name)) {
                dirs.push(stem_of(name))
            } else {
                dirs
            }
        },
        None => normals,
    }
}

/// The chunk name of a relative path: its chunk parts joined by `_`, then
/// `_` and the extension of the file name.
pub open spec fn chunk_name_of(rel: Seq<char>) -> Seq<char> {
    let ext = match file_name_of(rel) {
        Some(name) => extension_of(name),
        None => Seq::empty(),
    };
    join_segments(chunk_parts_of(rel), '_').push('_') + ext
}

/// The module id of a relative path: the path behind `./`. A rooted path
/// stands for itself.
pub open spec fn module_id_of(rel: Seq<char>) -> Seq<char> {
    if is_absolute(rel) {
        rel
    } else {
        seq!['.', '/'] + rel
    }
}

/// Where a file name exists it is the last normal segment of the path.
pub proof fn lemma_file_name_is_last_normal(segs: Seq<Seq<char>>)
    ensures
        match last_named(segs) {
            Some(name) => is_normal_segment(name) ==> keep_normal(segs).len() > 0 && keep_normal(
                segs,
            ).last() == name,
            None => keep_normal(segs).len() == 0,
        },
    decreases segs.len(),
{
    if segs.len() > 0 {
        lemma_file_name_is_last_normal(segs.drop_last());
    }
}

/// The text of `v` that each range of `r` marks.
spec fn ranges_view(v: Seq<char>, r: Seq<(usize, usize)>) -> Seq<Seq<char>> {
    Seq::new(r.len(), |k: int| v.subrange(r[k].0 as int, r[k].1 as int))
}

/// Every range of `r` lies inside `v`.
spec fn ranges_ok(v: Seq<char>, r: Seq<(usize, usize)>) -> bool {
    forall|k: int| 0 <= k < r.len() ==> 0 <= (#[trigger] r[k]).0 <= r[k].1 <= v.len()
}

/// The ranges as pairs of positions.
spec fn bounds_of(r: Seq<(usize, usize)>) -> Seq<(int, int)> {
    Seq::new(r.len(), |k: int| (r[k].0 as int, r[k].1 as int))
}

fn segment_ranges(v: &Vec<char>) -> (r: Vec<(usize, usize)>)
    ensures
        ranges_ok(v@, r@),
        ranges_view(v@, r@) == split_path(v@),
        bounds_of(r@) == segment_bounds(v@),
{
    let mut r: Vec<(usize, usize)> = Vec::new();
    let mut start: usize = 0;
    let mut i: usize = 0;
    proof {
        assert(v@.subrange(0, 0) == Seq::<char>::empty());
        assert(ranges_view(v@, r@).push(v@.subrange(0, 0)) == seq![Seq::<char>::empty()]);
        assert(bounds_of(r@).push((0, 0)) == seq![(0int, 0int)]);
    }
    while i < v.len()
        invariant
            0 <= start <= i <= v.len(),
            ranges_ok(v@, r@),
            split_path(v@.subrange(0, i as int)) == ranges_view(v@, r@).push(
                v@.subrange(start as int, i as int),
            ),
            segment_bounds(v@.subrange(0, i as int)) == bounds_of(r@).push(
                (start as int, i as int),
            ),
        decreases v.len() - i,
    {
        let ghost before = v@.subrange(0, i as int);
        let ghost done = ranges_view(v@, r@);
        let ghost marks = bounds_of(r@);
        let ghost cur = v@.subrange(start as int, i as int);
        let ghost began = start;
        if v[i] == '/' {
            r.push((start, i));
            start = i + 1;
        }
        i = i + 1;
        proof {
            let now = v@.subrange(0, i as int);
            assert(now.drop_last() == before);
            assert(now.last() == v@[i - 1]);
            assert(split_path(before).last() == cur);
            assert(split_path(before).drop_last() == done);
            assert(segment_bounds(before).last() == (began as int, i - 1));
            assert(segment_bounds(before).drop_last() == marks);
            if v@[i - 1] == '/' {
                assert(ranges_view(v@, r@) == done.push(cur));
                assert(bounds_of(r@) == marks.push((began as int, i - 1)));
                assert(v@.subrange(start as int, i as int) == Seq::<char>::empty());
            } else {
                assert(v@.subrange(start as int, i as int) == cur.push(v@[i - 1]));
            }
        }
    }
    proof {
        assert(v@.subrange(0, i as int) == v@);
    }
    let ghost done = ranges_view(v@, r@);
    let ghost marks = bounds_of(r@);
    r.push((start, i));
    proof {
        assert(ranges_view(v@, r@) == done.push(v@.subrange(start as int, i as int)));
        assert(bounds_of(r@) == marks.push((start as int, i as int)));
    }
    r
}

fn range_is_named(v: &Vec<char>, a: usize, b: usize) -> (r: bool)
    requires
        a <= b <= v.len(),
    ensures
        r == is_named_segment(v@.subrange(a as int, b as int)),
{
    let ghost seg = v@.subrange(a as int, b as int);
    if b == a {
        false
    } else if b - a == 1 && v[a] == '.' {
        proof {
            assert(seg == seq!['.']);
        }
        false
    } else {
        proof {
            let dot = seq!['.'];
            assert(dot.len() == 1 && dot[0] == '.');
            assert(seg.len() == b - a && seg[0] == v@[a as int]);
        }
        true
    }
}

fn range_is_normal(v: &Vec<char>, a: usize, b: usize) -> (r: bool)
    requires
        a <= b <= v.len(),
    ensures
        r == is_normal_segment(v@.subrange(a as int, b as int)),
{
    let ghost seg = v@.subrange(a as int, b as int);
    if !range_is_named(v, a, b) {
        false
    } else if b - a == 2 && v[a] == '.' && v[a + 1] == '.' {
        proof {
            assert(seg == seq!['.', '.']);
        }
        false
    } else {
        proof {
            let up = seq!['.', '.'];
            assert(up.len() == 2 && up[0] == '.' && up[1] == '.');
            assert(seg.len() == b - a && seg[0] == v@[a as int]);
            if b - a == 2 {
                assert(seg[1] == v@[a + 1]);
            }
        }
        true
    }
}

fn last_dot_in(v: &Vec<char>, a: usize, b: usize) -> (r: Option<usize>)
    requires
        a <= b <= v.len(),
    ensures
        match r {
            Some(d) => a <= d < b && last_index_of(v@.subrange(a as int, b as int), '.') == d - a,
            None => last_index_of(v@.subrange(a as int, b as int), '.') == -1,
        },
{
    let mut found: Option<usize> = None;
    let mut j: usize = a;
    while j < b
        invariant
            a <= j <= b <= v.len(),
            match found {
                Some(d) => a <= d < j && last_index_of(v@.subrange(a as int, j as int), '.') == d
                    - a,
                None => last_index_of(v@.subrange(a as int, j as int), '.') == -1,
            },
        decreases b - j,
    {
        let ghost before = v@.subrange(a as int, j as int);
        if v[j] == '.' {
            found = Some(j);
        }
        j = j + 1;
        proof {
            let now = v@.subrange(a as int, j as int);
            assert(now.drop_last() == before);
            assert(now.last() == v@[j - 1]);
        }
    }
    found
}

fn join_ranges(s: &str, parts: &Vec<(usize, usize)>) -> (r: String)
    requires
        ranges_ok(s@, parts@),
    ensures
        r@ == join_segments(ranges_view(s@, parts@), '_'),
{
    let ghost all = ranges_view(s@, parts@);
    let mut out = String::new();
    let mut k: usize = 0;
    while k < parts.len()
        invariant
            0 <= k <= parts.len(),
            ranges_ok(s@, parts@),
            all == ranges_view(s@, parts@),
            out@ == join_segments(all.take(k as int), '_'),
        decreases parts.len() - k,
    {
        let (a, b) = parts[k];
        let piece = slice_chars(s, a, b);
        let ghost before = out@;
        if k > 0 {
            proof {
                reveal_strlit("_");
            }
            out.append("_");
            assert(out@ == before.push('_'));
        }
        out.append(piece.as_str());
        proof {
            let now = all.take(k + 1);
            assert(now.drop_last() == all.take(k as int));
            assert(now.last() == piece@);
            if k == 0 {
                assert(before == Seq::<char>::empty());
                assert(out@ == piece@);
            }
        }
        k = k + 1;
    }
    proof {
        assert(all.take(k as int) == all);
    }
    out
}

/// The chunk name that stands for a path relative to the project root:
/// its directories and the stem of its file name joined by `_`, followed by
/// `_` and the file's extension.
pub fn chunk_name_from_relative(rel: &str) -> (name: String)
    ensures
        name@ == chunk_name_of(rel@),
{
    let v = to_chars(rel);
    let segs = segment_ranges(&v);
    let mut normals: Vec<(usize, usize)> = Vec::new();
    let mut named: Option<(usize, usize)> = None;
    let ghost all = split_path(v@);
    let mut k: usize = 0;
    while k < segs.len()
        invariant
            0 <= k <= segs.len(),
            ranges_ok(v@, segs@),
            ranges_ok(v@, normals@),
            all == ranges_view(v@, segs@),
            ranges_view(v@, normals@) == keep_normal(all.take(k as int)),
            match named {
                Some(n) => n.0 <= n.1 <= v@.len() && last_named(all.take(k as int)) == Some(
                    v@.subrange(n.0 as int, n.1 as int),
                ),
                None => last_named(all.take(k as int)) is None,
            },
        decreases segs.len() - k,
    {
        let (a, b) = segs[k];
        let ghost kept = ranges_view(v@, normals@);
        proof {
            let now = all.take(k + 1);
            assert(now.drop_last() == all.take(k as int));
            assert(now.last() == v@.subrange(a as int, b as int));
        }
        if range_is_normal(&v, a, b) {
            normals.push((a, b));
            proof {
                assert(ranges_view(v@, normals@) == kept.push(v@.subrange(a as int, b as int)));
            }
        }
        if range_is_named(&v, a, b) {
            named = Some((a, b));
        }
        k = k + 1;
    }
    proof {
        assert(all.take(k as int) == all);
        lemma_file_name_is_last_normal(all);
    }
    let mut ext: (usize, usize) = (0, 0);
    if let Some((a, b)) = named {
        if range_is_normal(&v, a, b) {
            let ghost name = v@.subrange(a as int, b as int);
            let ghost kept = ranges_view(v@, normals@);
            let mut stem_end: usize = b;
            if let Some(d) = last_dot_in(&v, a, b) {
                if d > a {
                    stem_end = d;
                    ext = (d + 1, b);
                    proof {
                        assert(v@.subrange(d + 1, b as int) == extension_of(name));
                        assert(v@.subrange(a as int, d as int) == stem_of(name));
                    }
                }
            }
            proof {
                assert(v@.subrange(a as int, stem_end as int) == stem_of(name));
                assert(v@.subrange(ext.0 as int, ext.1 as int) == extension_of(name));
            }
            normals.pop();
            proof {
                assert(ranges_view(v@, normals@) == kept.drop_last());
            }
            if range_is_normal(&v, a, stem_end) {
                let ghost dirs = ranges_view(v@, normals@);
                normals.push((a, stem_end));
                proof {
                    assert(ranges_view(v@, normals@) == dirs.push(stem_of(name)));
                }
            }
        }
    }
    proof {
        assert(ranges_view(v@, normals@) == chunk_parts_of(rel@));
        if file_name_of(rel@) is None {
            assert(v@.subrange(ext.0 as int, ext.1 as int) == Seq::<char>::empty());
        }
        reveal_strlit("_");
    }
    let mut out = join_ranges(rel, &normals);
    let ghost joined = out@;
    out.append("_");
    assert(out@ == joined.push('_'));
    let tail = slice_chars(rel, ext.0, ext.1);
    out.append(tail.as_str());
    out
}

/// The module id that stands for a path relative to the project root.
pub fn module_id_from_relative(rel: &str) -> (id: String)
    ensures
        id@ == module_id_of(rel@),
{
    let v = to_chars(rel);
    if v.len() > 0 && v[0] == '/' {
        rel.to_owned()
    } else {
        proof {
            reveal_strlit("./");
            assert("./"@ == seq!['.', '/']);
        }
        concat("./", rel)
    }
}

/// Whether the segment at position `k` is a component of the path: a named
/// segment, or a `.` with which the path begins.
pub open spec fn is_component_at(path: Seq<char>, k: int) -> bool {
    let seg = split_path(path)[k];
    is_named_segment(seg) || (k == 0 && seg == seq!['.'])
}

/// The position of the last component among the first `n` segments of the
/// path; -1 where there is none.
pub open spec fn last_component(path: Seq<char>, n: int) -> int
    decreases n,
{
    if n <= 0 {
        -1
    } else if is_component_at(path, n - 1) {
        n - 1
    } else {
        last_component(path, n - 1)
    }
}

/// The directory that holds what a path names: the path up to the end of
/// the component before its last one; the root for an entry of the root;
/// and nothing for a path of one component or none.
pub open spec fn parent_of(path: Seq<char>) -> Seq<char> {
    let last = last_component(path, split_path(path).len() as int);
    let before = last_component(path, last);
    if before >= 0 {
        path.subrange(0, segment_bounds(path)[before].1)
    } else if last >= 0 && is_absolute(path) {
        seq!['/']
    } else {
        Seq::empty()
    }
}

fn component_before(v: &Vec<char>, segs: &Vec<(usize, usize)>, n: usize) -> (r: Option<usize>)
    requires
        ranges_ok(v@, segs@),
        ranges_view(v@, segs@) == split_path(v@),
        n <= segs@.len(),
    ensures
        match r {
            Some(k) => k < n && last_component(v@, n as int) == k,
            None => last_component(v@, n as int) == -1,
        },
{
    let mut i: usize = n;
    while i > 0
        invariant
            0 <= i <= n <= segs@.len(),
            ranges_ok(v@, segs@),
            ranges_view(v@, segs@) == split_path(v@),
            last_component(v@, i as int) == last_component(v@, n as int),
        decreases i,
    {
        let (a, b) = segs[i - 1];
        assert(ranges_view(v@, segs@)[i - 1] == v@.subrange(a as int, b as int));
        let leading_dot = i == 1 && b - a == 1 && v[a] == '.';
        proof {
            let seg = v@.subrange(a as int, b as int);
            let dot = seq!['.'];
            assert(dot.len() == 1 && dot[0] == '.');
            if leading_dot {
                assert(seg == dot);
            } else if i == 1 && seg == dot {
                assert(seg[0] == v@[a as int]);
            }
        }
        if leading_dot || range_is_named(v, a, b) {
            return Some(i - 1);
        }
        i = i - 1;
    }
    None
}

/// The directory that holds what a path names.
pub fn parent_directory(path: &str) -> (parent: String)
    ensures
        parent@ == parent_of(path@),
{
    let v = to_chars(path);
    let segs = segment_ranges(&v);
    let last = match component_before(&v, &segs, segs.len()) {
        Some(k) => k,
        None => {
            return String::new();
        },
    };
    match component_before(&v, &segs, last) {
        Some(k) => {
            assert(bounds_of(segs@)[k as int] == (segs@[k as int].0 as int, segs@[k as int].1 as int));
            slice_chars(path, 0, segs[k].1)
        },
        None => if v.len() > 0 && v[0] == '/' {
            proof {
                reveal_strlit("/");
                assert("/"@ == seq!['/']);
            }
            "/".to_owned()
        } else {
            String::new()
        },
    }
}

/// What sugar_path gives as the path from `base` to `target`, both rooted.
pub uninterp spec fn relative_path(base: Seq<char>, target: Seq<char>) -> Seq<char>;

/// Calls `SugarPath::try_relative` of sugar_path on `target` with `base`.
/// The contract claims that two rooted paths always have a relative path,
/// found without looking at the process's working directory, and that this
/// path depends on the two texts alone. Of other inputs nothing is claimed:
/// they are resolved against the working directory, and `None` means that
/// it could not be read.
#[verifier::external_body]
fn relative_from(base: &str, target: &str) -> (r: Option<String>)
    ensures
        is_absolute(base@) && is_absolute(target@) ==> r.is_some(),
        is_absolute(base@) && is_absolute(target@) ==> r.unwrap()@ == relative_path(base@, target@),
{
    match target.try_relative(base) {
        Ok(p) => Some(p.to_string_lossy().into_owned()),
        Err(_) => None,
    }
}

/// The path that leads from `root` to `path`. Where the working directory is
/// needed and cannot be read, `path` is returned as it was given.
pub fn normalize_path(path: &str, root: &str) -> (r: String)
    ensures
        is_absolute(path@) && is_absolute(root@) ==> r@ == relative_path(root@, path@),
{
    match relative_from(root, path) {
        Some(rel) => rel,
        None => path.to_owned(),
    }
}

/// The chunk name of the resource `uri` inside the project at `root`.
pub fn uri_to_chunk_name(root: &str, uri: &str) -> (name: String)
    ensures
        exists|rel: Seq<char>| name@ == chunk_name_of(rel),
        is_absolute(root@) && is_absolute(uri@) ==> name@ == chunk_name_of(
            relative_path(root@, uri@),
        ),
{
    let rel = normalize_path(uri, root);
    chunk_name_from_relative(rel.as_str())
}

/// The module id of the resource `uri` inside the project at `root`.
pub fn gen_module_id(root: &str, uri: &str) -> (id: String)
    ensures
        exists|rel: Seq<char>| id@ == module_id_of(rel),
        is_absolute(root@) && is_absolute(uri@) ==> id@ == module_id_of(
            relative_path(root@, uri@),
        ),
{
    let rel = normalize_path(uri, root);
    module_id_from_relative(rel.as_str())
}

} // verus!
