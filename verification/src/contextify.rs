use vstd::prelude::*;

use crate::path::{is_absolute, join_segments, normalize_path, relative_path};
use crate::text::{
    char_len, concat, find_char, first_index_of, lemma_first_index_of, slice_chars, starts_with,
    strings_view, to_chars,
};

verus! {

/// The pieces of `s` between its separators, empty pieces included.
pub open spec fn split_on(s: Seq<char>, sep: char) -> Seq<Seq<char>>
    decreases s.len(),
{
    if s.len() == 0 {
        seq![Seq::empty()]
    } else {
        let head = split_on(s.drop_last(), sep);
        if s.last() == sep {
            head.push(Seq::empty())
        } else {
            head.drop_last().push(head.last().push(s.last()))
        }
    }
}

/// The request that stands for a relative path: the path behind `./`,
/// unless it leads upward; `./.` for the place itself and `../.` for the
/// place above.
pub open spec fn request_of_relative(rel: Seq<char>) -> Seq<char> {
    if rel.len() == 0 {
        "./."@
    } else if rel == ".."@ {
        "../."@
    } else if "../"@.is_prefix_of(rel) {
        rel
    } else {
        "./"@ + rel
    }
}

/// Whether a part of a request names a rooted path. A rooted text of more
/// than one character that ends in `/` is a pattern, not a path.
pub open spec fn is_rooted_path(part: Seq<char>) -> bool {
    is_absolute(part) && !(part.len() > 1 && part.last() == '/')
}

/// A part of a request with `relative` as the path that leads to its
/// resource: the request of the relative path, and the query of the part
/// behind it.
pub open spec fn part_with_relative(part: Seq<char>, relative: Seq<char>) -> Seq<char> {
    request_of_relative(relative) + part.subrange(
        first_index_of(part, '?'),
        part.len() as int,
    )
}

/// A part of a request as it is named from the rooted directory `context`:
/// a rooted path by the path that leads to it from there, every other part
/// as it is.
pub open spec fn part_from(context: Seq<char>, part: Seq<char>) -> Seq<char> {
    if is_rooted_path(part) {
        part_with_relative(
            part,
            relative_path(context, part.subrange(0, first_index_of(part, '?'))),
        )
    } else {
        part
    }
}

/// A request as it is named from the rooted directory `context`: each of
/// its parts between `!`, named from there.
pub open spec fn contextified(context: Seq<char>, request: Seq<char>) -> Seq<char> {
    let parts = split_on(request, '!');
    join_segments(Seq::new(parts.len(), |i: int| part_from(context, parts[i])), '!')
}

/// The request that stands for a relative path.
pub fn relative_path_to_request(rel: &str) -> (r: String)
    ensures
        r@ == request_of_relative(rel@),
{
    if char_len(rel) == 0 {
        "./.".to_owned()
    } else if rel.to_owned() == "..".to_owned() {
        "../.".to_owned()
    } else if starts_with(rel, "../") {
        rel.to_owned()
    } else {
        concat("./", rel)
    }
}

/// A part of a request, given the path that leads to its resource.
pub fn part_to_request(part: &str, relative: &str) -> (r: String)
    ensures
        r@ == part_with_relative(part@, relative@),
{
    proof {
        lemma_first_index_of(part@, '?');
    }
    let n = char_len(part);
    let query = match find_char(part, '?') {
        Some(index) => slice_chars(part, index, n),
        None => slice_chars(part, n, n),
    };
    let request = relative_path_to_request(relative);
    concat(request.as_str(), query.as_str())
}

/// A part of a request as it is named from the directory `context`. Where
/// the part is a rooted path, the path that leads to its resource from the
/// context is put in its place, with the query of the part behind it.
pub fn absolute_to_request(context: &str, maybe_absolute_path: &str) -> (r: String)
    ensures
        !is_rooted_path(maybe_absolute_path@) ==> r@ == maybe_absolute_path@,
        is_rooted_path(maybe_absolute_path@) ==> exists|relative: Seq<char>|
            r@ == #[trigger] part_with_relative(maybe_absolute_path@, relative),
        is_absolute(context@) ==> r@ == part_from(context@, maybe_absolute_path@),
{
    let v = to_chars(maybe_absolute_path);
    if v.len() == 0 || v[0] != '/' || (v.len() > 1 && v[v.len() - 1] == '/') {
        return maybe_absolute_path.to_owned();
    }
    proof {
        lemma_first_index_of(maybe_absolute_path@, '?');
    }
    let resource = match find_char(maybe_absolute_path, '?') {
        Some(index) => slice_chars(maybe_absolute_path, 0, index),
        None => slice_chars(maybe_absolute_path, 0, v.len()),
    };
    assert(is_absolute(resource@));
    let relative = normalize_path(resource.as_str(), context);
    let r = part_to_request(maybe_absolute_path, relative.as_str());
    assert(r@ == part_with_relative(maybe_absolute_path@, relative@));
    r
}

/// The request as it is named from the directory `context`: each part
/// between `!` that is a rooted path is named by the path that leads to it
/// from there.
pub fn contextify(context: &str, request: &str) -> (r: String)
    ensures
        is_absolute(context@) ==> r@ == contextified(context@, request@),
{
    let v = to_chars(request);
    let ghost parts = split_on(v@, '!');
    let mut out = String::new();
    let mut done: Ghost<Seq<Seq<char>>> = Ghost(Seq::empty());
    let mut start: usize = 0;
    let mut i: usize = 0;
    proof {
        assert(v@.subrange(0, 0) == Seq::<char>::empty());
        assert(Seq::<Seq<char>>::empty().push(v@.subrange(0, 0)) == seq![Seq::<char>::empty()]);
    }
    while i < v.len()
        invariant
            0 <= start <= i <= v.len(),
            v@ == request@,
            split_on(v@.subrange(0, i as int), '!').len() == done@.len() + 1,
            split_on(v@.subrange(0, i as int), '!').last() == v@.subrange(start as int, i as int),
            is_absolute(context@) ==> forall|k: int|
                0 <= k < done@.len() ==> #[trigger] done@[k] == part_from(
                    context@,
                    split_on(v@.subrange(0, i as int), '!')[k],
                ),
            is_absolute(context@) ==> out@ == join_segments(done@, '!') + if done@.len() > 0 {
                seq!['!']
            } else {
                Seq::empty()
            },
        decreases v.len() - i,
    {
        let ghost before = v@.subrange(0, i as int);
        let ghost split_before = split_on(before, '!');
        if v[i] == '!' {
            let part = slice_chars(request, start, i);
            let named = absolute_to_request(context, part.as_str());
            let ghost joined = out@;
            out.append(named.as_str());
            proof {
                reveal_strlit("!");
            }
            out.append("!");
            proof {
                let kept = done@;
                done@ = kept.push(named@);
                if is_absolute(context@) {
                    if kept.len() == 0 {
                        assert(joined == Seq::<char>::empty());
                        assert(join_segments(done@, '!') == named@);
                    } else {
                        assert(done@.drop_last() == kept);
                        assert(join_segments(done@, '!') == join_segments(kept, '!').push('!')
                            + named@);
                    }
                    assert(out@ == join_segments(done@, '!') + seq!['!']);
                }
            }
            start = i + 1;
        }
        i = i + 1;
        proof {
            let now = v@.subrange(0, i as int);
            assert(now.drop_last() == before);
            assert(now.last() == v@[i - 1]);
            let split_now = split_on(now, '!');
            if v@[i - 1] == '!' {
                assert(split_now == split_before.push(Seq::empty()));
                assert(v@.subrange(start as int, i as int) == Seq::<char>::empty());
            } else {
                assert(v@.subrange(start as int, i as int) == split_before.last().push(
                    v@[i - 1],
                ));
            }
            if is_absolute(context@) {
                assert forall|k: int| 0 <= k < done@.len() implies #[trigger] done@[k]
                    == part_from(context@, split_now[k]) by {
                    assert(split_now[k] == split_before[k]);
                }
            }
        }
    }
    proof {
        assert(v@.subrange(0, i as int) == v@);
    }
    let part = slice_chars(request, start, i);
    let named = absolute_to_request(context, part.as_str());
    let ghost joined = out@;
    out.append(named.as_str());
    proof {
        if is_absolute(context@) {
            let all = Seq::new(parts.len(), |k: int| part_from(context@, parts[k]));
            assert(parts.last() == part@);
            assert forall|k: int| 0 <= k < all.len() implies all[k] == done@.push(named@)[k] by {
                if k < done@.len() {
                    assert(done@[k] == part_from(context@, parts[k]));
                }
            }
            assert(all == done@.push(named@));
            assert(done@.push(named@).drop_last() =~= done@);
            assert(all.drop_last() == done@);
            if done@.len() == 0 {
                assert(joined == Seq::<char>::empty());
                assert(out@ == named@);
            } else {
                assert(joined == join_segments(done@, '!').push('!'));
            }
        }
    }
    out
}

} // verus!
