//! Construction of the target set: the ordered, read-only list of
//! destination rooms fixed at startup.
//!
//! The operator supplies the rooms as one comma-separated value; empty
//! entries are discarded. When nothing is listed, formatted input falls back
//! to a single default room, while raw input defaults to no room at all.

use vstd::prelude::*;
use vstd::string::StrSliceExecFns;

verus! {

/// The comma-separated segments of a value, in order; always at least one
/// segment, and one more segment than there are commas.
pub open spec fn split_commas(s: Seq<char>) -> Seq<Seq<char>>
    decreases s.len(),
{
    if s.len() == 0 {
        seq![Seq::<char>::empty()]
    } else {
        let prev = split_commas(s.drop_last());
        if s.last() == ',' {
            prev.push(Seq::<char>::empty())
        } else {
            prev.update(prev.len() - 1, prev.last().push(s.last()))
        }
    }
}

/// A split always has at least one segment.
pub proof fn lemma_split_commas_nonempty(s: Seq<char>)
    ensures
        split_commas(s).len() >= 1,
    decreases s.len(),
{
    if s.len() > 0 {
        lemma_split_commas_nonempty(s.drop_last());
    }
}

/// The segments with the empty ones discarded, in order.
pub open spec fn drop_empty(parts: Seq<Seq<char>>) -> Seq<Seq<char>>
    decreases parts.len(),
{
    if parts.len() == 0 {
        Seq::<Seq<char>>::empty()
    } else {
        let rest = drop_empty(parts.drop_first());
        if parts[0].len() == 0 {
            rest
        } else {
            seq![parts[0]] + rest
        }
    }
}

/// Discarding empty segments commutes with appending one segment.
proof fn lemma_drop_empty_push(parts: Seq<Seq<char>>, part: Seq<char>)
    ensures
        drop_empty(parts.push(part)) == if part.len() == 0 {
            drop_empty(parts)
        } else {
            drop_empty(parts) + seq![part]
        },
    decreases parts.len(),
{
    if parts.len() == 0 {
        assert(parts.push(part).drop_first() =~= Seq::<Seq<char>>::empty());
        assert(drop_empty(Seq::<Seq<char>>::empty()) == Seq::<Seq<char>>::empty());
        assert(parts.push(part)[0] == part);
        if part.len() != 0 {
            assert(drop_empty(parts.push(part)) =~= drop_empty(parts) + seq![part]);
        }
    } else {
        lemma_drop_empty_push(parts.drop_first(), part);
        assert(parts.push(part).drop_first() =~= parts.drop_first().push(part));
        assert(parts.push(part)[0] == parts[0]);
        if parts[0].len() != 0 {
            if part.len() != 0 {
                assert(seq![parts[0]] + (drop_empty(parts.drop_first()) + seq![part])
                    =~= (seq![parts[0]] + drop_empty(parts.drop_first())) + seq![part]);
            }
        }
    }
}

/// The target rooms named by a comma-separated value: the non-empty
/// segments, in order.
pub open spec fn listed_targets(s: Seq<char>) -> Seq<Seq<char>> {
    drop_empty(split_commas(s))
}

/// Splits a comma-separated value into the target rooms it lists,
/// discarding empty entries.
pub fn parse_targets(s: &str) -> (r: Vec<String>)
    ensures
        r.deep_view() == listed_targets(s@),
{
    let n = s.unicode_len();
    let mut parts: Vec<String> = Vec::new();
    let mut start: usize = 0;
    let mut i: usize = 0;
    proof {
        assert(s@.subrange(0, 0) =~= Seq::<char>::empty());
        assert(s@.subrange(0, 0).len() == 0);
    }
    while i < n
        invariant
            start <= i <= n,
            n == s@.len(),
            split_commas(s@.subrange(0, i as int)) == parts.deep_view().push(
                s@.subrange(start as int, i as int),
            ),
        decreases n - i,
    {
        let ghost done = s@.subrange(0, i as int);
        let ghost cur = s@.subrange(start as int, i as int);
        proof {
            assert(s@.subrange(0, i + 1).drop_last() =~= done);
            assert(s@.subrange(0, i + 1).last() == s@[i as int]);
            lemma_split_commas_nonempty(done);
        }
        let c = s.get_char(i);
        if c == ',' {
            let part = s.substring_char(start, i).to_owned();
            let ghost old_parts = parts.deep_view();
            parts.push(part);
            proof {
                assert(parts.deep_view() =~= old_parts.push(cur));
                assert(split_commas(s@.subrange(0, i + 1))
                    == split_commas(done).push(Seq::<char>::empty()));
                assert(s@.subrange(i + 1, i + 1) =~= Seq::<char>::empty());
            }
            start = i + 1;
        } else {
            proof {
                assert(split_commas(s@.subrange(0, i + 1)) == split_commas(done).update(
                    split_commas(done).len() - 1,
                    split_commas(done).last().push(s@[i as int]),
                ));
                assert(split_commas(done).last() == cur);
                assert(cur.push(s@[i as int]) =~= s@.subrange(start as int, i + 1));
                assert(split_commas(done).update(
                    split_commas(done).len() - 1,
                    s@.subrange(start as int, i + 1),
                ) =~= parts.deep_view().push(s@.subrange(start as int, i + 1)));
            }
        }
        i = i + 1;
    }
    proof {
        assert(s@.subrange(0, n as int) =~= s@);
    }
    let last = s.substring_char(start, n).to_owned();
    let ghost old_parts = parts.deep_view();
    parts.push(last);
    proof {
        assert(parts.deep_view() =~= old_parts.push(s@.subrange(start as int, n as int)));
    }

    let mut out: Vec<String> = Vec::new();
    let mut j: usize = 0;
    proof {
        assert(parts.deep_view().subrange(0, 0) =~= Seq::<Seq<char>>::empty());
        assert(out.deep_view() =~= drop_empty(parts.deep_view().subrange(0, 0)));
    }
    while j < parts.len()
        invariant
            j <= parts@.len(),
            parts.deep_view().len() == parts@.len(),
            forall|k: int| 0 <= k < parts@.len() ==> parts.deep_view()[k] == parts@[k]@,
            out.deep_view() == drop_empty(parts.deep_view().subrange(0, j as int)),
        decreases parts@.len() - j,
    {
        let ghost seen = parts.deep_view().subrange(0, j as int);
        proof {
            assert(parts.deep_view().subrange(0, j + 1) =~= seen.push(parts.deep_view()[j as int]));
            lemma_drop_empty_push(seen, parts.deep_view()[j as int]);
        }
        if !parts[j].as_str().is_empty() {
            let ghost old_out = out.deep_view();
            out.push(parts[j].clone());
            proof {
                assert(out.deep_view() =~= old_out.push(parts.deep_view()[j as int]));
                assert(old_out.push(parts.deep_view()[j as int])
                    =~= old_out + seq![parts.deep_view()[j as int]]);
            }
        }
        j = j + 1;
    }
    proof {
        assert(parts.deep_view().subrange(0, parts@.len() as int) =~= parts.deep_view());
    }
    out
}

/// The room joined when formatted input names no room at all.
pub fn default_room() -> (r: String)
    ensures
        r@ == "#hashpipe"@,
{
    "#hashpipe".to_owned()
}

/// The default nickname.
pub fn default_nickname() -> (r: String)
    ensures
        r@ == "hashpipe"@,
{
    "hashpipe".to_owned()
}

/// The effective target set: the rooms listed, or the single default room
/// when nothing was listed and input is not raw — raw input defaults to no
/// room at all.
pub fn effective_targets(listed: Vec<String>, raw_in: bool) -> (r: Vec<String>)
    ensures
        listed@.len() > 0 || raw_in ==> r == listed,
        listed@.len() == 0 && !raw_in ==> r@.len() == 1 && r@[0]@ == "#hashpipe"@,
{
    if listed.len() > 0 || raw_in {
        listed
    } else {
        let mut v: Vec<String> = Vec::new();
        v.push(default_room());
        v
    }
}

} // verus!
