use vstd::prelude::*;

verus! {

/// The mathematical value of joining `parts` with `sep` between
/// consecutive parts: empty for no parts, and no separator before the
/// first or after the last part.
pub open spec fn spec_join(parts: Seq<Seq<char>>, sep: Seq<char>) -> Seq<char>
    decreases parts.len(),
{
    if parts.len() == 0 {
        Seq::empty()
    } else if parts.len() == 1 {
        parts[0]
    } else {
        spec_join(parts.drop_last(), sep) + sep + parts.last()
    }
}

/// `needle` occurs contiguously somewhere inside `hay`.
pub open spec fn contains_subrange(hay: Seq<char>, needle: Seq<char>) -> bool {
    exists|j: int|
        0 <= j && j + needle.len() <= hay.len() && #[trigger] hay.subrange(j, j + needle.len())
            == needle
}

/// Law: joining loses no part — each part occurs contiguously in the
/// joined string.
pub proof fn lemma_join_contains_part(parts: Seq<Seq<char>>, sep: Seq<char>, i: int)
    requires
        0 <= i < parts.len(),
    ensures
        contains_subrange(spec_join(parts, sep), parts[i]),
    decreases parts.len(),
{
    let joined = spec_join(parts, sep);
    let entry = parts[i];
    if parts.len() == 1 {
        let j: int = 0;
        assert(joined.subrange(j, j + entry.len()) =~= entry);
        assert(contains_subrange(joined, entry));
    } else if i == parts.len() - 1 {
        let head = spec_join(parts.drop_last(), sep);
        let j = head.len() as int + sep.len() as int;
        assert(joined == head + sep + parts.last());
        assert(parts.last() == entry);
        assert(joined.len() == head.len() + sep.len() + entry.len());
        assert(joined.subrange(j, j + entry.len()) =~= entry);
        assert(contains_subrange(joined, entry));
    } else {
        lemma_join_contains_part(parts.drop_last(), sep, i);
        let head = spec_join(parts.drop_last(), sep);
        assert(parts.drop_last()[i] == entry);
        let j = choose|j: int|
            0 <= j && j + entry.len() <= head.len() && #[trigger] head.subrange(
                j,
                j + entry.len(),
            ) == entry;
        assert(joined.subrange(j, j + entry.len()) =~= entry);
        assert(contains_subrange(joined, entry));
    }
}

/// Joins the strings of `parts` with `sep` between consecutive entries,
/// as `[..].join(sep)` renders them.
pub fn join_strings(parts: &Vec<String>, sep: &str) -> (r: String)
    ensures
        r@ == spec_join(parts.deep_view(), sep@),
{
    if parts.len() == 0 {
        let r = String::new();
        return r;
    }
    let mut r = String::from_str(parts[0].as_str());
    let mut i: usize = 1;
    while i < parts.len()
        invariant
            1 <= i <= parts.len(),
            r@ == spec_join(parts.deep_view().take(i as int), sep@),
        decreases parts.len() - i,
    {
        r.append(sep);
        r.append(parts[i].as_str());
        proof {
            let dv = parts.deep_view();
            let k = i as int;
            assert(dv.take(k + 1).drop_last() =~= dv.take(k));
            assert(dv.take(k + 1).last() == dv[k]);
            assert(spec_join(dv.take(k + 1), sep@) == spec_join(dv.take(k), sep@) + sep@ + dv[k]);
        }
        i = i + 1;
    }
    proof {
        assert(parts.deep_view().take(parts.len() as int) =~= parts.deep_view());
    }
    r
}

} // verus!
