use vstd::prelude::*;

verus! {

/// The comma-separated rendering of a token list: the parts themselves, in
/// order, joined by ", ", with nothing added before the first or after the
/// last; the empty list renders as the empty text.
pub open spec fn comma_join(parts: Seq<Seq<char>>) -> Seq<char>
    decreases parts.len(),
{
    if parts.len() == 0 {
        Seq::empty()
    } else if parts.len() == 1 {
        parts[0]
    } else {
        comma_join(parts.drop_last()) + ", "@ + parts.last()
    }
}

/// Each part enters the joined text verbatim and in order: a list of one
/// part renders as that part alone, and appending a part to a non-empty
/// list appends exactly a separator and that part.
pub proof fn lemma_comma_join_verbatim(parts: Seq<Seq<char>>, p: Seq<char>)
    ensures
        comma_join(seq![p]) == p,
        parts.len() >= 1 ==> comma_join(parts.push(p)) == comma_join(parts) + ", "@ + p,
{
    if parts.len() >= 1 {
        assert(parts.push(p).drop_last() =~= parts);
    }
}

proof fn lemma_comma_join_take_step(parts: Seq<Seq<char>>, i: int)
    requires
        1 <= i < parts.len(),
    ensures
        comma_join(parts.take(i + 1)) == comma_join(parts.take(i)) + ", "@ + parts[i],
{
    assert(parts.take(i + 1).drop_last() =~= parts.take(i));
}

/// Joins token strings with ", ", rendering exactly `comma_join` of the
/// parts' views.
pub fn join_comma(parts: &Vec<String>) -> (r: String)
    ensures
        r@ == comma_join(parts.deep_view()),
{
    let ghost all: Seq<Seq<char>> = parts.deep_view();
    let mut out: String = String::new();
    let n = parts.len();
    for i in 0..n
        invariant
            n == parts.len(),
            all == parts.deep_view(),
            all.len() == n,
            out@ == comma_join(all.take(i as int)),
    {
        if i > 0 {
            out.append(", ");
            proof {
                lemma_comma_join_take_step(all, i as int);
            }
        } else {
            proof {
                assert(all.take(1) =~= seq![all[0]]);
                assert(Seq::<char>::empty() + all[0] =~= all[0]);
            }
        }
        out.append(parts[i].as_str());
    }
    proof {
        assert(all.take(n as int) =~= all);
    }
    out
}

} // verus!
