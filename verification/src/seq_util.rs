use vstd::prelude::*;

verus! {

/// The first element of `s` that satisfies `p`, if any.
pub open spec fn first_where<A>(s: Seq<A>, p: spec_fn(A) -> bool) -> Option<A>
    decreases s.len(),
{
    if s.len() == 0 {
        None
    } else if p(s[0]) {
        Some(s[0])
    } else {
        first_where(s.drop_first(), p)
    }
}

/// Searching from `i` on skips an element that fails `p`.
pub proof fn lemma_first_where_step<A>(s: Seq<A>, p: spec_fn(A) -> bool, i: int)
    requires
        0 <= i < s.len(),
    ensures
        p(s[i]) ==> first_where(s.subrange(i, s.len() as int), p) == Some(s[i]),
        !p(s[i]) ==> first_where(s.subrange(i, s.len() as int), p) == first_where(
            s.subrange(i + 1, s.len() as int),
            p,
        ),
{
    assert(s.subrange(i, s.len() as int).drop_first() =~= s.subrange(i + 1, s.len() as int));
}

/// What `first_where` finds satisfies the predicate and is an element of the sequence,
/// and it finds nothing only where no element satisfies the predicate.
pub proof fn lemma_first_where_found<A>(s: Seq<A>, p: spec_fn(A) -> bool)
    ensures
        first_where(s, p) matches Some(x) ==> p(x) && s.contains(x),
        first_where(s, p) is None <==> forall|i: int| 0 <= i < s.len() ==> !p(#[trigger] s[i]),
    decreases s.len(),
{
    if s.len() > 0 {
        lemma_first_where_found(s.drop_first(), p);
        if !p(s[0]) {
            if let Some(x) = first_where(s, p) {
                let j = choose|j: int| 0 <= j < s.drop_first().len() && s.drop_first()[j] == x;
                assert(s[j + 1] == x);
            }
            assert forall|i: int| 0 <= i < s.len() && !p(s[0]) && first_where(s, p) is None implies !p(
                #[trigger] s[i],
            ) by {
                if i > 0 {
                    assert(s[i] == s.drop_first()[i - 1]);
                }
            }
            if first_where(s, p) is Some {
                let x = first_where(s, p)->0;
                let j = choose|j: int| 0 <= j < s.drop_first().len() && s.drop_first()[j] == x;
                assert(p(s[j + 1]));
            }
        } else {
            assert(s.contains(s[0]));
        }
    }
}

/// The first element that satisfies `p` is the one at `i` when none before it does.
pub proof fn lemma_first_where_at<A>(s: Seq<A>, p: spec_fn(A) -> bool, i: int)
    requires
        0 <= i < s.len(),
        p(s[i]),
        forall|j: int| 0 <= j < i ==> !p(#[trigger] s[j]),
    ensures
        first_where(s, p) == Some(s[i]),
    decreases i,
{
    if i > 0 {
        assert(!p(s[0]));
        let rest = s.drop_first();
        assert forall|j: int| 0 <= j < i - 1 implies !p(#[trigger] rest[j]) by {
            assert(rest[j] == s[j + 1]);
        }
        assert(rest[i - 1] == s[i]);
        lemma_first_where_at(rest, p, i - 1);
    }
}

/// Appending an element changes the first match only where the sequence had none.
pub proof fn lemma_first_where_push<A>(s: Seq<A>, x: A, p: spec_fn(A) -> bool)
    ensures
        first_where(s.push(x), p) == if first_where(s, p) is Some {
            first_where(s, p)
        } else if p(x) {
            Some(x)
        } else {
            None
        },
    decreases s.len(),
{
    if s.len() == 0 {
        assert(s.push(x).drop_first() =~= Seq::<A>::empty());
    } else {
        assert(s.push(x)[0] == s[0]);
        assert(s.push(x).drop_first() =~= s.drop_first().push(x));
        lemma_first_where_push(s.drop_first(), x, p);
    }
}

/// The first match among the elements that `q` keeps is the first element that
/// satisfies both `q` and `p`.
pub proof fn lemma_first_where_filter<A>(s: Seq<A>, q: spec_fn(A) -> bool, p: spec_fn(A) -> bool)
    ensures
        first_where(s.filter(q), p) == first_where(s, |x: A| q(x) && p(x)),
    decreases s.len(),
{
    reveal_with_fuel(Seq::<_>::filter, 1);
    if s.len() > 0 {
        let rest = s.drop_last();
        let last = s.last();
        lemma_first_where_filter(rest, q, p);
        assert(rest.push(last) =~= s);
        lemma_first_where_push(rest, last, |x: A| q(x) && p(x));
        if q(last) {
            lemma_first_where_push(rest.filter(q), last, p);
        }
    }
}

/// Whether two strings hold the same characters.
pub fn same_text(a: &str, b: &str) -> (same: bool)
    ensures
        same == (a@ == b@),
{
    let a_owned: String = a.to_owned();
    let b_owned: String = b.to_owned();
    a_owned == b_owned
}

} // verus!
