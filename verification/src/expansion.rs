//! The mathematical model of one expansion run: what one site yields,
//! what one buffer yields, what one full generation yields, and what is
//! reachable within a bounded number of generations.  The schedulers'
//! contracts are stated against these definitions.

use vstd::prelude::*;

verus! {

use crate::patterns::Handler;

/// The variants position `i` of `cell` contributes under policy `H`: if a
/// rule matches the byte there and the policy accepts the site, the
/// buffer with each alternative substituted at `i`; otherwise nothing.
pub open spec fn expanded_at<H: Handler>(cell: Seq<u8>, book: Map<u8, Seq<u8>>, i: int) -> Set<
    Seq<u8>,
> {
    if book.dom().contains(cell[i]) && H::accepts(i, book[cell[i]].len() as int) {
        Set::new(
            |v: Seq<u8>|
                exists|k: int|
                    0 <= k < book[cell[i]].len() && v == cell.update(i, book[cell[i]][k]),
        )
    } else {
        Set::empty()
    }
}

/// The variants the first `n` positions of `cell` contribute.
pub open spec fn expand_prefix<H: Handler>(
    cell: Seq<u8>,
    book: Map<u8, Seq<u8>>,
    n: int,
) -> Set<Seq<u8>>
    decreases n,
{
    if n <= 0 {
        Set::empty()
    } else {
        expand_prefix::<H>(cell, book, n - 1).union(expanded_at::<H>(cell, book, n - 1))
    }
}

/// Every variant one buffer yields in one generation under policy `H`.
pub open spec fn cell_expansion<H: Handler>(cell: Seq<u8>, book: Map<u8, Seq<u8>>) -> Set<
    Seq<u8>,
> {
    expand_prefix::<H>(cell, book, cell.len() as int)
}

/// One full generation: the old set, plus every variant any of its
/// members yields.  Variants are additive; nothing is ever removed.
pub open spec fn generation_step<H: Handler>(s: Set<Seq<u8>>, book: Map<u8, Seq<u8>>) -> Set<
    Seq<u8>,
> {
    s.union(
        Set::new(
            |v: Seq<u8>|
                exists|c: Seq<u8>| s.contains(c) && cell_expansion::<H>(c, book).contains(v),
        ),
    )
}

/// The variants the first `n` of the listed buffers yield, together.
pub open spec fn union_expansions<H: Handler>(
    cells: Seq<Seq<u8>>,
    book: Map<u8, Seq<u8>>,
    n: int,
) -> Set<Seq<u8>>
    decreases n,
{
    if n <= 0 {
        Set::empty()
    } else {
        union_expansions::<H>(cells, book, n - 1).union(
            cell_expansion::<H>(cells[n - 1], book),
        )
    }
}

/// Membership in a union of expansions: some listed buffer yields it.
pub proof fn lemma_union_expansions_contains<H: Handler>(
    cells: Seq<Seq<u8>>,
    book: Map<u8, Seq<u8>>,
    n: int,
    v: Seq<u8>,
)
    ensures
        union_expansions::<H>(cells, book, n).contains(v) <==> exists|i: int|
            0 <= i < n && cell_expansion::<H>(cells[i], book).contains(v),
    decreases n,
{
    if n > 0 {
        lemma_union_expansions_contains::<H>(cells, book, n - 1, v);
    }
}

/// The set reachable from `s` within `n` generations.
pub open spec fn reach<H: Handler>(s: Set<Seq<u8>>, book: Map<u8, Seq<u8>>, n: nat) -> Set<
    Seq<u8>,
>
    decreases n,
{
    if n == 0 {
        s
    } else {
        generation_step::<H>(reach::<H>(s, book, (n - 1) as nat), book)
    }
}

/// A generation only ever adds: the old set stays inside the new one.
pub proof fn lemma_generation_step_grows<H: Handler>(s: Set<Seq<u8>>, book: Map<u8, Seq<u8>>)
    ensures
        s.subset_of(generation_step::<H>(s, book)),
{
}

/// What is reachable within `n` rounds stays reachable within `n + 1`:
/// the per-round sets only grow towards the fixed point.
pub proof fn lemma_reach_monotone<H: Handler>(s: Set<Seq<u8>>, book: Map<u8, Seq<u8>>, n: nat)
    ensures
        reach::<H>(s, book, n).subset_of(reach::<H>(s, book, n + 1)),
{
    lemma_generation_step_grows::<H>(reach::<H>(s, book, n), book);
}

/// Re-discovering a variant that is already present does not change what
/// a generation produces: the step from `s` with `v` re-inserted is the
/// step from `s` itself.
pub proof fn lemma_rediscovery_changes_nothing<H: Handler>(
    s: Set<Seq<u8>>,
    book: Map<u8, Seq<u8>>,
    v: Seq<u8>,
)
    requires
        s.contains(v),
    ensures
        generation_step::<H>(s.insert(v), book) == generation_step::<H>(s, book),
{
    assert(s.insert(v) =~= s);
}

/// A buffer none of whose bytes has a rule yields nothing.
pub proof fn lemma_unmatched_cell_yields_nothing<H: Handler>(
    cell: Seq<u8>,
    book: Map<u8, Seq<u8>>,
)
    requires
        forall|i: int| 0 <= i < cell.len() ==> !book.dom().contains(cell[i]),
    ensures
        cell_expansion::<H>(cell, book) == Set::<Seq<u8>>::empty(),
{
    lemma_unmatched_prefix_empty::<H>(cell, book, cell.len() as int);
}

proof fn lemma_unmatched_prefix_empty<H: Handler>(cell: Seq<u8>, book: Map<u8, Seq<u8>>, n: int)
    requires
        n <= cell.len(),
        forall|i: int| 0 <= i < cell.len() ==> !book.dom().contains(cell[i]),
    ensures
        expand_prefix::<H>(cell, book, n) == Set::<Seq<u8>>::empty(),
    decreases n,
{
    if n > 0 {
        lemma_unmatched_prefix_empty::<H>(cell, book, n - 1);
        assert(expand_prefix::<H>(cell, book, n) =~= Set::<Seq<u8>>::empty());
    }
}

/// A set that one generation leaves unchanged stays unchanged under any
/// further number of generations: re-running a finished expansion on its
/// own result set yields the same final set.
pub proof fn lemma_fixed_point_stays<H: Handler>(s: Set<Seq<u8>>, book: Map<u8, Seq<u8>>, n: nat)
    requires
        generation_step::<H>(s, book) == s,
    ensures
        reach::<H>(s, book, n) == s,
    decreases n,
{
    if n > 0 {
        lemma_fixed_point_stays::<H>(s, book, (n - 1) as nat);
    }
}

/// When no member of `s` has any byte with a rule, one generation is a
/// fixed point: it returns `s` unchanged, and the observed growth is
/// zero.
pub proof fn lemma_fixed_point<H: Handler>(s: Set<Seq<u8>>, book: Map<u8, Seq<u8>>)
    requires
        forall|c: Seq<u8>, i: int|
            s.contains(c) && 0 <= i < c.len() ==> !book.dom().contains(c[i]),
    ensures
        generation_step::<H>(s, book) == s,
{
    assert forall|v: Seq<u8>| generation_step::<H>(s, book).contains(v) implies s.contains(
        v,
    ) by {
        if !s.contains(v) {
            let c = choose|c: Seq<u8>|
                s.contains(c) && cell_expansion::<H>(c, book).contains(v);
            lemma_unmatched_cell_yields_nothing::<H>(c, book);
        }
    }
    assert(generation_step::<H>(s, book) =~= s);
}

} // verus!
