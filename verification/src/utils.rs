//! Index arithmetic and combinatorial helpers.
use crate::sampling::choose_one;
use crate::scalar::Scalar;
use vstd::prelude::*;

verus! {

/// Number of (dimension, subscript) pairs that `sub2ind` folds after the
/// last subscript: one less than the shorter of the two lists.
pub open spec fn sub2ind_pairs(dims: Seq<usize>, inds: Seq<usize>) -> nat {
    if dims.len() == 0 || inds.len() == 0 {
        0
    } else if dims.len() <= inds.len() {
        (dims.len() - 1) as nat
    } else {
        (inds.len() - 1) as nat
    }
}

/// The linear index accumulated after `k` pairs, counted from the back:
/// it starts at the last subscript, and each pair `(d, i)` turns `acc` into
/// `i + d * acc`.
pub open spec fn sub2ind_acc(dims: Seq<usize>, inds: Seq<usize>, k: nat) -> int
    decreases k,
{
    if k == 0 {
        inds[inds.len() - 1] as int
    } else {
        inds[inds.len() - 1 - k] + dims[dims.len() - 1 - k] * sub2ind_acc(
            dims,
            inds,
            (k - 1) as nat,
        )
    }
}

/// The linear index that the subscripts `inds` denote in an array of
/// dimensions `dims`.
pub open spec fn spec_sub2ind(dims: Seq<usize>, inds: Seq<usize>) -> int {
    sub2ind_acc(dims, inds, sub2ind_pairs(dims, inds))
}

/// Converts subscripts into a linear index.
///
/// The subscript list must not be empty, and every partial index must be
/// representable.
pub fn sub2ind(dims: &[usize], inds: &[usize]) -> (index: usize)
    requires
        0 < inds@.len(),
        forall|k: nat|
            k <= sub2ind_pairs(dims@, inds@) ==> #[trigger] sub2ind_acc(dims@, inds@, k)
                <= usize::MAX,
    ensures
        index == spec_sub2ind(dims@, inds@),
{
    let n: usize = dims.len();
    let m: usize = inds.len();
    let pairs: usize = if n == 0 {
        0
    } else if n <= m {
        n - 1
    } else {
        m - 1
    };
    let mut acc: usize = inds[m - 1];
    let mut k: usize = 0;
    while k < pairs
        invariant
            n == dims@.len(),
            m == inds@.len(),
            0 < m,
            pairs == sub2ind_pairs(dims@, inds@),
            k <= pairs,
            acc == sub2ind_acc(dims@, inds@, k as nat),
            forall|j: nat|
                j <= sub2ind_pairs(dims@, inds@) ==> #[trigger] sub2ind_acc(dims@, inds@, j)
                    <= usize::MAX,
        decreases pairs - k,
    {
        let d: usize = dims[n - 2 - k];
        let i: usize = inds[m - 2 - k];
        proof {
            let next = (k + 1) as nat;
            assert(sub2ind_acc(dims@, inds@, next) <= usize::MAX);
            assert(0 <= d * acc) by (nonlinear_arith)
                requires
                    0 <= d,
                    0 <= acc,
            ;
        }
        acc = i + d * acc;
        k = k + 1;
    }
    acc
}

/// `out` is `xs` with `y` appended, element by element up to cloning.
pub open spec fn is_extension<T: Clone>(xs: Seq<T>, y: T, out: Seq<T>) -> bool {
    &&& out.len() == xs.len() + 1
    &&& forall|k: int| 0 <= k < xs.len() ==> cloned(#[trigger] xs[k], out[k])
    &&& cloned(y, out[xs.len() as int])
}

/// Given a partial Cartesian product `a` and a list of items `b`, returns
/// the product extended by one position: row `p` of the result is row
/// `p / b.len()` of `a` followed by item `p % b.len()` of `b`.
pub fn partial_cartesian<T: Clone>(a: Vec<Vec<T>>, b: &[T]) -> (out: Vec<Vec<T>>)
    ensures
        out@.len() == a@.len() * b@.len(),
        forall|p: int|
            0 <= p < out@.len() ==> is_extension(
                a@[p / (b@.len() as int)]@,
                b@[p % (b@.len() as int)],
                (#[trigger] out@[p])@,
            ),
{
    let m: usize = b.len();
    let mut out: Vec<Vec<T>> = Vec::new();
    let mut i: usize = 0;
    while i < a.len()
        invariant
            m == b@.len(),
            i <= a@.len(),
            out@.len() == i * m,
            forall|p: int|
                0 <= p < out@.len() ==> is_extension(
                    a@[p / (m as int)]@,
                    b@[p % (m as int)],
                    (#[trigger] out@[p])@,
                ),
        decreases a@.len() - i,
    {
        let mut j: usize = 0;
        while j < m
            invariant
                m == b@.len(),
                i < a@.len(),
                j <= m,
                out@.len() == i * m + j,
                forall|p: int|
                    0 <= p < out@.len() ==> is_extension(
                        a@[p / (m as int)]@,
                        b@[p % (m as int)],
                        (#[trigger] out@[p])@,
                    ),
            decreases m - j,
        {
            let mut row: Vec<T> = a[i].clone();
            let y: T = b[j].clone();
            row.push(y);
            proof {
                let p = i * m + j;
                vstd::arithmetic::div_mod::lemma_fundamental_div_mod_converse(
                    p as int,
                    m as int,
                    i as int,
                    j as int,
                );
            }
            out.push(row);
            j = j + 1;
        }
        proof {
            assert(i * m + m == (i + 1) * m) by (nonlinear_arith);
        }
        i = i + 1;
    }
    out
}

/// The lengths of the given lists, in order.
pub open spec fn list_lens<T>(lists: Seq<Vec<T>>) -> Seq<usize> {
    Seq::new(lists.len(), |k: int| lists[k]@.len() as usize)
}

/// Extends every index tuple by each of the positions `0..m`, the new
/// position varying fastest.
pub open spec fn extend_index_tuples(tuples: Seq<Seq<usize>>, m: nat) -> Seq<Seq<usize>> {
    Seq::new(tuples.len() * m, |p: int| tuples[p / (m as int)].push((p % (m as int)) as usize))
}

/// All ways of picking one position from each of the lists with lengths
/// `lens`, in lexicographic order. No list gives no tuple at all.
pub open spec fn index_tuples(lens: Seq<usize>) -> Seq<Seq<usize>>
    decreases lens.len(),
{
    if lens.len() == 0 {
        Seq::empty()
    } else if lens.len() == 1 {
        Seq::new(lens[0] as nat, |i: int| seq![i as usize])
    } else {
        extend_index_tuples(index_tuples(lens.drop_last()), lens.last() as nat)
    }
}

/// Every index tuple picks one valid position per list.
pub proof fn lemma_index_tuples_in_range(lens: Seq<usize>, p: int)
    requires
        0 <= p < index_tuples(lens).len(),
    ensures
        index_tuples(lens)[p].len() == lens.len(),
        forall|k: int| 0 <= k < lens.len() ==> (#[trigger] index_tuples(lens)[p][k]) < lens[k],
    decreases lens.len(),
{
    if lens.len() >= 2 {
        let prev = index_tuples(lens.drop_last());
        let m = lens.last() as int;
        assert(0 < m && 0 <= p / m < prev.len()) by (nonlinear_arith)
            requires
                0 <= p < prev.len() * m,
                0 <= m,
        ;
        lemma_index_tuples_in_range(lens.drop_last(), p / m);
        vstd::arithmetic::div_mod::lemma_mod_bound(p, m);
        let t = index_tuples(lens)[p];
        assert forall|k: int| 0 <= k < lens.len() implies (#[trigger] t[k]) < lens[k] by {}
    }
}

/// Extends every index tuple by each of the positions `0..m`.
fn extend_tuples(tuples: &Vec<Vec<usize>>, m: usize) -> (out: Vec<Vec<usize>>)
    ensures
        out@.len() == tuples@.len() * m,
        forall|p: int|
            0 <= p < out@.len() ==> (#[trigger] out@[p])@ == tuples@[p / (m as int)]@.push(
                (p % (m as int)) as usize,
            ),
{
    let mut out: Vec<Vec<usize>> = Vec::new();
    let mut i: usize = 0;
    while i < tuples.len()
        invariant
            i <= tuples@.len(),
            out@.len() == i * m,
            forall|p: int|
                0 <= p < out@.len() ==> (#[trigger] out@[p])@ == tuples@[p / (m as int)]@.push(
                    (p % (m as int)) as usize,
                ),
        decreases tuples@.len() - i,
    {
        let mut j: usize = 0;
        while j < m
            invariant
                i < tuples@.len(),
                j <= m,
                out@.len() == i * m + j,
                forall|p: int|
                    0 <= p < out@.len() ==> (#[trigger] out@[p])@ == tuples@[p / (m as int)]@.push(
                        (p % (m as int)) as usize,
                    ),
            decreases m - j,
        {
            let mut row: Vec<usize> = Vec::new();
            let mut k: usize = 0;
            while k < tuples[i].len()
                invariant
                    i < tuples@.len(),
                    k <= tuples@[i as int]@.len(),
                    row@ == tuples@[i as int]@.take(k as int),
                decreases tuples@[i as int]@.len() - k,
            {
                row.push(tuples[i][k]);
                k = k + 1;
            }
            row.push(j);
            proof {
                vstd::arithmetic::div_mod::lemma_fundamental_div_mod_converse(
                    (i * m + j) as int,
                    m as int,
                    i as int,
                    j as int,
                );
            }
            out.push(row);
            j = j + 1;
        }
        proof {
            assert(i * m + m == (i + 1) * m) by (nonlinear_arith);
        }
        i = i + 1;
    }
    out
}

/// Computes the Cartesian product `lists[0] x lists[1] x ... x lists[n-1]`.
///
/// Row `p` of the result holds, at position `k`, a clone of the item of
/// `lists[k]` that the `p`-th index tuple picks; the tuples come in
/// lexicographic order, and an empty `lists` gives an empty result.
pub fn cartesian_product<T: Clone>(lists: &[Vec<T>]) -> (out: Vec<Vec<T>>)
    ensures
        out@.len() == index_tuples(list_lens(lists@)).len(),
        forall|p: int|
            0 <= p < out@.len() ==> (#[trigger] out@[p])@.len() == lists@.len(),
        forall|p: int, k: int|
            0 <= p < out@.len() && 0 <= k < lists@.len() ==> cloned(
                lists@[k]@[index_tuples(list_lens(lists@))[p][k] as int],
                #[trigger] out@[p]@[k],
            ),
{
    let n: usize = lists.len();
    let ghost lens = list_lens(lists@);
    let mut tuples: Vec<Vec<usize>> = Vec::new();
    if n == 0 {
        return Vec::new();
    }
    let mut i: usize = 0;
    while i < lists[0].len()
        invariant
            0 < n == lists@.len(),
            i <= lists@[0]@.len(),
            tuples@.len() == i,
            forall|p: int| 0 <= p < i ==> (#[trigger] tuples@[p])@ == seq![p as usize],
        decreases lists@[0]@.len() - i,
    {
        let mut t: Vec<usize> = Vec::new();
        t.push(i);
        tuples.push(t);
        i = i + 1;
    }
    proof {
        assert forall|p: int| 0 <= p < tuples@.len() implies (#[trigger] tuples@[p])@
            == index_tuples(lens.take(1))[p] by {}
    }
    let mut k: usize = 1;
    while k < n
        invariant
            n == lists@.len(),
            lens == list_lens(lists@),
            1 <= k <= n,
            tuples@.len() == index_tuples(lens.take(k as int)).len(),
            forall|p: int|
                0 <= p < tuples@.len() ==> (#[trigger] tuples@[p])@ == index_tuples(
                    lens.take(k as int),
                )[p],
        decreases n - k,
    {
        let m: usize = lists[k].len();
        let next = extend_tuples(&tuples, m);
        proof {
            let cur = lens.take(k as int);
            let ext = lens.take(k + 1);
            assert(ext.drop_last() == cur);
            assert forall|p: int| 0 <= p < next@.len() implies (#[trigger] next@[p])@
                == index_tuples(ext)[p] by {
                assert(0 < m && 0 <= p / (m as int) < tuples@.len()) by (nonlinear_arith)
                    requires
                        0 <= p < tuples@.len() * m,
                        0 <= m,
                ;
            }
        }
        tuples = next;
        k = k + 1;
    }
    proof {
        assert(lens.take(n as int) == lens);
    }
    let mut out: Vec<Vec<T>> = Vec::new();
    let mut p: usize = 0;
    while p < tuples.len()
        invariant
            n == lists@.len(),
            lens == list_lens(lists@),
            p <= tuples@.len(),
            tuples@.len() == index_tuples(lens).len(),
            forall|q: int|
                0 <= q < tuples@.len() ==> (#[trigger] tuples@[q])@ == index_tuples(lens)[q],
            out@.len() == p,
            forall|q: int| 0 <= q < p ==> (#[trigger] out@[q])@.len() == n,
            forall|q: int, c: int|
                0 <= q < p && 0 <= c < n ==> cloned(
                    lists@[c]@[index_tuples(lens)[q][c] as int],
                    #[trigger] out@[q]@[c],
                ),
        decreases tuples@.len() - p,
    {
        proof {
            lemma_index_tuples_in_range(lens, p as int);
        }
        let mut row: Vec<T> = Vec::new();
        let mut c: usize = 0;
        while c < n
            invariant
                n == lists@.len(),
                lens == list_lens(lists@),
                p < tuples@.len(),
                tuples@[p as int]@ == index_tuples(lens)[p as int],
                index_tuples(lens)[p as int].len() == n,
                forall|d: int| 0 <= d < n ==> (#[trigger] index_tuples(lens)[p as int][d]) < lens[d],
                c <= n,
                row@.len() == c,
                forall|d: int|
                    0 <= d < c ==> cloned(
                        lists@[d]@[index_tuples(lens)[p as int][d] as int],
                        #[trigger] row@[d],
                    ),
            decreases n - c,
        {
            let pick: usize = tuples[p][c];
            let item: T = lists[c][pick].clone();
            row.push(item);
            c = c + 1;
        }
        out.push(row);
        p = p + 1;
    }
    out
}

/// The distance under which two values count as equally large.
pub open spec fn spec_tie_tolerance<R: Scalar>() -> R {
    R::spec_from_decimal(1, 7)
}

/// The running maximum of the first `n` values and the indices that attain
/// it. The scan starts from the least scalar with no index; a value within
/// the tie tolerance of the running maximum joins the indices, a value that
/// exceeds it replaces both.
pub open spec fn argmaxima_prefix<R: Scalar>(vals: Seq<R>, n: nat) -> (R, Seq<usize>)
    decreases n,
{
    if n == 0 {
        (R::spec_lowest(), Seq::empty())
    } else {
        let (max, ixs) = argmaxima_prefix(vals, (n - 1) as nat);
        let v = vals[n - 1];
        if v.spec_minus(max).spec_magnitude().spec_less(spec_tie_tolerance::<R>()) {
            (max, ixs.push((n - 1) as usize))
        } else if max.spec_less(v) {
            (v, seq![(n - 1) as usize])
        } else {
            (max, ixs)
        }
    }
}

/// The maximum of `vals` and the indices that attain it.
pub open spec fn spec_argmaxima<R: Scalar>(vals: Seq<R>) -> (R, Seq<usize>) {
    argmaxima_prefix(vals, vals.len())
}

/// The indices of the maxima are positions of `vals`, in increasing order.
pub proof fn lemma_argmaxima_indices<R: Scalar>(vals: Seq<R>, n: nat)
    requires
        n <= vals.len(),
        vals.len() <= usize::MAX,
    ensures
        forall|k: int|
            0 <= k < argmaxima_prefix(vals, n).1.len() ==> (#[trigger] argmaxima_prefix(
                vals,
                n,
            ).1[k]) < n,
        forall|j: int, k: int|
            0 <= j < k < argmaxima_prefix(vals, n).1.len() ==> (#[trigger] argmaxima_prefix(
                vals,
                n,
            ).1[j]) < (#[trigger] argmaxima_prefix(vals, n).1[k]),
    decreases n,
{
    if n > 0 {
        lemma_argmaxima_indices(vals, (n - 1) as nat);
        let prev = argmaxima_prefix(vals, (n - 1) as nat).1;
        let cur = argmaxima_prefix(vals, n).1;
        let last = (n - 1) as usize;
        assert forall|k: int| 0 <= k < cur.len() implies (#[trigger] cur[k]) < n by {}
        assert forall|j: int, k: int| 0 <= j < k < cur.len() implies (#[trigger] cur[j]) < (
        #[trigger] cur[k]) by {}
    }
}

/// Finds the maximum of `vals` and every index that attains it up to the
/// tie tolerance.
pub fn argmaxima<R: Scalar>(vals: &[R]) -> (r: (R, Vec<usize>))
    ensures
        r.0 == spec_argmaxima(vals@).0,
        r.1@ == spec_argmaxima(vals@).1,
{
    let tolerance = R::from_decimal(1, 7);
    let mut max = R::lowest();
    let mut ixs: Vec<usize> = Vec::new();
    let mut i: usize = 0;
    while i < vals.len()
        invariant
            i <= vals@.len(),
            tolerance == spec_tie_tolerance::<R>(),
            max == argmaxima_prefix(vals@, i as nat).0,
            ixs@ == argmaxima_prefix(vals@, i as nat).1,
        decreases vals@.len() - i,
    {
        let v = vals[i];
        if v.minus(max).magnitude().less(tolerance) {
            ixs.push(i);
        } else if max.less(v) {
            max = v;
            ixs = Vec::new();
            ixs.push(i);
        }
        i = i + 1;
    }
    (max, ixs)
}

/// What `argmax_choose` returns when the draw among the maxima gave
/// `choice`: nothing when there is no maximum, the only maximum when there
/// is one, and otherwise the drawn index.
pub open spec fn spec_pick_maximum<R: Scalar>(
    value: R,
    maxima: Seq<usize>,
    choice: Option<usize>,
) -> Option<(R, usize)> {
    if maxima.len() == 1 {
        Some((value, maxima[0]))
    } else {
        match choice {
            Some(index) => Some((value, index)),
            None => None,
        }
    }
}

/// Pairs the maximum with the index to report, given the draw `choice`
/// made among several maxima.
pub fn pick_maximum<R: Scalar>(value: R, maxima: &Vec<usize>, choice: Option<usize>) -> (r: Option<
    (R, usize),
>)
    ensures
        r == spec_pick_maximum(value, maxima@, choice),
{
    if maxima.len() == 1 {
        Some((value, maxima[0]))
    } else {
        match choice {
            Some(index) => Some((value, index)),
            None => None,
        }
    }
}

/// Finds the maximum of `values` and one index that attains it, drawn at
/// random when several do. Returns `None` exactly when no index attains the
/// maximum.
pub fn argmax_choose<R: Scalar>(rng: &mut rand::rngs::ThreadRng, values: &[R]) -> (r: Option<
    (R, usize),
>)
    ensures
        r is None <==> spec_argmaxima(values@).1.len() == 0,
        r matches Some((value, index)) ==> {
            &&& value == spec_argmaxima(values@).0
            &&& spec_argmaxima(values@).1.contains(index)
        },
        spec_argmaxima(values@).1.len() == 1 ==> r == Some(
            (spec_argmaxima(values@).0, spec_argmaxima(values@).1[0]),
        ),
{
    let (value, maxima) = argmaxima(values);
    let choice = if maxima.len() == 1 {
        None
    } else {
        choose_one(rng, &maxima)
    };
    pick_maximum(value, &maxima, choice)
}

} // verus!
