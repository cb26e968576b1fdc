use vstd::prelude::*;

use crate::scalar::Scalar;

verus! {

/// `f(0) + f(1) + ... + f(n - 1)`, added left to right starting from zero.
pub open spec fn sum<S: Scalar>(f: spec_fn(int) -> S, n: int) -> S
    decreases n,
{
    if n <= 0 {
        S::zero_spec()
    } else {
        sum(f, n - 1).plus_spec(f(n - 1))
    }
}

/// The sum of the products `a[k] * b[k]` for `k < n`.
pub open spec fn dot_prefix<S: Scalar>(a: Seq<S>, b: Seq<S>, n: int) -> S {
    sum(|k: int| a[k].times_spec(b[k]), n)
}

/// The sum of the componentwise products of two sequences of equal length.
pub open spec fn dot_spec<S: Scalar>(a: Seq<S>, b: Seq<S>) -> S {
    dot_prefix(a, b, a.len() as int)
}

/// The right-handed cross product of two sequences of length three.
pub open spec fn cross_spec<S: Scalar>(a: Seq<S>, b: Seq<S>) -> Seq<S> {
    seq![
        a[1].times_spec(b[2]).minus_spec(a[2].times_spec(b[1])),
        a[2].times_spec(b[0]).minus_spec(a[0].times_spec(b[2])),
        a[0].times_spec(b[1]).minus_spec(a[1].times_spec(b[0])),
    ]
}

/// Column `j` of a matrix given as its rows.
pub open spec fn column<S>(m: Seq<Seq<S>>, j: int) -> Seq<S> {
    Seq::new(m.len(), |i: int| m[i][j])
}

/// A matrix with `rows` rows of `cols` entries each.
pub open spec fn has_shape<S>(m: Seq<Seq<S>>, rows: nat, cols: nat) -> bool {
    &&& m.len() == rows
    &&& forall|i: int| 0 <= i < rows ==> (#[trigger] m[i]).len() == cols
}

/// The product of `a` and `b`, where `b` has `cols` columns: entry `(i, j)` is
/// the dot product of row `i` of `a` with column `j` of `b`.
pub open spec fn matrix_product<S: Scalar>(a: Seq<Seq<S>>, b: Seq<Seq<S>>, cols: nat) -> Seq<Seq<S>> {
    Seq::new(a.len(), |i: int| Seq::new(cols, |j: int| dot_spec(a[i], column(b, j))))
}

/// The `n`-by-`n` matrix with `d` on the diagonal and zero elsewhere.
pub open spec fn diagonal_spec<S: Scalar>(n: nat, d: S) -> Seq<Seq<S>> {
    Seq::new(n, |i: int| Seq::new(n, |j: int| if i == j { d } else { S::zero_spec() }))
}

/// The `n`-by-`n` identity matrix.
pub open spec fn identity_spec<S: Scalar>(n: nat) -> Seq<Seq<S>> {
    diagonal_spec(n, S::one_spec())
}

/// The matrix with `rows` rows of `cols` entries, each of them `v`.
pub open spec fn fill_spec<S>(rows: nat, cols: nat, v: S) -> Seq<Seq<S>> {
    Seq::new(rows, |i: int| Seq::new(cols, |j: int| v))
}

/// The `cols`-by-`m.len()` matrix whose rows are the columns of `m`.
pub open spec fn transpose_spec<S>(m: Seq<Seq<S>>, cols: nat) -> Seq<Seq<S>> {
    Seq::new(cols, |j: int| column(m, j))
}

/// Two matrices of one shape that agree on every entry are equal.
pub proof fn lemma_entries_equal<S>(x: Seq<Seq<S>>, y: Seq<Seq<S>>, rows: nat, cols: nat)
    requires
        has_shape(x, rows, cols),
        has_shape(y, rows, cols),
        forall|i: int, j: int| 0 <= i < rows && 0 <= j < cols ==> #[trigger] x[i][j] == y[i][j],
    ensures
        x == y,
{
    assert forall|i: int| 0 <= i < rows implies #[trigger] x[i] == y[i] by {
        assert(x[i] =~= y[i]);
    }
    assert(x =~= y);
}

/// Zero plus a value is that value.
pub proof fn lemma_zero_plus<S: Scalar>(a: S)
    ensures
        S::zero_spec().plus_spec(a) == a,
{
    S::lemma_plus_comm(S::zero_spec(), a);
    S::lemma_plus_zero(a);
}

pub proof fn lemma_dot2<S: Scalar>(a: Seq<S>, b: Seq<S>)
    requires
        a.len() == 2,
    ensures
        dot_spec(a, b) == a[0].times_spec(b[0]).plus_spec(a[1].times_spec(b[1])),
{
    reveal_with_fuel(sum, 3);
    lemma_zero_plus(a[0].times_spec(b[0]));
}

pub proof fn lemma_dot3<S: Scalar>(a: Seq<S>, b: Seq<S>)
    requires
        a.len() == 3,
    ensures
        dot_spec(a, b) == a[0].times_spec(b[0]).plus_spec(a[1].times_spec(b[1])).plus_spec(
            a[2].times_spec(b[2]),
        ),
{
    reveal_with_fuel(sum, 4);
    lemma_zero_plus(a[0].times_spec(b[0]));
}

/// The product of a matrix with a column vector.
pub open spec fn apply_spec<S: Scalar>(m: Seq<Seq<S>>, v: Seq<S>) -> Seq<S> {
    Seq::new(m.len(), |i: int| dot_spec(m[i], v))
}

pub proof fn lemma_sum_ext<S: Scalar>(f: spec_fn(int) -> S, g: spec_fn(int) -> S, n: int)
    requires
        forall|k: int| 0 <= k < n ==> #[trigger] f(k) == g(k),
    ensures
        sum(f, n) == sum(g, n),
    decreases n,
{
    if n > 0 {
        lemma_sum_ext(f, g, n - 1);
    }
}

pub proof fn lemma_sum_zero<S: Scalar>(f: spec_fn(int) -> S, n: int)
    requires
        forall|k: int| 0 <= k < n ==> #[trigger] f(k) == S::zero_spec(),
    ensures
        sum(f, n) == S::zero_spec(),
    decreases n,
{
    if n > 0 {
        lemma_sum_zero(f, n - 1);
        S::lemma_plus_zero(S::zero_spec());
    }
}

proof fn lemma_plus_swap_middle<S: Scalar>(a: S, b: S, c: S, d: S)
    ensures
        a.plus_spec(b).plus_spec(c.plus_spec(d)) == a.plus_spec(c).plus_spec(b.plus_spec(d)),
{
    S::lemma_plus_assoc(a.plus_spec(b), c, d);
    S::lemma_plus_assoc(a, b, c);
    S::lemma_plus_comm(b, c);
    S::lemma_plus_assoc(a, c, b);
    S::lemma_plus_assoc(a.plus_spec(c), b, d);
}

pub proof fn lemma_sum_plus<S: Scalar>(
    f: spec_fn(int) -> S,
    g: spec_fn(int) -> S,
    h: spec_fn(int) -> S,
    n: int,
)
    requires
        forall|k: int| 0 <= k < n ==> #[trigger] h(k) == f(k).plus_spec(g(k)),
    ensures
        sum(h, n) == sum(f, n).plus_spec(sum(g, n)),
    decreases n,
{
    if n <= 0 {
        S::lemma_plus_zero(S::zero_spec());
    } else {
        lemma_sum_plus(f, g, h, n - 1);
        lemma_plus_swap_middle(sum(f, n - 1), sum(g, n - 1), f(n - 1), g(n - 1));
    }
}

pub proof fn lemma_sum_times_left<S: Scalar>(
    c: S,
    f: spec_fn(int) -> S,
    g: spec_fn(int) -> S,
    n: int,
)
    requires
        forall|k: int| 0 <= k < n ==> #[trigger] g(k) == c.times_spec(f(k)),
    ensures
        c.times_spec(sum(f, n)) == sum(g, n),
    decreases n,
{
    if n <= 0 {
        S::lemma_times_zero(c);
    } else {
        lemma_sum_times_left(c, f, g, n - 1);
        S::lemma_distrib(c, sum(f, n - 1), f(n - 1));
    }
}

pub proof fn lemma_sum_times_right<S: Scalar>(
    f: spec_fn(int) -> S,
    c: S,
    g: spec_fn(int) -> S,
    n: int,
)
    requires
        forall|k: int| 0 <= k < n ==> #[trigger] g(k) == f(k).times_spec(c),
    ensures
        sum(f, n).times_spec(c) == sum(g, n),
{
    assert forall|k: int| 0 <= k < n implies #[trigger] g(k) == c.times_spec(f(k)) by {
        S::lemma_times_comm(f(k), c);
    }
    lemma_sum_times_left(c, f, g, n);
    S::lemma_times_comm(sum(f, n), c);
}

/// Summing a table by rows or by columns gives the same total.
pub proof fn lemma_sum_swap<S: Scalar>(g: spec_fn(int, int) -> S, m: int, n: int)
    requires
        m >= 0,
    ensures
        sum(|i: int| sum(|j: int| g(i, j), n), m) == sum(|j: int| sum(|i: int| g(i, j), m), n),
    decreases m,
{
    if m == 0 {
        lemma_sum_zero(|j: int| sum(|i: int| g(i, j), 0), n);
    } else {
        lemma_sum_swap(g, m - 1, n);
        lemma_sum_plus(
            |j: int| sum(|i: int| g(i, j), m - 1),
            |j: int| g(m - 1, j),
            |j: int| sum(|i: int| g(i, j), m),
            n,
        );
    }
}

/// A sum in which every term but the one at `i` is zero equals that term.
pub proof fn lemma_sum_single<S: Scalar>(f: spec_fn(int) -> S, n: int, i: int)
    requires
        0 <= i < n,
        forall|k: int| 0 <= k < n && k != i ==> #[trigger] f(k) == S::zero_spec(),
    ensures
        sum(f, n) == f(i),
    decreases n,
{
    if n - 1 == i {
        lemma_sum_zero(f, n - 1);
        S::lemma_plus_comm(S::zero_spec(), f(i));
        S::lemma_plus_zero(f(i));
    } else {
        lemma_sum_single(f, n - 1, i);
        S::lemma_plus_zero(f(i));
    }
}

proof fn lemma_product_entry_assoc<S: Scalar>(
    a: Seq<Seq<S>>,
    b: Seq<Seq<S>>,
    c: Seq<Seq<S>>,
    k: nat,
    p: nat,
    n: nat,
    i: int,
    j: int,
)
    requires
        has_shape(a, a.len(), k),
        has_shape(b, k, p),
        has_shape(c, p, n),
        0 <= i < a.len(),
        0 <= j < n,
    ensures
        matrix_product(matrix_product(a, b, p), c, n)[i][j] == matrix_product(
            a,
            matrix_product(b, c, n),
            n,
        )[i][j],
{
    let ab = matrix_product(a, b, p);
    let bc = matrix_product(b, c, n);
    let g = |q: int, l: int| a[i][l].times_spec(b[l][q]).times_spec(c[q][j]);
    let h = |q: int, l: int| a[i][l].times_spec(b[l][q].times_spec(c[q][j]));
    // Distribute each `(a b)[i][q] * c[q][j]` over the sum that gives `(a b)[i][q]`.
    assert forall|q: int| 0 <= q < p implies #[trigger] ab[i][q].times_spec(c[q][j]) == sum(
        |l: int| g(q, l),
        k as int,
    ) by {
        lemma_sum_times_right(
            |l: int| a[i][l].times_spec(column(b, q)[l]),
            c[q][j],
            |l: int| g(q, l),
            k as int,
        );
    }
    lemma_sum_ext(
        |q: int| ab[i][q].times_spec(column(c, j)[q]),
        |q: int| sum(|l: int| g(q, l), k as int),
        p as int,
    );
    lemma_sum_swap(g, p as int, k as int);
    // Regroup each product and take `a[i][l]` out of the inner sum.
    assert forall|l: int| 0 <= l < k implies sum(|q: int| g(q, l), p as int) == #[trigger] a[i][l].times_spec(
        bc[l][j],
    ) by {
        assert forall|q: int| 0 <= q < p implies #[trigger] g(q, l) == h(q, l) by {
            S::lemma_times_assoc(a[i][l], b[l][q], c[q][j]);
        }
        lemma_sum_ext(|q: int| g(q, l), |q: int| h(q, l), p as int);
        lemma_sum_times_left(
            a[i][l],
            |q: int| b[l][q].times_spec(column(c, j)[q]),
            |q: int| h(q, l),
            p as int,
        );
    }
    lemma_sum_ext(
        |l: int| sum(|q: int| g(q, l), p as int),
        |l: int| a[i][l].times_spec(column(bc, j)[l]),
        k as int,
    );
}

/// Matrix multiplication is associative: `(a b) c == a (b c)`.
pub proof fn lemma_matrix_product_assoc<S: Scalar>(
    a: Seq<Seq<S>>,
    b: Seq<Seq<S>>,
    c: Seq<Seq<S>>,
    m: nat,
    k: nat,
    p: nat,
    n: nat,
)
    requires
        has_shape(a, m, k),
        has_shape(b, k, p),
        has_shape(c, p, n),
    ensures
        matrix_product(matrix_product(a, b, p), c, n) == matrix_product(a, matrix_product(b, c, n), n),
{
    let lhs = matrix_product(matrix_product(a, b, p), c, n);
    let rhs = matrix_product(a, matrix_product(b, c, n), n);
    assert forall|i: int| 0 <= i < m implies #[trigger] lhs[i] == rhs[i] by {
        assert forall|j: int| 0 <= j < n implies lhs[i][j] == rhs[i][j] by {
            lemma_product_entry_assoc(a, b, c, k, p, n, i, j);
        }
        assert(lhs[i] =~= rhs[i]);
    }
    assert(lhs =~= rhs);
}

/// The identity is a left unit of matrix multiplication.
pub proof fn lemma_identity_product_left<S: Scalar>(m: Seq<Seq<S>>, n: nat, cols: nat)
    requires
        has_shape(m, n, cols),
    ensures
        matrix_product(identity_spec::<S>(n), m, cols) == m,
{
    let id = identity_spec::<S>(n);
    let r = matrix_product(id, m, cols);
    assert forall|i: int| 0 <= i < n implies #[trigger] r[i] == m[i] by {
        assert forall|j: int| 0 <= j < cols implies r[i][j] == m[i][j] by {
            let f = |k: int| id[i][k].times_spec(column(m, j)[k]);
            assert forall|k: int| 0 <= k < n && k != i implies #[trigger] f(k) == S::zero_spec() by {
                S::lemma_times_comm(S::zero_spec(), m[k][j]);
                S::lemma_times_zero(m[k][j]);
            }
            lemma_sum_single(f, n as int, i);
            S::lemma_times_comm(S::one_spec(), m[i][j]);
            S::lemma_times_one(m[i][j]);
        }
        assert(r[i] =~= m[i]);
    }
    assert(r =~= m);
}

/// The identity is a right unit of matrix multiplication.
pub proof fn lemma_identity_product_right<S: Scalar>(m: Seq<Seq<S>>, rows: nat, n: nat)
    requires
        has_shape(m, rows, n),
    ensures
        matrix_product(m, identity_spec::<S>(n), n) == m,
{
    let id = identity_spec::<S>(n);
    let r = matrix_product(m, id, n);
    assert forall|i: int| 0 <= i < rows implies #[trigger] r[i] == m[i] by {
        assert forall|j: int| 0 <= j < n implies r[i][j] == m[i][j] by {
            let f = |k: int| m[i][k].times_spec(column(id, j)[k]);
            assert forall|k: int| 0 <= k < n && k != j implies #[trigger] f(k) == S::zero_spec() by {
                S::lemma_times_zero(m[i][k]);
            }
            lemma_sum_single(f, n as int, j);
            S::lemma_times_one(m[i][j]);
        }
        assert(r[i] =~= m[i]);
    }
    assert(r =~= m);
}

} // verus!
