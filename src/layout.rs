use vstd::prelude::*;
use vstd::arithmetic::div_mod::{lemma_fundamental_div_mod, lemma_fundamental_div_mod_converse, lemma_mod_pos_bound};

verus! {

/// `r` is the ceiling of the square root of `n`: the least natural number whose
/// square reaches `n`.
pub open spec fn is_ceil_sqrt(n: nat, r: nat) -> bool {
    &&& r * r >= n
    &&& (r == 0 || (r - 1) * (r - 1) < n)
}

/// `ceil(sqrt(n))`.
pub open spec fn ceil_sqrt(n: nat) -> nat {
    choose|r: nat| is_ceil_sqrt(n, r)
}

/// The number of columns for `n` windows: `min(ceil(sqrt(n)), n)`, and one
/// column when there are no windows at all.
pub open spec fn spec_columns(n: nat) -> nat {
    if n == 0 {
        1
    } else if ceil_sqrt(n) <= n {
        ceil_sqrt(n)
    } else {
        n
    }
}

/// `ceil(n / d)`.
pub open spec fn ceil_div(n: nat, d: nat) -> nat
    recommends
        d > 0,
{
    (n + d - 1) as nat / d
}

/// How many windows column `i` (0-based) receives when `n` windows are dealt
/// out `w` per column, left to right: the length of the slice
/// `[i * w, min((i + 1) * w, n))`, or zero once `i * w` reaches `n`.
pub open spec fn column_size(n: nat, w: nat, i: nat) -> nat {
    if i * w >= n {
        0
    } else if (i + 1) * w <= n {
        w
    } else {
        (n - i * w) as nat
    }
}

/// The windows per column for `n` windows: `ceil(n / columns(n))`.
pub open spec fn spec_per_column(n: nat) -> nat {
    ceil_div(n, spec_columns(n))
}

/// The number of windows that each column receives, for `n >= 1` windows.
pub open spec fn spec_distribution(n: nat) -> Seq<nat> {
    Seq::new(spec_columns(n), |i: int| column_size(n, spec_per_column(n), i as nat))
}

/// The windows that the first `k` columns receive together.
pub open spec fn total_size(n: nat, w: nat, k: nat) -> nat
    decreases k,
{
    if k == 0 {
        0
    } else {
        total_size(n, w, (k - 1) as nat) + column_size(n, w, (k - 1) as nat)
    }
}

proof fn lemma_square_le_iff(c: int, m: int)
    requires
        c > 0,
        m >= 0,
    ensures
        (c <= m / c) <==> (c * c <= m),
{
    lemma_fundamental_div_mod(m, c);
    lemma_mod_pos_bound(m, c);
    let q = m / c;
    let r = m % c;
    if c <= q {
        assert(c * c <= c * q) by (nonlinear_arith)
            requires
                c <= q,
                c > 0,
        ;
    } else {
        assert(c * c >= c * q + c) by (nonlinear_arith)
            requires
                c >= q + 1,
                c > 0,
        ;
    }
}

proof fn lemma_ceil_div_bounds(n: nat, d: nat)
    requires
        d > 0,
    ensures
        ceil_div(n, d) * d >= n,
        ceil_div(n, d) * d < n + d,
{
    let x = (n + d - 1) as int;
    lemma_fundamental_div_mod(x, d as int);
    lemma_mod_pos_bound(x, d as int);
    let q = x / d as int;
    assert(ceil_div(n, d) == q);
    assert(q * d == d * q) by (nonlinear_arith);
}

proof fn lemma_ceil_sqrt_unique(n: nat, a: nat, b: nat)
    requires
        n >= 1,
        is_ceil_sqrt(n, a),
        is_ceil_sqrt(n, b),
    ensures
        a == b,
{
    if a < b {
        assert((a as int) * (a as int) <= (b - 1) * (b - 1)) by (nonlinear_arith)
            requires
                0 <= a <= b - 1,
        ;
    } else if b < a {
        assert((b as int) * (b as int) <= (a - 1) * (a - 1)) by (nonlinear_arith)
            requires
                0 <= b <= a - 1,
        ;
    }
}

proof fn lemma_ceil_sqrt_exists(n: nat, c: nat)
    requires
        1 <= c <= n,
        (c - 1) * (c - 1) < n,
    ensures
        is_ceil_sqrt(n, ceil_sqrt(n)),
    decreases n - c,
{
    if c * c >= n {
        assert(is_ceil_sqrt(n, c));
    } else {
        assert(c < n) by (nonlinear_arith)
            requires
                c >= 1,
                c * c < n,
        ;
        lemma_ceil_sqrt_exists(n, c + 1);
    }
}

/// For every `n >= 1`, `columns(n)` is `ceil(sqrt(n))`, which never exceeds
/// `n`, so it is also `min(ceil(sqrt(n)), n)`, and lies between 1 and `n`.
pub proof fn lemma_columns_in_range(n: nat)
    requires
        n >= 1,
    ensures
        spec_columns(n) == ceil_sqrt(n),
        is_ceil_sqrt(n, spec_columns(n)),
        1 <= spec_columns(n) <= n,
{
    lemma_ceil_sqrt_exists(n, 1);
    let r = ceil_sqrt(n);
    if r > n {
        assert((r - 1) * (r - 1) >= n) by (nonlinear_arith)
            requires
                r - 1 >= n,
                n >= 1,
        ;
    }
}

/// Applying the column count to its own result never increases it.
pub proof fn lemma_columns_self_application(n: nat)
    ensures
        spec_columns(spec_columns(n)) <= spec_columns(n),
        spec_columns(spec_columns(n)) >= 1,
{
    if n >= 1 {
        lemma_columns_in_range(n);
    }
    lemma_columns_in_range(spec_columns(n));
}

/// The number of columns for `window_count` windows: `min(ceil(sqrt(n)), n)`,
/// and 1 when there are no windows.
pub fn num_columns(window_count: usize) -> (c: usize)
    ensures
        c == spec_columns(window_count as nat),
        window_count >= 1 ==> is_ceil_sqrt(window_count as nat, c as nat),
        c >= 1,
        window_count >= 1 ==> c <= window_count,
{
    if window_count == 0 {
        return 1;
    }
    // Binary search for the least `c` with `c * c >= window_count`.
    let mut lo: usize = 1;
    let mut hi: usize = window_count;
    proof {
        assert(hi * hi >= window_count) by (nonlinear_arith)
            requires
                hi == window_count,
                hi >= 1,
        ;
    }
    while lo < hi
        invariant
            1 <= lo <= hi <= window_count,
            hi * hi >= window_count,
            (lo - 1) * (lo - 1) < window_count,
        decreases hi - lo,
    {
        let mid = lo + (hi - lo) / 2;
        proof {
            lemma_square_le_iff(mid as int, (window_count - 1) as int);
        }
        if mid <= (window_count - 1) / mid {
            lo = mid + 1;
        } else {
            hi = mid;
        }
    }
    let c = lo;
    proof {
        lemma_columns_in_range(window_count as nat);
        lemma_ceil_sqrt_unique(window_count as nat, c as nat, ceil_sqrt(window_count as nat));
    }
    if c < window_count {
        c
    } else {
        window_count
    }
}

proof fn lemma_total_size(n: nat, w: nat, k: nat)
    requires
        w >= 1,
    ensures
        total_size(n, w, k) == if k * w <= n { k * w } else { n },
    decreases k,
{
    if k > 0 {
        let j = (k - 1) as nat;
        lemma_total_size(n, w, j);
        assert(k * w == j * w + w) by (nonlinear_arith)
            requires
                k == j + 1,
        ;
        assert((j + 1) * w == k * w);
        assert(total_size(n, w, k) == total_size(n, w, j) + column_size(n, w, j));
        if j * w >= n {
            assert(k * w >= n);
        }
    } else {
        assert(k * w == 0) by (nonlinear_arith)
            requires
                k == 0,
        ;
    }
}

proof fn lemma_last_column_filled(n: nat, c: nat, w: nat)
    requires
        c >= 1,
        w * c <= n + c - 1,
        (c - 1) * (c - 1) < n,
    ensures
        (c - 1) * w < n,
{
    let a = (c - 1) as int;
    assert(a * (w * c) <= a * (n + c - 1)) by (nonlinear_arith)
        requires
            a >= 0,
            w * c <= n + c - 1,
    ;
    assert(a * (n + c - 1) == a * n + a * a) by (nonlinear_arith)
        requires
            a == c - 1,
    ;
    assert(a * (w * c) == (a * w) * c) by (nonlinear_arith);
    assert(a * n + n == c * n) by (nonlinear_arith)
        requires
            a == c - 1,
    ;
    assert((a * w) * c < n * c) by (nonlinear_arith)
        requires
            (a * w) * c <= a * n + a * a,
            a * a < n,
            a * n + n == c * n,
    ;
    assert(a * w < n) by (nonlinear_arith)
        requires
            (a * w) * c < n * c,
            c >= 1,
    ;
}

/// Dealing `n >= 1` windows out `w = ceil(n / c)` per column over
/// `c = columns(n)` columns places every window exactly once: the column
/// sizes add up to `n`. No column is left empty, in particular none of index
/// below `ceil(n / w)`.
pub proof fn lemma_columns_cover_windows(n: nat)
    requires
        n >= 1,
    ensures
        total_size(n, spec_per_column(n), spec_columns(n)) == n,
        forall|i: nat| i < spec_columns(n) ==> #[trigger] column_size(n, spec_per_column(n), i) > 0,
        forall|i: nat|
            i < ceil_div(n, spec_per_column(n)) ==> #[trigger] column_size(n, spec_per_column(n), i) > 0,
{
    let c = spec_columns(n);
    let w = spec_per_column(n);
    lemma_columns_in_range(n);
    lemma_ceil_div_bounds(n, c);
    assert(w >= 1) by (nonlinear_arith)
        requires
            w * c >= n,
            n >= 1,
    ;
    assert(c * w >= n) by (nonlinear_arith)
        requires
            w * c >= n,
    ;
    lemma_total_size(n, w, c);
    lemma_last_column_filled(n, c, w);
    assert forall|i: nat| i < c implies #[trigger] column_size(n, w, i) > 0 by {
        assert(i * w <= (c - 1) * w) by (nonlinear_arith)
            requires
                i <= c - 1,
                w >= 0,
        ;
    }
    let q = ceil_div(n, w);
    lemma_ceil_div_bounds(n, w);
    assert forall|i: nat| i < q implies #[trigger] column_size(n, w, i) > 0 by {
        assert(i * w < n) by (nonlinear_arith)
            requires
                i + 1 <= q,
                q * w < n + w,
                w >= 1,
        ;
    }
}

/// The windows per column, `ceil(n / columns)`, for `columns >= 1`.
pub fn windows_per_column(window_count: usize, columns: usize) -> (w: usize)
    requires
        columns >= 1,
    ensures
        w == ceil_div(window_count as nat, columns as nat),
{
    let q = window_count / columns;
    let r = window_count % columns;
    proof {
        lemma_fundamental_div_mod(window_count as int, columns as int);
        lemma_mod_pos_bound(window_count as int, columns as int);
        if r != 0 {
            assert(q < window_count) by (nonlinear_arith)
                requires
                    window_count == columns * q + r,
                    columns >= 2,
                    r >= 1,
            ;
        }
    }
    let w = if r == 0 { q } else { q + 1 };
    proof {
        let n = window_count as int;
        let d = columns as int;
        assert(q * d == d * q) by (nonlinear_arith);
        if r == 0 {
            lemma_fundamental_div_mod_converse(n + d - 1, d, q as int, d - 1);
        } else {
            assert((q + 1) * d == q * d + d) by (nonlinear_arith);
            lemma_fundamental_div_mod_converse(n + d - 1, d, q + 1, r - 1);
        }
    }
    w
}

/// The number of windows that each column receives when `window_count >= 1`
/// windows are arranged, left to right.
pub fn column_sizes(window_count: usize) -> (sizes: Vec<usize>)
    requires
        window_count >= 1,
    ensures
        sizes@.len() == spec_distribution(window_count as nat).len(),
        forall|i: int|
            0 <= i < sizes@.len() ==> sizes@[i] == spec_distribution(window_count as nat)[i],
{
    let ghost n = window_count as nat;
    let columns = num_columns(window_count);
    let per_column = windows_per_column(window_count, columns);
    proof {
        lemma_columns_cover_windows(n);
    }
    let mut sizes: Vec<usize> = Vec::new();
    let mut start: usize = 0;
    let mut column_idx: usize = 0;
    while column_idx < columns
        invariant
            n == window_count,
            columns == spec_columns(n),
            per_column == spec_per_column(n),
            column_idx <= columns,
            start == if column_idx * per_column <= n { column_idx * per_column } else { n as int },
            forall|i: nat| i < columns ==> #[trigger] column_size(n, per_column as nat, i) > 0,
            sizes@.len() == column_idx,
            forall|i: int|
                0 <= i < column_idx ==> sizes@[i] == column_size(n, per_column as nat, i as nat),
        ensures
            sizes@.len() == columns,
            forall|i: int|
                0 <= i < columns ==> sizes@[i] == column_size(n, per_column as nat, i as nat),
        decreases columns - column_idx,
    {
        assert(column_size(n, per_column as nat, column_idx as nat) > 0);
        if start >= window_count {
            break;
        }
        let end = if window_count - start > per_column {
            start + per_column
        } else {
            window_count
        };
        proof {
            assert((column_idx + 1) * per_column == column_idx * per_column + per_column)
                by (nonlinear_arith);
        }
        sizes.push(end - start);
        start = end;
        column_idx = column_idx + 1;
    }
    sizes
}

} // verus!
