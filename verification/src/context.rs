//! Per-node layout facts and the width-distribution arithmetic.
//!
//! A [`Context`] is computed for each node by its parent during the single
//! top-down assignment pass: the width available to the node, how many
//! siblings share the parent, how many of those are raw passthrough nodes,
//! and the node's own index. A node is never rendered before its context is
//! assigned.
//!
//! [`distribute_widths`] is the column-style arithmetic: children that
//! declare a percentage get that share of the container, children that
//! declare pixels get them literally, and the rest split what remains
//! evenly. All values are in hundredths, as in [`Size`].

use vstd::arithmetic::div_mod::{
    lemma_div_is_ordered, lemma_fundamental_div_mod, lemma_fundamental_div_mod_converse,
};
use vstd::arithmetic::mul::lemma_mul_inequality;
use vstd::prelude::*;

use crate::size::Size;

verus! {

/// Layout facts a parent computes for one of its children.
#[derive(Clone, Copy, Debug)]
pub struct Context {
    pub container_width: Option<Size>,
    pub sibling_count: usize,
    pub raw_sibling_count: usize,
    pub index: usize,
}

impl Context {
    /// Raw siblings are a subset of all siblings, and the width, when
    /// known, is within arithmetic bounds.
    pub open spec fn wf(self) -> bool {
        &&& self.raw_sibling_count <= self.sibling_count
        &&& (self.container_width matches Some(w) ==> w.wf())
    }

    /// Builds the context a parent assigns to one child.
    pub fn new(
        container_width: Option<Size>,
        sibling_count: usize,
        raw_sibling_count: usize,
        index: usize,
    ) -> (r: Context)
        requires
            raw_sibling_count <= sibling_count,
            container_width matches Some(w) ==> w.wf(),
        ensures
            r.container_width == container_width,
            r.sibling_count == sibling_count,
            r.raw_sibling_count == raw_sibling_count,
            r.index == index,
            r.wf(),
    {
        Context { container_width, sibling_count, raw_sibling_count, index }
    }
}

/// Bound on the widths fed to the distribution arithmetic, in hundredths.
pub const MAX_WIDTH_HUNDREDTHS: u64 = 1_000_000_000;

/// Largest child list the distribution arithmetic accepts.
pub const MAX_CHILDREN: u64 = 1000;

/// What one child declares about its own width.
#[derive(Clone, Copy, Debug, PartialEq, Eq, Structural)]
pub enum DeclaredWidth {
    /// A percentage of the container, in hundredths of a percent.
    Percent(u64),
    /// A literal pixel width, in hundredths of a pixel.
    Pixel(u64),
    /// No explicit width: an equal share of what remains.
    Auto,
}

/// The pixel width one declaration consumes from a container of width `c`.
/// Auto children consume nothing here; their share is computed afterwards.
pub open spec fn spec_explicit_width(c: int, d: DeclaredWidth) -> int {
    match d {
        DeclaredWidth::Percent(p) => c * p / 10000,
        DeclaredWidth::Pixel(x) => x as int,
        DeclaredWidth::Auto => 0,
    }
}

/// Total pixel width consumed by the explicit declarations.
pub open spec fn spec_used_width(c: int, ds: Seq<DeclaredWidth>) -> int
    decreases ds.len(),
{
    if ds.len() == 0 {
        0
    } else {
        spec_used_width(c, ds.drop_last()) + spec_explicit_width(c, ds.last())
    }
}

/// How many children declared no width.
pub open spec fn spec_auto_count(ds: Seq<DeclaredWidth>) -> int
    decreases ds.len(),
{
    if ds.len() == 0 {
        0
    } else {
        spec_auto_count(ds.drop_last()) + (if ds.last() is Auto {
            1int
        } else {
            0int
        })
    }
}

/// The equal share each auto child receives: what the explicit widths left
/// of the container, divided evenly, and nothing when nothing is left.
pub open spec fn spec_auto_share(c: int, ds: Seq<DeclaredWidth>) -> int {
    let used = spec_used_width(c, ds);
    let autos = spec_auto_count(ds);
    if autos == 0 || used >= c {
        0
    } else {
        (c - used) / autos
    }
}

/// The computed pixel width of child `i`.
pub open spec fn spec_child_width(c: int, ds: Seq<DeclaredWidth>, i: int) -> int {
    match ds[i] {
        DeclaredWidth::Percent(p) => c * p / 10000,
        DeclaredWidth::Pixel(x) => x as int,
        DeclaredWidth::Auto => spec_auto_share(c, ds),
    }
}

/// Sum of the computed widths of the first `k` children.
pub open spec fn spec_total_width(c: int, ds: Seq<DeclaredWidth>, k: int) -> int
    decreases k,
{
    if k <= 0 {
        0
    } else {
        spec_total_width(c, ds, k - 1) + spec_child_width(c, ds, k - 1)
    }
}

proof fn lemma_explicit_width_bound(c: int, d: DeclaredWidth)
    requires
        0 <= c <= MAX_WIDTH_HUNDREDTHS,
        d matches DeclaredWidth::Percent(p) ==> p <= MAX_WIDTH_HUNDREDTHS,
        d matches DeclaredWidth::Pixel(x) ==> x <= MAX_WIDTH_HUNDREDTHS,
    ensures
        0 <= spec_explicit_width(c, d) <= 100_000_000_000_000,
{
    match d {
        DeclaredWidth::Percent(p) => {
            lemma_mul_inequality(c, MAX_WIDTH_HUNDREDTHS as int, p as int);
            lemma_mul_inequality(p as int, MAX_WIDTH_HUNDREDTHS as int,
                MAX_WIDTH_HUNDREDTHS as int);
            lemma_div_is_ordered(0, c * p, 10000);
            lemma_div_is_ordered(c * p, 1_000_000_000_000_000_000, 10000);
        }
        _ => {}
    }
}

/// Distributes a container's pixel width over its children, per their
/// declarations: percentage children get `container * percent / 100`
/// (computed in hundredths), pixel children get their literal value, and
/// the children without an explicit width split the remainder evenly.
pub fn distribute_widths(container: u64, declared: &Vec<DeclaredWidth>) -> (r: Vec<u64>)
    requires
        container <= MAX_WIDTH_HUNDREDTHS,
        declared@.len() <= MAX_CHILDREN,
        forall|i: int|
            0 <= i < declared@.len() ==> (match #[trigger] declared@[i] {
                DeclaredWidth::Percent(p) => p <= MAX_WIDTH_HUNDREDTHS,
                DeclaredWidth::Pixel(x) => x <= MAX_WIDTH_HUNDREDTHS,
                DeclaredWidth::Auto => true,
            }),
    ensures
        r@.len() == declared@.len(),
        forall|i: int|
            0 <= i < declared@.len() ==> #[trigger] r@[i] == spec_child_width(
                container as int,
                declared@,
                i,
            ),
{
    let ghost ds = declared@;
    let n = declared.len();
    let mut used: u64 = 0;
    let mut autos: u64 = 0;
    let mut i: usize = 0;
    while i < n
        invariant
            i <= n,
            n == ds.len(),
            ds == declared@,
            container <= MAX_WIDTH_HUNDREDTHS,
            ds.len() <= MAX_CHILDREN,
            forall|j: int|
                0 <= j < ds.len() ==> (match #[trigger] ds[j] {
                    DeclaredWidth::Percent(p) => p <= MAX_WIDTH_HUNDREDTHS,
                    DeclaredWidth::Pixel(x) => x <= MAX_WIDTH_HUNDREDTHS,
                    DeclaredWidth::Auto => true,
                }),
            used == spec_used_width(container as int, ds.take(i as int)),
            autos == spec_auto_count(ds.take(i as int)),
            used <= i * 100_000_000_000_000,
            autos <= i,
        decreases n - i,
    {
        proof {
            assert(ds.take(i + 1).drop_last() =~= ds.take(i as int));
            assert(ds.take(i + 1).last() == ds[i as int]);
            lemma_explicit_width_bound(container as int, ds[i as int]);
            lemma_mul_inequality(i as int, MAX_CHILDREN as int, 100_000_000_000_000);
        }
        match declared[i] {
            DeclaredWidth::Percent(p) => {
                used = used + container * p / 10000;
            }
            DeclaredWidth::Pixel(x) => {
                used = used + x;
            }
            DeclaredWidth::Auto => {
                autos = autos + 1;
            }
        }
        i += 1;
    }
    proof {
        assert(ds.take(n as int) =~= ds);
    }
    let share: u64 = if autos == 0 || used >= container {
        0
    } else {
        (container - used) / autos
    };
    let mut r: Vec<u64> = Vec::new();
    let mut i: usize = 0;
    while i < n
        invariant
            i <= n,
            n == ds.len(),
            ds == declared@,
            container <= MAX_WIDTH_HUNDREDTHS,
            forall|j: int|
                0 <= j < ds.len() ==> (match #[trigger] ds[j] {
                    DeclaredWidth::Percent(p) => p <= MAX_WIDTH_HUNDREDTHS,
                    DeclaredWidth::Pixel(x) => x <= MAX_WIDTH_HUNDREDTHS,
                    DeclaredWidth::Auto => true,
                }),
            share == spec_auto_share(container as int, ds),
            r@.len() == i,
            forall|j: int|
                0 <= j < i ==> #[trigger] r@[j] == spec_child_width(container as int, ds, j),
        decreases n - i,
    {
        proof {
            lemma_explicit_width_bound(container as int, ds[i as int]);
        }
        match declared[i] {
            DeclaredWidth::Percent(p) => {
                r.push(container * p / 10000);
            }
            DeclaredWidth::Pixel(x) => {
                r.push(x);
            }
            DeclaredWidth::Auto => {
                r.push(share);
            }
        }
        i += 1;
    }
    r
}

/// Integer division distributes sub-additively: `a/k + b/k <= (a+b)/k`.
proof fn lemma_div_superadditive(a: int, b: int, k: int)
    requires
        0 <= a,
        0 <= b,
        0 < k,
    ensures
        a / k + b / k <= (a + b) / k,
{
    lemma_fundamental_div_mod(a, k);
    lemma_fundamental_div_mod(b, k);
    let q = a / k + b / k;
    let r = a % k + b % k;
    assert(k * q == k * (a / k) + k * (b / k)) by {
        vstd::arithmetic::mul::lemma_mul_is_distributive_add(k, a / k, b / k);
    }
    vstd::arithmetic::mul::lemma_mul_is_commutative(k, q);
    vstd::arithmetic::mul::lemma_mul_is_commutative(k, q + 1);
    if r < k {
        lemma_fundamental_div_mod_converse(a + b, k, q, r);
    } else {
        assert(k * (q + 1) == k * q + k * 1) by {
            vstd::arithmetic::mul::lemma_mul_is_distributive_add(k, q, 1);
        }
        lemma_fundamental_div_mod_converse(a + b, k, q + 1, r - k);
    }
}

/// Sum of the percentage declarations, in hundredths of a percent.
pub open spec fn spec_percent_sum(ds: Seq<DeclaredWidth>) -> int
    decreases ds.len(),
{
    if ds.len() == 0 {
        0
    } else {
        spec_percent_sum(ds.drop_last()) + (match ds.last() {
            DeclaredWidth::Percent(p) => p as int,
            _ => 0int,
        })
    }
}

/// All children declare a percentage.
pub open spec fn spec_all_percent(ds: Seq<DeclaredWidth>) -> bool {
    forall|i: int| 0 <= i < ds.len() ==> (#[trigger] ds[i]) is Percent
}

proof fn lemma_used_width_le_percent_share(c: int, ds: Seq<DeclaredWidth>)
    requires
        0 <= c,
        spec_all_percent(ds),
    ensures
        spec_used_width(c, ds) <= c * spec_percent_sum(ds) / 10000,
        0 <= spec_percent_sum(ds),
    decreases ds.len(),
{
    if ds.len() > 0 {
        let rest = ds.drop_last();
        assert(spec_all_percent(rest));
        lemma_used_width_le_percent_share(c, rest);
        let p = ds.last()->Percent_0 as int;
        lemma_mul_inequality(0, p, c);
        lemma_div_is_ordered(0, c * p, 10000);
        lemma_div_superadditive(c * spec_percent_sum(rest), c * p, 10000);
        assert(c * spec_percent_sum(rest) + c * p == c * spec_percent_sum(ds)) by {
            vstd::arithmetic::mul::lemma_mul_is_distributive_add(
                c,
                spec_percent_sum(rest),
                p,
            );
        }
        assert(0 <= c * spec_percent_sum(rest)) by {
            lemma_mul_inequality(0, spec_percent_sum(rest), c);
        }
    }
}

proof fn lemma_total_is_used_when_all_percent(c: int, ds: Seq<DeclaredWidth>, k: int)
    requires
        0 <= k <= ds.len(),
        spec_all_percent(ds),
    ensures
        spec_total_width(c, ds, k) == spec_used_width(c, ds.take(k)),
    decreases k,
{
    if k > 0 {
        lemma_total_is_used_when_all_percent(c, ds, k - 1);
        assert(ds.take(k).drop_last() =~= ds.take(k - 1));
        assert(ds.take(k).last() == ds[k - 1]);
    }
}

/// When every child declares a percentage and the percentages sum to at
/// most one hundred percent, the computed child widths sum to at most the
/// container's own width.
pub proof fn lemma_percent_widths_fit(c: int, ds: Seq<DeclaredWidth>)
    requires
        0 <= c,
        spec_all_percent(ds),
        spec_percent_sum(ds) <= 10000,
    ensures
        spec_total_width(c, ds, ds.len() as int) <= c,
{
    lemma_total_is_used_when_all_percent(c, ds, ds.len() as int);
    assert(ds.take(ds.len() as int) =~= ds);
    lemma_used_width_le_percent_share(c, ds);
    lemma_mul_inequality(spec_percent_sum(ds), 10000, c);
    assert(c * spec_percent_sum(ds) <= c * 10000) by {
        lemma_mul_inequality(spec_percent_sum(ds), 10000, c);
        vstd::arithmetic::mul::lemma_mul_is_commutative(c, spec_percent_sum(ds));
        vstd::arithmetic::mul::lemma_mul_is_commutative(c, 10000);
    }
    lemma_div_is_ordered(c * spec_percent_sum(ds), c * 10000, 10000);
    assert(c * 10000 / 10000 == c) by {
        lemma_fundamental_div_mod_converse(c * 10000, 10000, c, 0);
    }
}

} // verus!
