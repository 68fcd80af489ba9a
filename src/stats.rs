use vstd::prelude::*;

verus! {

/// Number of counters in a [`Stats`] record.
pub const FIELD_COUNT: usize = 12;

/// A measurement record: every field is a counter, merged by addition.
#[derive(Debug, Clone, Copy)]
pub struct Stats {
    pub total_files: u64,
    pub total_lines: u64,
    pub total_tokens: u64,
    pub total_statements: u64,
    pub unsafe_score: u64,
    pub unsafe_statements: u64,
    pub unsafe_fns: u64,
    pub unsafe_pub_fns: u64,
    pub unsafe_blocks: u64,
    pub unsafe_impls: u64,
    pub unsafe_other: u64,
    pub unsafe_lines_low_fidelity: u64,
}

/// The record's counters in field order.
impl View for Stats {
    type V = Seq<int>;

    open spec fn view(&self) -> Seq<int> {
        seq![
            self.total_files as int,
            self.total_lines as int,
            self.total_tokens as int,
            self.total_statements as int,
            self.unsafe_score as int,
            self.unsafe_statements as int,
            self.unsafe_fns as int,
            self.unsafe_pub_fns as int,
            self.unsafe_blocks as int,
            self.unsafe_impls as int,
            self.unsafe_other as int,
            self.unsafe_lines_low_fidelity as int,
        ]
    }
}

/// The all-zero record's counters.
pub open spec fn zero_counters() -> Seq<int> {
    Seq::new(FIELD_COUNT as nat, |i: int| 0int)
}

/// Field-wise sum of two counter sequences.
pub open spec fn merge(a: Seq<int>, b: Seq<int>) -> Seq<int> {
    Seq::new(FIELD_COUNT as nat, |i: int| a[i] + b[i])
}

/// Counters of the merge of all records of `s`, folded from the left.
pub open spec fn total(s: Seq<Stats>) -> Seq<int>
    decreases s.len(),
{
    if s.len() == 0 {
        zero_counters()
    } else {
        merge(total(s.drop_last()), s.last()@)
    }
}

/// Every counter of the merge of `a` and `b` fits in a `u64`.
pub open spec fn merge_fits(a: Seq<int>, b: Seq<int>) -> bool {
    forall|i: int| 0 <= i < FIELD_COUNT ==> #[trigger] a[i] + b[i] <= u64::MAX
}

/// Every counter of the total of `s` fits in a `u64`.
pub open spec fn total_fits(s: Seq<Stats>) -> bool {
    forall|i: int| 0 <= i < FIELD_COUNT ==> #[trigger] total(s)[i] <= u64::MAX
}

impl Stats {
    /// The empty record, identity of the merge.
    pub fn zero() -> (r: Stats)
        ensures
            r@ == zero_counters(),
    {
        let r = Stats {
            total_files: 0,
            total_lines: 0,
            total_tokens: 0,
            total_statements: 0,
            unsafe_score: 0,
            unsafe_statements: 0,
            unsafe_fns: 0,
            unsafe_pub_fns: 0,
            unsafe_blocks: 0,
            unsafe_impls: 0,
            unsafe_other: 0,
            unsafe_lines_low_fidelity: 0,
        };
        assert(r@ =~= zero_counters());
        r
    }

    /// Adds each counter of `rhs` to the matching counter of `self`.
    pub fn add_assign(&mut self, rhs: Stats)
        requires
            merge_fits(old(self)@, rhs@),
        ensures
            final(self)@ == merge(old(self)@, rhs@),
    {
        assert(0int < FIELD_COUNT);
        assert(old(self)@[0] + rhs@[0] <= u64::MAX);
        assert(old(self)@[1] + rhs@[1] <= u64::MAX);
        assert(old(self)@[2] + rhs@[2] <= u64::MAX);
        assert(old(self)@[3] + rhs@[3] <= u64::MAX);
        assert(old(self)@[4] + rhs@[4] <= u64::MAX);
        assert(old(self)@[5] + rhs@[5] <= u64::MAX);
        assert(old(self)@[6] + rhs@[6] <= u64::MAX);
        assert(old(self)@[7] + rhs@[7] <= u64::MAX);
        assert(old(self)@[8] + rhs@[8] <= u64::MAX);
        assert(old(self)@[9] + rhs@[9] <= u64::MAX);
        assert(old(self)@[10] + rhs@[10] <= u64::MAX);
        assert(old(self)@[11] + rhs@[11] <= u64::MAX);
        self.total_files = self.total_files + rhs.total_files;
        self.total_lines = self.total_lines + rhs.total_lines;
        self.total_tokens = self.total_tokens + rhs.total_tokens;
        self.total_statements = self.total_statements + rhs.total_statements;
        self.unsafe_score = self.unsafe_score + rhs.unsafe_score;
        self.unsafe_statements = self.unsafe_statements + rhs.unsafe_statements;
        self.unsafe_fns = self.unsafe_fns + rhs.unsafe_fns;
        self.unsafe_pub_fns = self.unsafe_pub_fns + rhs.unsafe_pub_fns;
        self.unsafe_blocks = self.unsafe_blocks + rhs.unsafe_blocks;
        self.unsafe_impls = self.unsafe_impls + rhs.unsafe_impls;
        self.unsafe_other = self.unsafe_other + rhs.unsafe_other;
        self.unsafe_lines_low_fidelity = self.unsafe_lines_low_fidelity
            + rhs.unsafe_lines_low_fidelity;
        assert(final(self)@ =~= merge(old(self)@, rhs@));
    }

    /// The merge of two records.
    pub fn add(self, rhs: Stats) -> (r: Stats)
        requires
            merge_fits(self@, rhs@),
        ensures
            r@ == merge(self@, rhs@),
    {
        let mut r = self;
        r.add_assign(rhs);
        r
    }
}

impl Default for Stats {
    fn default() -> (r: Stats)
        ensures
            r@ == zero_counters(),
    {
        Stats::zero()
    }
}

impl Stats {
    /// The merge of all records of `items`, folded from the left.
    pub fn sum(items: &Vec<Stats>) -> (r: Stats)
        requires
            total_fits(items@),
        ensures
            r@ == total(items@),
    {
        let mut r = Stats::zero();
        let mut i: usize = 0;
        while i < items.len()
            invariant
                i <= items@.len(),
                total_fits(items@),
                r@ == total(items@.take(i as int)),
            decreases items@.len() - i,
        {
            proof {
                let ghost next = items@.take(i as int + 1);
                assert(next.drop_last() =~= items@.take(i as int));
                lemma_prefix_total_bounded(items@, i as int + 1);
                assert forall|k: int| 0 <= k < FIELD_COUNT implies #[trigger] r@[k] + items@[i as int]@[k]
                    <= u64::MAX by {
                    assert(total(next)[k] <= total(items@)[k]);
                }
            }
            r.add_assign(items[i]);
            i = i + 1;
        }
        assert(items@.take(items@.len() as int) =~= items@);
        r
    }
}

impl Stats {
    /// The merge of two records, or `None` where a counter would not fit.
    pub fn try_add(self, rhs: Stats) -> (r: Option<Stats>)
        ensures
            r is Some <==> merge_fits(self@, rhs@),
            r is Some ==> r->Some_0@ == merge(self@, rhs@),
    {
        if self.total_files > u64::MAX - rhs.total_files
            || self.total_lines > u64::MAX - rhs.total_lines
            || self.total_tokens > u64::MAX - rhs.total_tokens
            || self.total_statements > u64::MAX - rhs.total_statements
            || self.unsafe_score > u64::MAX - rhs.unsafe_score
            || self.unsafe_statements > u64::MAX - rhs.unsafe_statements
            || self.unsafe_fns > u64::MAX - rhs.unsafe_fns
            || self.unsafe_pub_fns > u64::MAX - rhs.unsafe_pub_fns
            || self.unsafe_blocks > u64::MAX - rhs.unsafe_blocks
            || self.unsafe_impls > u64::MAX - rhs.unsafe_impls
            || self.unsafe_other > u64::MAX - rhs.unsafe_other
            || self.unsafe_lines_low_fidelity > u64::MAX - rhs.unsafe_lines_low_fidelity {
            return None;
        }
        assert(merge_fits(self@, rhs@)) by {
            assert forall|i: int| 0 <= i < FIELD_COUNT implies #[trigger] self@[i] + rhs@[i]
                <= u64::MAX by {
                assert(self@[i] + rhs@[i] <= u64::MAX);
            }
        }
        Some(self.add(rhs))
    }

    /// The merge of all records of `items`, or `None` where a counter of the
    /// total would not fit.
    pub fn try_sum(items: &Vec<Stats>) -> (r: Option<Stats>)
        ensures
            r is Some <==> total_fits(items@),
            r is Some ==> r->Some_0@ == total(items@),
    {
        let mut r = Stats::zero();
        let mut i: usize = 0;
        while i < items.len()
            invariant
                i <= items@.len(),
                r@ == total(items@.take(i as int)),
            decreases items@.len() - i,
        {
            let ghost next = items@.take(i as int + 1);
            assert(next.drop_last() =~= items@.take(i as int));
            match r.try_add(items[i]) {
                Some(m) => {
                    r = m;
                },
                None => {
                    proof {
                        lemma_prefix_total_bounded(items@, i as int + 1);
                        let k = choose|k: int| 0 <= k < FIELD_COUNT && #[trigger] (r@[k] + items@[i as int]@[k]) > u64::MAX;
                        assert(total(next)[k] > u64::MAX);
                    }
                    return None;
                },
            }
            i = i + 1;
        }
        assert(items@.take(items@.len() as int) =~= items@);
        proof {
            assert forall|k: int| 0 <= k < FIELD_COUNT implies #[trigger] total(items@)[k] <= u64::MAX by {
                assert(r@[k] <= u64::MAX);
            }
        }
        Some(r)
    }
}

/// The total of a prefix is, counter by counter, at most the whole total.
proof fn lemma_prefix_total_bounded(s: Seq<Stats>, j: int)
    requires
        0 <= j <= s.len(),
    ensures
        forall|k: int| 0 <= k < FIELD_COUNT ==> #[trigger] total(s.take(j))[k] <= total(s)[k],
    decreases s.len(),
{
    if j < s.len() {
        lemma_prefix_total_bounded(s.drop_last(), j);
        assert(s.drop_last().take(j) =~= s.take(j));
    } else {
        assert(s.take(j) =~= s);
    }
}

/// Taking one record out of a sequence and merging it back last leaves the
/// total unchanged.
proof fn lemma_total_remove(s: Seq<Stats>, j: int)
    requires
        0 <= j < s.len(),
    ensures
        total(s) == merge(total(s.remove(j)), s[j]@),
    decreases s.len(),
{
    if j == s.len() - 1 {
        assert(s.remove(j) =~= s.drop_last());
    } else {
        let d = s.drop_last();
        lemma_total_remove(d, j);
        assert(d.remove(j) =~= s.remove(j).drop_last());
        let x = total(d.remove(j));
        assert(merge(merge(x, s[j]@), s.last()@) =~= merge(merge(x, s.last()@), s[j]@));
    }
}

/// Merging is commutative: `a + b` and `b + a` have the same counters.
pub proof fn merge_commutes(a: Stats, b: Stats)
    ensures
        merge(a@, b@) == merge(b@, a@),
{
    assert(merge(a@, b@) =~= merge(b@, a@));
}

/// Merging is associative: `(a + b) + c` and `a + (b + c)` have the same counters.
pub proof fn merge_associates(a: Stats, b: Stats, c: Stats)
    ensures
        merge(merge(a@, b@), c@) == merge(a@, merge(b@, c@)),
{
    assert(merge(merge(a@, b@), c@) =~= merge(a@, merge(b@, c@)));
}

/// The all-zero record is the identity of the merge, on either side.
pub proof fn merge_zero_identity(a: Stats)
    ensures
        merge(a@, zero_counters()) == a@,
        merge(zero_counters(), a@) == a@,
{
    assert(merge(a@, zero_counters()) =~= a@);
    assert(merge(zero_counters(), a@) =~= a@);
}

/// Aggregation does not depend on order: any two sequences holding the same
/// records, each as often, have the same total.
pub proof fn total_order_independent(s: Seq<Stats>, t: Seq<Stats>)
    requires
        s.to_multiset() == t.to_multiset(),
    ensures
        total(s) == total(t),
    decreases s.len(),
{
    broadcast use vstd::seq_lib::group_to_multiset_ensures;
    if s.len() == 0 {
        assert(s.to_multiset().len() == s.len());
        assert(t.to_multiset().len() == t.len());
        assert(t =~= s);
    } else {
        let x = s.last();
        assert(s.contains(x));
        assert(t.to_multiset().count(x) > 0);
        assert(t.contains(x));
        let j = choose|j: int| 0 <= j < t.len() && t[j] == x;
        assert(s.drop_last().push(x) =~= s);
        assert(s.drop_last().to_multiset() =~= s.to_multiset().remove(x));
        assert(t.remove(j).to_multiset() =~= t.to_multiset().remove(x));
        total_order_independent(s.drop_last(), t.remove(j));
        lemma_total_remove(t, j);
    }
}

} // verus!
