//! The chart's data model: named series of numeric values.
//!
//! Values are carried as integers in hundredths of a data unit, so a value
//! of two and a half units is stored as `250`. This keeps every derived
//! quantity — scale factors, marking labels rounded to two decimal places —
//! exactly representable.

use vstd::prelude::*;

verus! {

/// The largest magnitude a data value may have, in hundredths. Bounds of
/// this size keep every product the layout pass forms inside an `i128`.
pub const VALUE_LIMIT: i64 = 1_000_000_000;

/// The largest number of series, and of values within one series, a chart
/// accepts. Bounds of this size keep every product the layout pass forms
/// inside an `i128`.
pub const COUNT_LIMIT: usize = 10_000;

/// One named series of values. Identity is `id`: it is stable across
/// mutation and drives color lookup.
#[derive(Debug, Clone)]
pub struct Dataset {
    pub id: u32,
    pub name: String,
    pub data: Vec<i64>,
}

/// An ordered collection of series; insertion order is draw order and
/// cluster-slot order.
#[derive(Debug)]
pub struct BarChartData {
    pub datasets: Vec<Dataset>,
}

/// A dataset's values all lie within the magnitude limit, and there are not
/// too many of them.
pub open spec fn dataset_wf(d: Dataset) -> bool {
    &&& d.data@.len() <= COUNT_LIMIT
    &&& forall|i: int| 0 <= i < d.data@.len() ==> -VALUE_LIMIT <= #[trigger] d.data@[i] <= VALUE_LIMIT
}

/// Every series of the collection is well-formed and there are not too many
/// series.
pub open spec fn data_wf(data: BarChartData) -> bool {
    &&& data.datasets@.len() <= COUNT_LIMIT
    &&& forall|i: int| 0 <= i < data.datasets@.len() ==> dataset_wf(#[trigger] data.datasets@[i])
}

/// The length of the longest series; zero when there are none.
pub open spec fn spec_max_len(s: Seq<Dataset>) -> int
    decreases s.len(),
{
    if s.len() == 0 {
        0
    } else {
        let rest = spec_max_len(s.drop_last());
        let last = s.last().data@.len() as int;
        if rest < last {
            last
        } else {
            rest
        }
    }
}

/// The largest magnitude among all values of all series; zero when there is
/// no value at all.
pub open spec fn spec_max_abs(s: Seq<Dataset>) -> int
    decreases s.len(),
{
    if s.len() == 0 {
        0
    } else {
        let rest = spec_max_abs(s.drop_last());
        let last = spec_max_abs_values(s.last().data@);
        if rest < last {
            last
        } else {
            rest
        }
    }
}

/// The largest magnitude among the values of one series.
pub open spec fn spec_max_abs_values(s: Seq<i64>) -> int
    decreases s.len(),
{
    if s.len() == 0 {
        0
    } else {
        let rest = spec_max_abs_values(s.drop_last());
        let last = abs_val(s.last() as int);
        if rest < last {
            last
        } else {
            rest
        }
    }
}

/// The absolute value of an integer.
pub open spec fn abs_val(v: int) -> int {
    if v < 0 {
        -v
    } else {
        v
    }
}

/// `spec_max_len` is at least the length of every series.
pub proof fn lemma_max_len_ge(s: Seq<Dataset>, i: int)
    requires
        0 <= i < s.len(),
    ensures
        s[i].data@.len() <= spec_max_len(s),
    decreases s.len(),
{
    if i == s.len() - 1 {
    } else {
        assert(s.drop_last()[i] == s[i]);
        lemma_max_len_ge(s.drop_last(), i);
    }
}

/// `spec_max_abs` is at least the magnitude of every value.
pub proof fn lemma_max_abs_ge(s: Seq<Dataset>, i: int, j: int)
    requires
        0 <= i < s.len(),
        0 <= j < s[i].data@.len(),
    ensures
        abs_val(s[i].data@[j] as int) <= spec_max_abs(s),
    decreases s.len(),
{
    if i == s.len() - 1 {
        lemma_max_abs_values_ge(s[i].data@, j);
    } else {
        assert(s.drop_last()[i] == s[i]);
        lemma_max_abs_ge(s.drop_last(), i, j);
    }
}

/// `spec_max_abs_values` is at least the magnitude of every value.
pub proof fn lemma_max_abs_values_ge(s: Seq<i64>, j: int)
    requires
        0 <= j < s.len(),
    ensures
        abs_val(s[j] as int) <= spec_max_abs_values(s),
    decreases s.len(),
{
    if j == s.len() - 1 {
    } else {
        assert(s.drop_last()[j] == s[j]);
        lemma_max_abs_values_ge(s.drop_last(), j);
    }
}

impl Dataset {
    pub fn new(id: u32, name: String, data: Vec<i64>) -> (r: Dataset)
        ensures
            r.id == id,
            r.name@ == name@,
            r.data@ == data@,
    {
        Dataset { id, name, data }
    }
}

impl BarChartData {
    pub fn new(datasets: Vec<Dataset>) -> (r: BarChartData)
        ensures
            r.datasets@ == datasets@,
    {
        BarChartData { datasets }
    }

    /// The number of clusters: the length of the longest series.
    pub fn get_biggest_amount_of_data_entries_in_one_dataset(&self) -> (r: usize)
        ensures
            r == spec_max_len(self.datasets@),
    {
        let mut result: usize = 0;
        let n = self.datasets.len();
        for idx in 0..n
            invariant
                n == self.datasets@.len(),
                result == spec_max_len(self.datasets@.subrange(0, idx as int)),
        {
            proof {
                let pre = self.datasets@.subrange(0, idx as int);
                let cur = self.datasets@.subrange(0, idx as int + 1);
                assert(cur.drop_last() =~= pre);
                assert(cur.last() == self.datasets@[idx as int]);
            }
            if result < self.datasets[idx].data.len() {
                result = self.datasets[idx].data.len();
            }
        }
        proof {
            assert(self.datasets@.subrange(0, n as int) =~= self.datasets@);
        }
        result
    }

    /// The largest magnitude among all data values, in hundredths.
    pub fn get_biggest_data_entry_abs(&self) -> (r: i64)
        requires
            data_wf(*self),
        ensures
            r == spec_max_abs(self.datasets@),
            0 <= r <= VALUE_LIMIT,
    {
        let mut result: i64 = 0;
        let n = self.datasets.len();
        for idx in 0..n
            invariant
                n == self.datasets@.len(),
                data_wf(*self),
                result == spec_max_abs(self.datasets@.subrange(0, idx as int)),
                0 <= result <= VALUE_LIMIT,
        {
            proof {
                let pre = self.datasets@.subrange(0, idx as int);
                let cur = self.datasets@.subrange(0, idx as int + 1);
                assert(cur.drop_last() =~= pre);
                assert(cur.last() == self.datasets@[idx as int]);
                assert(dataset_wf(self.datasets@[idx as int]));
            }
            let dataset = &self.datasets[idx];
            let m = dataset.data.len();
            let mut inner: i64 = 0;
            for j in 0..m
                invariant
                    m == dataset.data@.len(),
                    dataset_wf(*dataset),
                    inner == spec_max_abs_values(dataset.data@.subrange(0, j as int)),
                    0 <= inner <= VALUE_LIMIT,
            {
                proof {
                    let pre = dataset.data@.subrange(0, j as int);
                    let cur = dataset.data@.subrange(0, j as int + 1);
                    assert(cur.drop_last() =~= pre);
                    assert(cur.last() == dataset.data@[j as int]);
                }
                let v = dataset.data[j];
                let a = if v < 0 {
                    -v
                } else {
                    v
                };
                if inner < a {
                    inner = a;
                }
            }
            proof {
                assert(dataset.data@.subrange(0, m as int) =~= dataset.data@);
            }
            if result < inner {
                result = inner;
            }
        }
        proof {
            assert(self.datasets@.subrange(0, n as int) =~= self.datasets@);
        }
        result
    }
}

/// The cluster count is never negative.
pub proof fn lemma_max_len_nonneg(s: Seq<Dataset>)
    ensures
        spec_max_len(s) >= 0,
    decreases s.len(),
{
    if s.len() > 0 {
        lemma_max_len_nonneg(s.drop_last());
    }
}

/// With every series well-formed, the cluster count stays within the
/// series-length limit.
pub proof fn lemma_max_len_bounded(s: Seq<Dataset>)
    requires
        forall|i: int| 0 <= i < s.len() ==> dataset_wf(#[trigger] s[i]),
    ensures
        spec_max_len(s) <= COUNT_LIMIT,
    decreases s.len(),
{
    if s.len() > 0 {
        assert(forall|i: int| 0 <= i < s.drop_last().len() ==> s.drop_last()[i] == s[i]);
        lemma_max_len_bounded(s.drop_last());
    }
}

} // verus!
