use vstd::pervasive::VecAdditionalExecFns;
use vstd::prelude::*;

verus! {

/// The text that ends up on row `j` after the pairs in `pairs` are applied in
/// order to an empty row buffer: the payload of the last pair tagged `j`, or
/// `None` when no pair carries `j`.
pub open spec fn last_payload(pairs: Seq<(usize, String)>, j: int) -> Option<String>
    decreases pairs.len(),
{
    if pairs.len() == 0 {
        None
    } else if pairs.last().0 == j {
        Some(pairs.last().1)
    } else {
        last_payload(pairs.drop_last(), j)
    }
}

/// Collects rendered rows as the worker threads finish them, in whatever
/// order they arrive, and hands them back in row-index order.  This is the
/// flat results-by-index buffer behind the parallel renderer's collector.
pub struct RowBuffer {
    rows: Vec<Option<String>>,
}

impl RowBuffer {
    /// One slot per image row, holding the row's text once it has arrived.
    pub closed spec fn spec_rows(&self) -> Seq<Option<String>> {
        self.rows@
    }

    /// An empty buffer with `height` vacant slots.
    pub fn new(height: usize) -> (r: RowBuffer)
        ensures
            r.spec_rows().len() == height,
            forall|j: int| 0 <= j < height ==> r.spec_rows()[j] is None,
    {
        let mut rows: Vec<Option<String>> = Vec::new();
        let mut i: usize = 0;
        while i < height
            invariant
                i <= height,
                rows@.len() == i,
                forall|j: int| 0 <= j < i ==> rows@[j] is None,
            decreases height - i,
        {
            rows.push(None);
            i = i + 1;
        }
        RowBuffer { rows }
    }

    /// Record the text of row `i`, replacing whatever the slot held.
    pub fn insert(&mut self, i: usize, text: String)
        requires
            i < old(self).spec_rows().len(),
        ensures
            final(self).spec_rows() == old(self).spec_rows().update(i as int, Some(text)),
    {
        self.rows.set(i, Some(text));
    }

    /// Whether every row has arrived.
    pub fn is_complete(&self) -> (r: bool)
        ensures
            r <==> forall|j: int| 0 <= j < self.spec_rows().len() ==> self.spec_rows()[j] is Some,
    {
        let mut i: usize = 0;
        let n = self.rows.len();
        while i < n
            invariant
                i <= n,
                n == self.spec_rows().len(),
                forall|j: int| 0 <= j < i ==> self.spec_rows()[j] is Some,
            decreases n - i,
        {
            if self.rows[i].is_none() {
                return false;
            }
            i = i + 1;
        }
        true
    }

    /// Give the rows back in row-index order.
    pub fn into_rows(self) -> (r: Vec<String>)
        requires
            forall|j: int| 0 <= j < self.spec_rows().len() ==> self.spec_rows()[j] is Some,
        ensures
            r@.len() == self.spec_rows().len(),
            forall|j: int| 0 <= j < r@.len() ==> r@[j] == self.spec_rows()[j].unwrap(),
    {
        let mut rows = self.rows;
        let ghost orig = rows@;
        let mut out: Vec<String> = Vec::new();
        while rows.len() > 0
            invariant
                out@.len() + rows@.len() == orig.len(),
                rows@ == orig.skip(out@.len() as int),
                forall|j: int| 0 <= j < orig.len() ==> orig[j] is Some,
                forall|j: int| 0 <= j < out@.len() ==> out@[j] == orig[j].unwrap(),
            decreases rows@.len(),
        {
            let s = rows.remove(0);
            out.push(s.unwrap());
            proof {
                assert(rows@ =~= orig.skip(out@.len() as int));
            }
        }
        out
    }
}

/// Every pair names a real row, and every row of the image is named by some
/// pair: exactly the condition under which a full image can be reassembled.
pub open spec fn covers(pairs: Seq<(usize, String)>, height: int) -> bool {
    &&& forall|k: int| 0 <= k < pairs.len() ==> (#[trigger] pairs[k].0) < height
    &&& forall|j: int| 0 <= j < height ==> last_payload(pairs, j) is Some
}

/// Apply completed rows to an empty buffer of `height` slots and, once every
/// row is present, hand the row texts back in row-index order.  Returns
/// `None` exactly when some pair names a row outside the image or some row
/// never arrived; the parallel renderer delivers each row exactly once, so
/// for it this always succeeds.
pub fn reassemble(pairs: &Vec<(usize, String)>, height: usize) -> (r: Option<Vec<String>>)
    ensures
        r is Some <==> covers(pairs@, height as int),
        r matches Some(rows) ==> {
            &&& rows@.len() == height
            &&& forall|j: int|
                0 <= j < height ==> rows@[j] == last_payload(pairs@, j).unwrap()
        },
{
    let mut buffer = RowBuffer::new(height);
    let mut k: usize = 0;
    let n = pairs.len();
    while k < n
        invariant
            k <= n,
            n == pairs@.len(),
            buffer.spec_rows().len() == height,
            forall|k2: int| 0 <= k2 < k ==> (#[trigger] pairs@[k2].0) < height,
            forall|j: int|
                0 <= j < height ==> #[trigger] buffer.spec_rows()[j] == last_payload(
                    pairs@.take(k as int),
                    j,
                ),
        decreases n - k,
    {
        let i = pairs[k].0;
        let text = pairs[k].1.clone();
        if i >= height {
            proof {
                assert(pairs@[k as int].0 >= height);
                assert(!covers(pairs@, height as int));
            }
            return None;
        }
        buffer.insert(i, text);
        proof {
            assert(pairs@.take(k + 1).drop_last() =~= pairs@.take(k as int));
            assert(pairs@.take(k + 1).last() == pairs@[k as int]);
            assert(forall|j: int|
                0 <= j < height ==> #[trigger] last_payload(pairs@.take(k + 1), j) == if j
                    == i as int {
                    Some(pairs@[k as int].1)
                } else {
                    last_payload(pairs@.take(k as int), j)
                });
        }
        k = k + 1;
    }
    proof {
        assert(pairs@.take(n as int) =~= pairs@);
    }
    if buffer.is_complete() {
        proof {
            assert(forall|j: int|
                0 <= j < height ==> #[trigger] last_payload(pairs@, j) == buffer.spec_rows()[j]);
            assert(covers(pairs@, height as int));
        }
        Some(buffer.into_rows())
    } else {
        proof {
            let len = buffer.spec_rows().len() as int;
            assert(!(forall|j: int| 0 <= j < len ==> buffer.spec_rows()[j] is Some));
            let j = choose|j: int| 0 <= j < len && !(buffer.spec_rows()[j] is Some);
            assert(buffer.spec_rows()[j] == last_payload(pairs@, j));
            assert(!covers(pairs@, height as int));
        }
        None
    }
}

/// Law: when exactly as many pairs arrive as the image has rows, each pair
/// tagged with a distinct row index inside the image, every row is covered:
/// the collector cannot refuse such a delivery.
pub proof fn lemma_complete_delivery_covers(pairs: Seq<(usize, String)>, height: int)
    requires
        pairs.len() == height,
        forall|k: int| 0 <= k < pairs.len() ==> (#[trigger] pairs[k].0) < height,
        forall|k1: int, k2: int|
            0 <= k1 < k2 < pairs.len() ==> (#[trigger] pairs[k1].0) != (#[trigger] pairs[k2].0),
    ensures
        covers(pairs, height),
{
    let indices = pairs.map_values(|p: (usize, String)| p.0 as int);
    assert forall|i: int, j: int|
        0 <= i < indices.len() && 0 <= j < indices.len() && i != j implies indices[i]
        != indices[j] by {
        if i < j {
            assert(pairs[i].0 != pairs[j].0);
        } else {
            assert(pairs[j].0 != pairs[i].0);
        }
    }
    assert(indices.no_duplicates());
    indices.unique_seq_to_set();
    assert(indices.to_set().subset_of(vstd::set_lib::set_int_range(0, height)));
    vstd::set_lib::lemma_int_range(0, height);
    vstd::set_lib::lemma_subset_equality(
        indices.to_set(),
        vstd::set_lib::set_int_range(0, height),
    );
    assert forall|j: int| 0 <= j < height implies #[trigger] last_payload(pairs, j)
        is Some by {
        assert(vstd::set_lib::set_int_range(0, height).contains(j));
        assert(indices.to_set().contains(j));
        let k = choose|k: int| 0 <= k < indices.len() && indices[k] == j;
        assert(pairs[k].0 == j);
        lemma_reassembly_order_independent(pairs, j, k);
    }
}

/// Law: when each row index appears exactly once among the collected pairs,
/// the text reassembled onto row `j` is the payload of the one pair tagged
/// `j` — whatever order the pairs arrived in.
pub proof fn lemma_reassembly_order_independent(pairs: Seq<(usize, String)>, j: int, k: int)
    requires
        0 <= k < pairs.len(),
        pairs[k].0 == j,
        forall|k1: int, k2: int|
            0 <= k1 < k2 < pairs.len() ==> (#[trigger] pairs[k1].0) != (#[trigger] pairs[k2].0),
    ensures
        last_payload(pairs, j) == Some(pairs[k].1),
    decreases pairs.len(),
{
    if pairs.last().0 == j {
        assert(k == pairs.len() - 1);
    } else {
        assert(k < pairs.len() - 1);
        lemma_reassembly_order_independent(pairs.drop_last(), j, k);
    }
}

} // verus!
