//! Hand-made iterators over owned data: several walks over a number
//! sequence, the three classic traversals of a binary search tree, row,
//! column and diagonal walks over a matrix, and chaining, filtering and
//! grouping adapters. Each iterator owns its data and hands items out through
//! an inherent `next`.

use vstd::prelude::*;

use vstd::seq_lib::lemma_multiset_commutative;

verus! {

broadcast use vstd::seq_lib::group_to_multiset_ensures;

/// A growable sequence of numbers with several ways to walk it.
pub struct NumberSequence {
    pub numbers: Vec<i64>,
}

impl NumberSequence {
    pub fn new() -> (r: NumberSequence)
        ensures
            r.numbers@.len() == 0,
    {
        NumberSequence { numbers: Vec::new() }
    }

    pub fn add(&mut self, number: i64)
        ensures
            final(self).numbers@ == old(self).numbers@.push(number),
    {
        self.numbers.push(number);
    }

    pub fn len(&self) -> (r: usize)
        ensures
            r == self.numbers@.len(),
    {
        self.numbers.len()
    }

    pub fn is_empty(&self) -> (r: bool)
        ensures
            r == (self.numbers@.len() == 0),
    {
        self.numbers.is_empty()
    }

    /// A front-to-back walk over a copy of the numbers.
    pub fn iter(&self) -> (r: NumberIterator)
        ensures
            r.items@ == self.numbers@,
            r.position == 0,
    {
        NumberIterator { items: copy_numbers(&self.numbers), position: 0 }
    }

    /// A walk that yields only the even numbers.
    pub fn iter_even(&self) -> (r: EvenNumberIterator)
        ensures
            r.items@ == self.numbers@,
            r.position == 0,
    {
        EvenNumberIterator { items: copy_numbers(&self.numbers), position: 0 }
    }

    /// A back-to-front walk.
    pub fn iter_reverse(&self) -> (r: ReverseNumberIterator)
        ensures
            r.items@ == self.numbers@,
            r.remaining == self.numbers@.len(),
    {
        let items = copy_numbers(&self.numbers);
        let remaining = items.len();
        ReverseNumberIterator { items, remaining }
    }

    /// A walk over the clipped half-open range `[start, end)`.
    pub fn iter_range(&self, start: usize, end: usize) -> (r: RangeNumberIterator)
        ensures
            r.items@ == self.numbers@,
            r.end == (if end as int <= self.numbers@.len() {
                end as int
            } else {
                self.numbers@.len() as int
            }),
            r.current == (if start as int <= r.end {
                start as int
            } else {
                r.end as int
            }),
    {
        let items = copy_numbers(&self.numbers);
        let n = items.len();
        let e = if end <= n {
            end
        } else {
            n
        };
        let s = if start <= e {
            start
        } else {
            e
        };
        RangeNumberIterator { items, current: s, end: e }
    }
}

impl Default for NumberSequence {
    /// The same empty sequence `new` yields.
    fn default() -> (r: NumberSequence)
        ensures
            r.numbers@.len() == 0,
    {
        NumberSequence::new()
    }
}

fn copy_numbers(v: &Vec<i64>) -> (r: Vec<i64>)
    ensures
        r@ == v@,
{
    let mut out: Vec<i64> = Vec::new();
    let mut i: usize = 0;
    while i < v.len()
        invariant
            i <= v@.len(),
            out@ == v@.take(i as int),
        decreases v@.len() - i,
    {
        out.push(v[i]);
        proof {
            assert(out@ =~= v@.take(i + 1));
        }
        i += 1;
    }
    proof {
        assert(v@.take(v@.len() as int) =~= v@);
    }
    out
}

/// Yields the items in order.
pub struct NumberIterator {
    pub items: Vec<i64>,
    pub position: usize,
}

impl NumberIterator {
    /// The next item, advancing; `None` exactly at the end.
    pub fn next(&mut self) -> (r: Option<i64>)
        requires
            old(self).position <= old(self).items@.len(),
        ensures
            final(self).items == old(self).items,
            if old(self).position < old(self).items@.len() {
                r == Some(old(self).items@[old(self).position as int]) && final(self).position
                    == old(self).position + 1
            } else {
                r is None && final(self).position == old(self).position
            },
    {
        if self.position < self.items.len() {
            let v = self.items[self.position];
            self.position = self.position + 1;
            Some(v)
        } else {
            None
        }
    }
}

/// Whether a number is even.
pub open spec fn is_even(v: i64) -> bool {
    v as int % 2 == 0
}

/// Yields only the even items, in order.
pub struct EvenNumberIterator {
    pub items: Vec<i64>,
    pub position: usize,
}

/// The index of the first even item at or after `i`, or the length.
pub open spec fn next_even(s: Seq<i64>, i: int) -> int
    recommends
        0 <= i <= s.len(),
    decreases s.len() - i,
{
    if i < 0 || i >= s.len() {
        s.len() as int
    } else if is_even(s[i]) {
        i
    } else {
        next_even(s, i + 1)
    }
}

impl EvenNumberIterator {
    /// The next even item, advancing past it; `None` exactly when no even
    /// item is left.
    pub fn next(&mut self) -> (r: Option<i64>)
        requires
            old(self).position <= old(self).items@.len(),
        ensures
            final(self).items == old(self).items,
            ({
                let j = next_even(old(self).items@, old(self).position as int);
                if j < old(self).items@.len() {
                    r == Some(old(self).items@[j]) && final(self).position == j + 1
                } else {
                    r is None && final(self).position == old(self).items@.len()
                }
            }),
    {
        while self.position < self.items.len()
            invariant
                self.items == old(self).items,
                old(self).position <= self.position <= self.items@.len(),
                next_even(self.items@, old(self).position as int) == next_even(
                    self.items@,
                    self.position as int,
                ),
            decreases self.items@.len() - self.position,
        {
            let current = self.items[self.position];
            self.position = self.position + 1;
            if current % 2 == 0 {
                proof {
                    assert(is_even(current));
                }
                return Some(current);
            }
            proof {
                assert(!is_even(current));
            }
        }
        None
    }
}

/// Yields the items back to front.
pub struct ReverseNumberIterator {
    pub items: Vec<i64>,
    pub remaining: usize,
}

impl ReverseNumberIterator {
    /// The next item from the back; `None` exactly when all are out.
    pub fn next(&mut self) -> (r: Option<i64>)
        requires
            old(self).remaining <= old(self).items@.len(),
        ensures
            final(self).items == old(self).items,
            if old(self).remaining > 0 {
                r == Some(old(self).items@[old(self).remaining - 1]) && final(self).remaining
                    == old(self).remaining - 1
            } else {
                r is None && final(self).remaining == 0
            },
    {
        if self.remaining > 0 {
            self.remaining = self.remaining - 1;
            Some(self.items[self.remaining])
        } else {
            None
        }
    }
}

/// Yields the items of a clipped index range, in order.
pub struct RangeNumberIterator {
    pub items: Vec<i64>,
    pub current: usize,
    pub end: usize,
}

impl RangeNumberIterator {
    /// The next item of the range; `None` exactly at its end.
    pub fn next(&mut self) -> (r: Option<i64>)
        requires
            old(self).current <= old(self).end,
            old(self).end <= old(self).items@.len(),
        ensures
            final(self).items == old(self).items,
            final(self).end == old(self).end,
            if old(self).current < old(self).end {
                r == Some(old(self).items@[old(self).current as int]) && final(self).current
                    == old(self).current + 1
            } else {
                r is None && final(self).current == old(self).current
            },
    {
        if self.current < self.end {
            let v = self.items[self.current];
            self.current = self.current + 1;
            Some(v)
        } else {
            None
        }
    }
}

/// A node of the search tree: smaller-or-equal values to the left.
struct TreeNode {
    value: i64,
    left: Option<Box<TreeNode>>,
    right: Option<Box<TreeNode>>,
}

/// The in-order reading of a subtree.
spec fn in_order_of(n: Option<Box<TreeNode>>) -> Seq<i64>
    decreases n,
{
    match n {
        None => Seq::empty(),
        Some(b) => in_order_of(b.left) + seq![b.value] + in_order_of(b.right),
    }
}

/// The pre-order reading of a subtree.
spec fn pre_order_of(n: Option<Box<TreeNode>>) -> Seq<i64>
    decreases n,
{
    match n {
        None => Seq::empty(),
        Some(b) => seq![b.value] + pre_order_of(b.left) + pre_order_of(b.right),
    }
}

/// The post-order reading of a subtree.
spec fn post_order_of(n: Option<Box<TreeNode>>) -> Seq<i64>
    decreases n,
{
    match n {
        None => Seq::empty(),
        Some(b) => post_order_of(b.left) + post_order_of(b.right) + seq![b.value],
    }
}

/// Whether a reading is weakly sorted.
pub open spec fn sorted(s: Seq<i64>) -> bool {
    forall|i: int, j: int| 0 <= i < j < s.len() ==> s[i] <= s[j]
}

/// A sorted three-part reading splits into sorted parts bounded by the
/// middle, and conversely.
proof fn lemma_sorted_three(a: Seq<i64>, m: i64, b: Seq<i64>)
    ensures
        sorted(a + seq![m] + b) <==> (sorted(a) && sorted(b) && (forall|i: int|
            0 <= i < a.len() ==> a[i] <= m) && (forall|j: int| 0 <= j < b.len() ==> m <= b[j])),
{
    let whole = a + seq![m] + b;
    assert(whole[a.len() as int] == m);
    assert(forall|i: int| 0 <= i < a.len() ==> whole[i] == a[i]);
    assert(forall|j: int| 0 <= j < b.len() ==> whole[a.len() + 1 + j] == b[j]);
    if sorted(a) && sorted(b) && (forall|i: int| 0 <= i < a.len() ==> a[i] <= m) && (forall|j: int|
        0 <= j < b.len() ==> m <= b[j]) {
        assert forall|i: int, j: int| 0 <= i < j < whole.len() implies whole[i] <= whole[j] by {
            if j < a.len() {
            } else if j == a.len() {
            } else {
                assert(whole[j] == b[j - a.len() - 1]);
                if i > a.len() {
                    assert(whole[i] == b[i - a.len() - 1]);
                } else if i < a.len() {
                    assert(whole[i] == a[i]);
                    assert(m <= whole[j]);
                }
            }
        }
    }
}

/// Membership in a three-part reading.
proof fn lemma_concat3_contains(a: Seq<i64>, m: i64, b: Seq<i64>, x: i64)
    ensures
        (a + seq![m] + b).contains(x) <==> (a.contains(x) || x == m || b.contains(x)),
{
    let whole = a + seq![m] + b;
    if whole.contains(x) {
        let i = choose|i: int| 0 <= i < whole.len() && whole[i] == x;
        if i < a.len() {
            assert(a[i] == x);
        } else if i > a.len() {
            assert(b[i - a.len() - 1] == x);
        }
    }
    if a.contains(x) {
        let i = choose|i: int| 0 <= i < a.len() && a[i] == x;
        assert(whole[i] == x);
    }
    if x == m {
        assert(whole[a.len() as int] == x);
    }
    if b.contains(x) {
        let j = choose|j: int| 0 <= j < b.len() && b[j] == x;
        assert(whole[a.len() + 1 + j] == x);
    }
}

fn insert_node(node: Option<Box<TreeNode>>, value: i64) -> (r: Option<Box<TreeNode>>)
    ensures
        in_order_of(r).to_multiset() == in_order_of(node).to_multiset().insert(value),
        sorted(in_order_of(node)) ==> sorted(in_order_of(r)),
        forall|x: i64|
            in_order_of(r).contains(x) ==> in_order_of(node).contains(x) || x == value,
    decreases node,
{
    let ghost before = in_order_of(node);
    match node {
        None => {
            let leaf = Some(Box::new(TreeNode { value, left: None, right: None }));
            proof {
                assert(in_order_of(leaf) =~= Seq::empty().push(value));
                assert(in_order_of(leaf).to_multiset() =~= before.to_multiset().insert(value));
                assert(forall|x: i64| in_order_of(leaf).contains(x) ==> x == value);
            }
            leaf
        },
        Some(boxed) => {
            let mut n = *boxed;
            let ghost ls = in_order_of(n.left);
            let ghost rs = in_order_of(n.right);
            let ghost mid = n.value;
            proof {
                lemma_multiset_commutative(ls + seq![mid], rs);
                lemma_multiset_commutative(ls, seq![mid]);
                assert(seq![mid] =~= Seq::empty().push(mid));
                lemma_sorted_three(ls, mid, rs);
            }
            if value <= n.value {
                let taken = n.left.take();
                n.left = insert_node(taken, value);
                let ghost ls2 = in_order_of(n.left);
                let out = Some(Box::new(n));
                proof {
                    assert(in_order_of(out) == ls2 + seq![mid] + rs);
                    lemma_multiset_commutative(ls2 + seq![mid], rs);
                    lemma_multiset_commutative(ls2, seq![mid]);
                    assert(in_order_of(out).to_multiset() =~= before.to_multiset().insert(value));
                    if sorted(before) {
                        assert forall|i: int| 0 <= i < ls2.len() implies ls2[i] <= mid by {
                            assert(ls2.contains(ls2[i]));
                            if ls.contains(ls2[i]) {
                                let j = choose|j: int| 0 <= j < ls.len() && ls[j] == ls2[i];
                                assert(ls[j] <= mid);
                            } else {
                                assert(ls2[i] == value);
                            }
                        }
                        lemma_sorted_three(ls2, mid, rs);
                        assert(sorted(in_order_of(out)));
                    }
                    assert forall|x: i64|
                        in_order_of(out).contains(x) implies before.contains(x) || x == value by {
                        lemma_concat3_contains(ls2, mid, rs, x);
                        lemma_concat3_contains(ls, mid, rs, x);
                    }
                }
                out
            } else {
                let taken = n.right.take();
                n.right = insert_node(taken, value);
                let ghost rs2 = in_order_of(n.right);
                let out = Some(Box::new(n));
                proof {
                    assert(in_order_of(out) == ls + seq![mid] + rs2);
                    lemma_multiset_commutative(ls + seq![mid], rs2);
                    lemma_multiset_commutative(ls + seq![mid], rs);
                    assert(in_order_of(out).to_multiset() =~= before.to_multiset().insert(value));
                    if sorted(before) {
                        assert forall|j: int| 0 <= j < rs2.len() implies mid <= rs2[j] by {
                            assert(rs2.contains(rs2[j]));
                            if rs.contains(rs2[j]) {
                                let k = choose|k: int| 0 <= k < rs.len() && rs[k] == rs2[j];
                                assert(mid <= rs[k]);
                            } else {
                                assert(rs2[j] == value);
                            }
                        }
                        lemma_sorted_three(ls, mid, rs2);
                        assert(sorted(in_order_of(out)));
                    }
                    assert forall|x: i64|
                        in_order_of(out).contains(x) implies before.contains(x) || x == value by {
                        lemma_concat3_contains(ls, mid, rs2, x);
                        lemma_concat3_contains(ls, mid, rs, x);
                    }
                }
                out
            }
        },
    }
}

/// A binary search tree of numbers; its in-order reading stays sorted, and
/// an insert adds exactly one occurrence of the value.
pub struct BinaryTree {
    root: Option<Box<TreeNode>>,
}

impl BinaryTree {
    /// The tree's in-order reading.
    pub closed spec fn view_seq(self) -> Seq<i64> {
        in_order_of(self.root)
    }

    /// The tree's pre-order reading.
    pub closed spec fn pre_seq(self) -> Seq<i64> {
        pre_order_of(self.root)
    }

    /// The tree's post-order reading.
    pub closed spec fn post_seq(self) -> Seq<i64> {
        post_order_of(self.root)
    }

    /// Well-formedness: the in-order reading is sorted.
    pub closed spec fn wf(self) -> bool {
        sorted(in_order_of(self.root))
    }

    /// An empty tree.
    pub fn new() -> (r: BinaryTree)
        ensures
            r.view_seq() == Seq::<i64>::empty(),
            r.wf(),
    {
        BinaryTree { root: None }
    }

    /// Adds one occurrence of the value; the reading stays sorted, so the
    /// value lands at its sorted position.
    pub fn insert(&mut self, value: i64)
        requires
            old(self).wf(),
        ensures
            final(self).wf(),
            final(self).view_seq().to_multiset() == old(self).view_seq().to_multiset().insert(
                value,
            ),
            final(self).view_seq().len() == old(self).view_seq().len() + 1,
    {
        let root = self.root.take();
        self.root = insert_node(root, value);
        proof {
            assert(self.view_seq().to_multiset().len() == self.view_seq().len());
        }
    }

    /// An iterator over the in-order reading.
    pub fn in_order_iter(&self) -> (r: InOrderIterator)
        ensures
            r.values@ == self.view_seq(),
            r.position == 0,
    {
        let mut values: Vec<i64> = Vec::new();
        collect_in_order(&self.root, &mut values);
        proof {
            assert(Seq::<i64>::empty() + self.view_seq() =~= self.view_seq());
        }
        InOrderIterator { values, position: 0 }
    }

    /// An iterator over the pre-order reading.
    pub fn pre_order_iter(&self) -> (r: PreOrderIterator)
        ensures
            r.values@ == self.pre_seq(),
            r.position == 0,
    {
        let mut values: Vec<i64> = Vec::new();
        collect_pre_order(&self.root, &mut values);
        proof {
            assert(Seq::<i64>::empty() + self.pre_seq() =~= self.pre_seq());
        }
        PreOrderIterator { values, position: 0 }
    }

    /// An iterator over the post-order reading.
    pub fn post_order_iter(&self) -> (r: PostOrderIterator)
        ensures
            r.values@ == self.post_seq(),
            r.position == 0,
    {
        let mut values: Vec<i64> = Vec::new();
        collect_post_order(&self.root, &mut values);
        proof {
            assert(Seq::<i64>::empty() + self.post_seq() =~= self.post_seq());
        }
        PostOrderIterator { values, position: 0 }
    }
}

impl Default for BinaryTree {
    /// The same empty tree `new` yields.
    fn default() -> (r: BinaryTree)
        ensures
            r.view_seq() == Seq::<i64>::empty(),
            r.wf(),
    {
        BinaryTree::new()
    }
}

fn collect_in_order(node: &Option<Box<TreeNode>>, out: &mut Vec<i64>)
    ensures
        final(out)@ == old(out)@ + in_order_of(*node),
    decreases *node,
{
    match node {
        None => {
            proof {
                assert(out@ =~= old(out)@ + in_order_of(*node));
            }
        },
        Some(b) => {
            collect_in_order(&b.left, out);
            out.push(b.value);
            collect_in_order(&b.right, out);
            proof {
                assert(out@ =~= old(out)@ + in_order_of(*node));
            }
        },
    }
}

fn collect_pre_order(node: &Option<Box<TreeNode>>, out: &mut Vec<i64>)
    ensures
        final(out)@ == old(out)@ + pre_order_of(*node),
    decreases *node,
{
    match node {
        None => {
            proof {
                assert(out@ =~= old(out)@ + pre_order_of(*node));
            }
        },
        Some(b) => {
            out.push(b.value);
            collect_pre_order(&b.left, out);
            collect_pre_order(&b.right, out);
            proof {
                assert(out@ =~= old(out)@ + pre_order_of(*node));
            }
        },
    }
}

fn collect_post_order(node: &Option<Box<TreeNode>>, out: &mut Vec<i64>)
    ensures
        final(out)@ == old(out)@ + post_order_of(*node),
    decreases *node,
{
    match node {
        None => {
            proof {
                assert(out@ =~= old(out)@ + post_order_of(*node));
            }
        },
        Some(b) => {
            collect_post_order(&b.left, out);
            collect_post_order(&b.right, out);
            out.push(b.value);
            proof {
                assert(out@ =~= old(out)@ + post_order_of(*node));
            }
        },
    }
}

/// Yields the in-order reading of a tree.
pub struct InOrderIterator {
    pub values: Vec<i64>,
    pub position: usize,
}

impl InOrderIterator {
    /// The next value, advancing; `None` exactly at the end.
    pub fn next(&mut self) -> (r: Option<i64>)
        requires
            old(self).position <= old(self).values@.len(),
        ensures
            final(self).values == old(self).values,
            if old(self).position < old(self).values@.len() {
                r == Some(old(self).values@[old(self).position as int]) && final(self).position
                    == old(self).position + 1
            } else {
                r is None && final(self).position == old(self).position
            },
    {
        if self.position < self.values.len() {
            let v = self.values[self.position];
            self.position = self.position + 1;
            Some(v)
        } else {
            None
        }
    }
}

/// Yields the pre-order reading of a tree.
pub struct PreOrderIterator {
    pub values: Vec<i64>,
    pub position: usize,
}

impl PreOrderIterator {
    /// The next value, advancing; `None` exactly at the end.
    pub fn next(&mut self) -> (r: Option<i64>)
        requires
            old(self).position <= old(self).values@.len(),
        ensures
            final(self).values == old(self).values,
            if old(self).position < old(self).values@.len() {
                r == Some(old(self).values@[old(self).position as int]) && final(self).position
                    == old(self).position + 1
            } else {
                r is None && final(self).position == old(self).position
            },
    {
        if self.position < self.values.len() {
            let v = self.values[self.position];
            self.position = self.position + 1;
            Some(v)
        } else {
            None
        }
    }
}

/// Yields the post-order reading of a tree.
pub struct PostOrderIterator {
    pub values: Vec<i64>,
    pub position: usize,
}

impl PostOrderIterator {
    /// The next value, advancing; `None` exactly at the end.
    pub fn next(&mut self) -> (r: Option<i64>)
        requires
            old(self).position <= old(self).values@.len(),
        ensures
            final(self).values == old(self).values,
            if old(self).position < old(self).values@.len() {
                r == Some(old(self).values@[old(self).position as int]) && final(self).position
                    == old(self).position + 1
            } else {
                r is None && final(self).position == old(self).position
            },
    {
        if self.position < self.values.len() {
            let v = self.values[self.position];
            self.position = self.position + 1;
            Some(v)
        } else {
            None
        }
    }
}

/// The matrix as a sequence of row readings.
pub open spec fn matrix_view(data: Seq<Vec<i64>>) -> Seq<Seq<i64>> {
    data.map_values(|row: Vec<i64>| row@)
}

/// A rectangular grid of numbers with several walks over it.
pub struct Matrix {
    pub data: Vec<Vec<i64>>,
    pub rows: usize,
    pub cols: usize,
}

impl Matrix {
    /// Well-formedness: the grid really is `rows` by `cols`.
    pub open spec fn wf(self) -> bool {
        &&& self.data@.len() == self.rows
        &&& forall|r: int| 0 <= r < self.rows ==> (#[trigger] self.data@[r])@.len() == self.cols
    }

    /// A zero-filled grid.
    pub fn new(rows: usize, cols: usize) -> (r: Matrix)
        ensures
            r.wf(),
            r.rows == rows,
            r.cols == cols,
            forall|i: int, j: int|
                0 <= i < rows && 0 <= j < cols ==> matrix_view(r.data@)[i][j] == 0,
    {
        let mut data: Vec<Vec<i64>> = Vec::new();
        let mut i: usize = 0;
        while i < rows
            invariant
                i <= rows,
                data@.len() == i,
                forall|k: int| 0 <= k < i ==> (#[trigger] data@[k])@ =~= Seq::new(cols as nat, |j: int| 0i64),
            decreases rows - i,
        {
            let row = vec![0i64; cols];
            proof {
                assert(row@ =~= Seq::new(cols as nat, |j: int| 0i64));
            }
            data.push(row);
            i += 1;
        }
        Matrix { data, rows, cols }
    }

    /// Writes one cell; out-of-bounds coordinates are refused and change
    /// nothing.
    pub fn set(&mut self, row: usize, col: usize, value: i64) -> (r: Result<(), String>)
        requires
            old(self).wf(),
        ensures
            final(self).wf(),
            final(self).rows == old(self).rows,
            final(self).cols == old(self).cols,
            r is Ok <==> row < old(self).rows && col < old(self).cols,
            r is Ok ==> matrix_view(final(self).data@) == matrix_view(old(self).data@).update(
                row as int,
                matrix_view(old(self).data@)[row as int].update(col as int, value),
            ),
            r is Err ==> *final(self) == *old(self) && (r->Err_0)@ == "Index out of bounds"@,
    {
        if row >= self.rows || col >= self.cols {
            return Err("Index out of bounds".to_owned());
        }
        self.data[row][col] = value;
        proof {
            assert(matrix_view(self.data@) =~= matrix_view(old(self).data@).update(
                row as int,
                matrix_view(old(self).data@)[row as int].update(col as int, value),
            ));
        }
        Ok(())
    }

    /// Reads one cell; `None` exactly out of bounds.
    pub fn get(&self, row: usize, col: usize) -> (r: Option<i64>)
        requires
            self.wf(),
        ensures
            if row < self.rows && col < self.cols {
                r == Some(matrix_view(self.data@)[row as int][col as int])
            } else {
                r is None
            },
    {
        if row < self.rows && col < self.cols {
            Some(self.data[row][col])
        } else {
            None
        }
    }

    pub fn rows(&self) -> (r: usize)
        ensures
            r == self.rows,
    {
        self.rows
    }

    pub fn cols(&self) -> (r: usize)
        ensures
            r == self.cols,
    {
        self.cols
    }

    /// A walk over one row; `None` for a row out of bounds.
    pub fn row_iter(&self, row: usize) -> (r: Option<RowIterator>)
        requires
            self.wf(),
        ensures
            if row < self.rows {
                match r {
                    Some(it) => it.row@ == matrix_view(self.data@)[row as int] && it.position == 0,
                    None => false,
                }
            } else {
                r is None
            },
    {
        if row < self.rows {
            Some(RowIterator { row: copy_numbers(&self.data[row]), position: 0 })
        } else {
            None
        }
    }

    /// A walk down one column; `None` for a column out of bounds.
    pub fn col_iter(&self, col: usize) -> (r: Option<ColIterator>)
        requires
            self.wf(),
        ensures
            if col < self.cols {
                match r {
                    Some(it) => it.items@.len() == self.rows && it.position == 0 && forall|k: int|
                        0 <= k < self.rows ==> it.items@[k] == matrix_view(
                            self.data@,
                        )[k][col as int],
                    None => false,
                }
            } else {
                r is None
            },
    {
        if col >= self.cols {
            return None;
        }
        let mut items: Vec<i64> = Vec::new();
        let mut i: usize = 0;
        while i < self.rows
            invariant
                self.wf(),
                col < self.cols,
                i <= self.rows,
                items@.len() == i,
                forall|k: int|
                    0 <= k < i ==> items@[k] == matrix_view(self.data@)[k][col as int],
            decreases self.rows - i,
        {
            items.push(self.data[i][col]);
            i += 1;
        }
        Some(ColIterator { items, position: 0 })
    }

    /// A walk down the main diagonal, as far as the grid is square.
    pub fn diagonal_iter(&self) -> (r: DiagonalIterator)
        requires
            self.wf(),
        ensures
            r.position == 0,
            r.items@.len() == (if self.rows <= self.cols {
                self.rows as int
            } else {
                self.cols as int
            }),
            forall|k: int|
                0 <= k < r.items@.len() ==> r.items@[k] == matrix_view(self.data@)[k][k],
    {
        let d = if self.rows <= self.cols {
            self.rows
        } else {
            self.cols
        };
        let mut items: Vec<i64> = Vec::new();
        let mut i: usize = 0;
        while i < d
            invariant
                self.wf(),
                d <= self.rows && d <= self.cols,
                i <= d,
                items@.len() == i,
                forall|k: int| 0 <= k < i ==> items@[k] == matrix_view(self.data@)[k][k],
            decreases d - i,
        {
            items.push(self.data[i][i]);
            i += 1;
        }
        DiagonalIterator { items, position: 0 }
    }

    /// A row-major walk over every cell with its coordinates.
    pub fn all_elements_iter(&self) -> (r: AllElementsIterator)
        requires
            self.wf(),
        ensures
            r.position == 0,
            r.entries@ == all_entries(matrix_view(self.data@), self.rows as int),
    {
        let mut entries: Vec<(usize, usize, i64)> = Vec::new();
        let ghost mv = matrix_view(self.data@);
        let mut i: usize = 0;
        proof {
            assert(entries@ =~= all_entries(mv, 0));
        }
        while i < self.rows
            invariant
                self.wf(),
                mv == matrix_view(self.data@),
                i <= self.rows,
                entries@ == all_entries(mv, i as int),
            decreases self.rows - i,
        {
            let mut j: usize = 0;
            while j < self.cols
                invariant
                    self.wf(),
                    mv == matrix_view(self.data@),
                    i < self.rows,
                    j <= self.cols,
                    entries@ == all_entries(mv, i as int) + row_entries(mv, i as int).take(
                        j as int,
                    ),
                decreases self.cols - j,
            {
                proof {
                    assert(row_entries(mv, i as int)[j as int] == (i, j, mv[i as int][j as int]));
                    assert(row_entries(mv, i as int).take(j + 1) =~= row_entries(
                        mv,
                        i as int,
                    ).take(j as int).push((i, j, mv[i as int][j as int])));
                }
                entries.push((i, j, self.data[i][j]));
                proof {
                    assert(entries@ =~= all_entries(mv, i as int) + row_entries(mv, i as int).take(
                        j + 1,
                    ));
                }
                j += 1;
            }
            proof {
                assert(row_entries(mv, i as int).take(self.cols as int) =~= row_entries(
                    mv,
                    i as int,
                ));
                assert(entries@ =~= all_entries(mv, i + 1));
            }
            i += 1;
        }
        AllElementsIterator { entries, position: 0 }
    }
}

/// One row of coordinate-value triples.
pub open spec fn row_entries(mv: Seq<Seq<i64>>, r: int) -> Seq<(usize, usize, i64)> {
    Seq::new(mv[r].len(), |c: int| (r as usize, c as usize, mv[r][c]))
}

/// The first `upto` rows of triples, row-major.
pub open spec fn all_entries(mv: Seq<Seq<i64>>, upto: int) -> Seq<(usize, usize, i64)>
    decreases upto,
{
    if upto <= 0 {
        Seq::empty()
    } else {
        all_entries(mv, upto - 1) + row_entries(mv, upto - 1)
    }
}

/// Yields one row of a matrix.
pub struct RowIterator {
    pub row: Vec<i64>,
    pub position: usize,
}

impl RowIterator {
    /// The next cell of the row; `None` exactly at its end.
    pub fn next(&mut self) -> (r: Option<i64>)
        requires
            old(self).position <= old(self).row@.len(),
        ensures
            final(self).row == old(self).row,
            if old(self).position < old(self).row@.len() {
                r == Some(old(self).row@[old(self).position as int]) && final(self).position == old(self).position + 1
            } else {
                r is None && final(self).position == old(self).position
            },
    {
        if self.position < self.row.len() {
            let v = self.row[self.position];
            self.position = self.position + 1;
            Some(v)
        } else {
            None
        }
    }
}

/// Yields one column of a matrix.
pub struct ColIterator {
    pub items: Vec<i64>,
    pub position: usize,
}

impl ColIterator {
    /// The next cell of the column; `None` exactly at its end.
    pub fn next(&mut self) -> (r: Option<i64>)
        requires
            old(self).position <= old(self).items@.len(),
        ensures
            final(self).items == old(self).items,
            if old(self).position < old(self).items@.len() {
                r == Some(old(self).items@[old(self).position as int]) && final(self).position
                    == old(self).position + 1
            } else {
                r is None && final(self).position == old(self).position
            },
    {
        if self.position < self.items.len() {
            let v = self.items[self.position];
            self.position = self.position + 1;
            Some(v)
        } else {
            None
        }
    }
}

/// Yields the main diagonal of a matrix.
pub struct DiagonalIterator {
    pub items: Vec<i64>,
    pub position: usize,
}

impl DiagonalIterator {
    /// The next diagonal cell; `None` exactly at the end.
    pub fn next(&mut self) -> (r: Option<i64>)
        requires
            old(self).position <= old(self).items@.len(),
        ensures
            final(self).items == old(self).items,
            if old(self).position < old(self).items@.len() {
                r == Some(old(self).items@[old(self).position as int]) && final(self).position
                    == old(self).position + 1
            } else {
                r is None && final(self).position == old(self).position
            },
    {
        if self.position < self.items.len() {
            let v = self.items[self.position];
            self.position = self.position + 1;
            Some(v)
        } else {
            None
        }
    }
}

/// Yields every cell of a matrix with its coordinates, row-major.
pub struct AllElementsIterator {
    pub entries: Vec<(usize, usize, i64)>,
    pub position: usize,
}

impl AllElementsIterator {
    /// The next coordinate-value triple; `None` exactly at the end.
    pub fn next(&mut self) -> (r: Option<(usize, usize, i64)>)
        requires
            old(self).position <= old(self).entries@.len(),
        ensures
            final(self).entries == old(self).entries,
            if old(self).position < old(self).entries@.len() {
                r == Some(old(self).entries@[old(self).position as int]) && final(self).position
                    == old(self).position + 1
            } else {
                r is None && final(self).position == old(self).position
            },
    {
        if self.position < self.entries.len() {
            let v = self.entries[self.position];
            self.position = self.position + 1;
            Some(v)
        } else {
            None
        }
    }
}

/// What one walk still has to give.
pub open spec fn walk_rest(it: NumberIterator) -> Seq<i64> {
    it.items@.skip(it.position as int)
}

/// What a chain of walks still has to give, from one of them on.
pub open spec fn chain_rest(its: Seq<NumberIterator>, idx: int) -> Seq<i64>
    decreases its.len() - idx,
{
    if idx < 0 || idx >= its.len() {
        Seq::empty()
    } else {
        walk_rest(its[idx]) + chain_rest(its, idx + 1)
    }
}

proof fn lemma_chain_rest_same_tail(a: Seq<NumberIterator>, b: Seq<NumberIterator>, idx: int)
    requires
        a.len() == b.len(),
        forall|k: int| idx <= k < a.len() ==> a[k] == b[k],
    ensures
        chain_rest(a, idx) == chain_rest(b, idx),
    decreases a.len() - idx,
{
    if 0 <= idx < a.len() {
        lemma_chain_rest_same_tail(a, b, idx + 1);
    }
}

/// Chains several walks into one.
pub struct CompositeIterator {
    pub iterators: Vec<NumberIterator>,
    pub current_index: usize,
}

impl CompositeIterator {
    /// Well-formedness: the index is within reach and every walk is within
    /// its items.
    pub open spec fn wf(self) -> bool {
        &&& self.current_index <= self.iterators@.len()
        &&& forall|k: int|
            0 <= k < self.iterators@.len() ==> (#[trigger] self.iterators@[k]).position
                <= self.iterators@[k].items@.len()
    }

    /// An empty chain.
    pub fn new() -> (r: CompositeIterator)
        ensures
            r.iterators@.len() == 0,
            r.current_index == 0,
            r.wf(),
    {
        CompositeIterator { iterators: Vec::new(), current_index: 0 }
    }

    /// Appends one walk to the chain.
    pub fn add_iterator(&mut self, iterator: NumberIterator)
        requires
            old(self).wf(),
            iterator.position <= iterator.items@.len(),
        ensures
            final(self).wf(),
            final(self).iterators@ == old(self).iterators@.push(iterator),
            final(self).current_index == old(self).current_index,
    {
        self.iterators.push(iterator);
    }

    /// The next item of the chain: the head of what is left, `None` exactly
    /// when nothing is left.
    pub fn next(&mut self) -> (r: Option<i64>)
        requires
            old(self).wf(),
        ensures
            final(self).wf(),
            final(self).iterators@.len() == old(self).iterators@.len(),
            ({
                let before = chain_rest(old(self).iterators@, old(self).current_index as int);
                let after = chain_rest(final(self).iterators@, final(self).current_index as int);
                match r {
                    Some(v) => before == seq![v] + after,
                    None => before.len() == 0 && after.len() == 0,
                }
            }),
    {
        while self.current_index < self.iterators.len()
            invariant
                self.wf(),
                self.iterators@.len() == old(self).iterators@.len(),
                chain_rest(self.iterators@, self.current_index as int) == chain_rest(
                    old(self).iterators@,
                    old(self).current_index as int,
                ),
            decreases self.iterators@.len() - self.current_index,
        {
            let idx = self.current_index;
            let ghost pre = self.iterators@;
            let item = self.iterators[idx].next();
            proof {
                assert(self.iterators@ =~= pre.update(
                    idx as int,
                    self.iterators@[idx as int],
                ));
                lemma_chain_rest_same_tail(self.iterators@, pre, idx + 1);
            }
            match item {
                Some(v) => {
                    proof {
                        assert(walk_rest(pre[idx as int]) =~= seq![v] + walk_rest(
                            self.iterators@[idx as int],
                        ));
                        assert(chain_rest(pre, idx as int) =~= seq![v] + chain_rest(
                            self.iterators@,
                            idx as int,
                        ));
                    }
                    return Some(v);
                },
                None => {
                    proof {
                        assert(walk_rest(pre[idx as int]) =~= Seq::<i64>::empty());
                        assert(walk_rest(self.iterators@[idx as int]) =~= Seq::<i64>::empty());
                        assert(chain_rest(self.iterators@, idx as int) =~= chain_rest(
                            self.iterators@,
                            idx + 1,
                        ));
                    }
                    self.current_index = idx + 1;
                },
            }
        }
        None
    }
}

impl Default for CompositeIterator {
    /// The same empty chain `new` yields.
    fn default() -> (r: CompositeIterator)
        ensures
            r.iterators@.len() == 0,
            r.current_index == 0,
            r.wf(),
    {
        CompositeIterator::new()
    }
}

/// Two walks chained into one.
pub fn chain_iterators(iter1: NumberIterator, iter2: NumberIterator) -> (r: CompositeIterator)
    requires
        iter1.position <= iter1.items@.len(),
        iter2.position <= iter2.items@.len(),
    ensures
        r.wf(),
        r.current_index == 0,
        r.iterators@ =~= seq![iter1, iter2],
{
    let mut composite = CompositeIterator::new();
    composite.add_iterator(iter1);
    composite.add_iterator(iter2);
    composite
}

/// Yields only the items a predicate keeps, in order.
pub struct FilteringIterator<F: Fn(i64) -> bool> {
    pub items: Vec<i64>,
    pub position: usize,
    pub predicate: F,
}

impl<F: Fn(i64) -> bool> FilteringIterator<F> {
    /// A filtering walk over the items, from the start.
    pub fn new(iterator: Vec<i64>, predicate: F) -> (r: FilteringIterator<F>)
        ensures
            r.items == iterator,
            r.position == 0,
            r.predicate == predicate,
    {
        FilteringIterator { items: iterator, position: 0, predicate }
    }

    /// The next kept item: everything skipped was refused by the predicate,
    /// and what is returned was accepted; `None` exactly when the rest is
    /// refused.
    pub fn next(&mut self) -> (r: Option<i64>)
        requires
            old(self).position <= old(self).items@.len(),
            forall|x: i64| #[trigger] old(self).predicate.requires((x,)),
        ensures
            final(self).items == old(self).items,
            final(self).predicate == old(self).predicate,
            old(self).position <= final(self).position <= final(self).items@.len(),
            forall|k: int|
                old(self).position <= k < (final(self).position as int) - (if r is Some {
                    1int
                } else {
                    0int
                }) ==> old(self).predicate.ensures((old(self).items@[k],), false),
            match r {
                Some(v) => final(self).position >= old(self).position + 1 && v == old(self).items@[final(self).position - 1] && old(self).predicate.ensures((v,), true),
                None => final(self).position == final(self).items@.len(),
            },
    {
        while self.position < self.items.len()
            invariant
                self.items == old(self).items,
                self.predicate == old(self).predicate,
                forall|x: i64| #[trigger] old(self).predicate.requires((x,)),
                old(self).position <= self.position <= self.items@.len(),
                forall|k: int|
                    old(self).position <= k < self.position ==> old(self).predicate.ensures(
                        (old(self).items@[k],),
                        false,
                    ),
            decreases self.items@.len() - self.position,
        {
            let v = self.items[self.position];
            self.position = self.position + 1;
            if (self.predicate)(v) {
                return Some(v);
            }
        }
        None
    }
}

/// A filtering walk over the items.
pub fn filter_iterator<F: Fn(i64) -> bool>(iterator: Vec<i64>, predicate: F) -> (r:
    FilteringIterator<F>)
    ensures
        r.items == iterator,
        r.position == 0,
        r.predicate == predicate,
{
    FilteringIterator::new(iterator, predicate)
}

/// Yields runs of equal neighbouring items, in order.
pub struct GroupingIterator {
    pub items: Vec<i64>,
    pub position: usize,
}

/// Where the run starting at `i` ends: the first later index that holds a
/// different value, or the length.
pub open spec fn run_end(s: Seq<i64>, i: int) -> int
    recommends
        0 <= i < s.len(),
    decreases s.len() - i,
{
    if i + 1 < s.len() && s[i + 1] == s[i] {
        run_end(s, i + 1)
    } else {
        i + 1
    }
}

proof fn lemma_run_end(s: Seq<i64>, i: int)
    requires
        0 <= i < s.len(),
    ensures
        i < run_end(s, i) <= s.len(),
        forall|k: int| i <= k < run_end(s, i) ==> s[k] == s[i],
        run_end(s, i) < s.len() ==> s[run_end(s, i)] != s[i],
    decreases s.len() - i,
{
    if i + 1 < s.len() && s[i + 1] == s[i] {
        lemma_run_end(s, i + 1);
    }
}

impl GroupingIterator {
    /// A grouping walk over the items, from the start.
    pub fn new(iterator: Vec<i64>) -> (r: GroupingIterator)
        ensures
            r.items == iterator,
            r.position == 0,
    {
        GroupingIterator { items: iterator, position: 0 }
    }

    /// The next run of equal items; `None` exactly at the end.
    pub fn next(&mut self) -> (r: Option<Vec<i64>>)
        requires
            old(self).position <= old(self).items@.len(),
        ensures
            final(self).items == old(self).items,
            ({
                let s = old(self).items@;
                let start = old(self).position as int;
                if start < s.len() {
                    match r {
                        Some(g) => g@ == s.subrange(start, run_end(s, start)) && final(self).position == run_end(s, start) && g@.len() > 0
                    ,
                        None => false,
                    }
                } else {
                    r is None && final(self).position == old(self).position
                }
            }),
    {
        if self.position >= self.items.len() {
            return None;
        }
        let ghost s = self.items@;
        let ghost start = self.position as int;
        proof {
            lemma_run_end(s, start);
        }
        let v = self.items[self.position];
        let mut group: Vec<i64> = Vec::new();
        group.push(v);
        self.position = self.position + 1;
        proof {
            assert(group@ =~= s.subrange(start, start + 1));
        }
        while self.position < self.items.len() && self.items[self.position] == v
            invariant
                self.items == old(self).items,
                s == self.items@,
                start == old(self).position as int,
                0 <= start < s.len(),
                s[start] == v,
                start < self.position <= s.len(),
                group@ == s.subrange(start, self.position as int),
                forall|k: int| start <= k < self.position ==> s[k] == s[start],
                self.position <= run_end(s, start),
            decreases s.len() - self.position,
        {
            proof {
                lemma_run_end(s, start);
                assert(self.position < run_end(s, start));
            }
            group.push(self.items[self.position]);
            self.position = self.position + 1;
            proof {
                assert(group@ =~= s.subrange(start, self.position as int));
            }
        }
        proof {
            lemma_run_end(s, start);
            if (self.position as int) < run_end(s, start) {
                assert(s[self.position as int] == s[start]);
                assert(false);
            }
        }
        Some(group)
    }
}

/// A grouping walk over the items.
pub fn group_consecutive(iterator: Vec<i64>) -> (r: GroupingIterator)
    ensures
        r.items == iterator,
        r.position == 0,
{
    GroupingIterator::new(iterator)
}

} // verus!
