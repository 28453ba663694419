use vstd::prelude::*;

verus! {

/// An axis-aligned rectangle measured in whole units.
pub struct Rectangle {
    pub width: u32,
    pub height: u32,
}

/// The area of a rectangle: the product of its two sides.
pub fn area(rectangle: &Rectangle) -> (a: u32)
    requires
        rectangle.width * rectangle.height <= u32::MAX,
    ensures
        a == rectangle.width * rectangle.height,
{
    rectangle.width * rectangle.height
}

/// The sum of the elements of `s` from position `i` (inclusive) to the end;
/// 0 when `i` lies outside the sequence.
pub open spec fn sum_from(s: Seq<u64>, i: int) -> int
    decreases s.len() - i,
{
    if i < 0 || i >= s.len() {
        0
    } else {
        s[i] + sum_from(s, i + 1)
    }
}

/// Every tail sum of a sequence of unsigned numbers is itself nonnegative.
pub proof fn lemma_sum_from_nonneg(s: Seq<u64>, i: int)
    ensures
        sum_from(s, i) >= 0,
    decreases s.len() - i,
{
    if 0 <= i < s.len() {
        lemma_sum_from_nonneg(s, i + 1);
    }
}

/// The sum of all the parts, where it can be represented: `Some` exactly
/// when the whole sum fits in a u64, and then the sum itself. A caller
/// uses it to establish what `parts_sums` requires.
pub fn checked_total(ls: &[u64]) -> (r: Option<u64>)
    ensures
        r is Some <==> sum_from(ls@, 0) <= u64::MAX,
        r matches Some(t) ==> t == sum_from(ls@, 0),
{
    let n: usize = ls.len();
    let mut total: u64 = 0;
    let mut i: usize = 0;
    while i < n
        invariant
            i <= n,
            n == ls@.len(),
            total + sum_from(ls@, i as int) == sum_from(ls@, 0),
        decreases n - i,
    {
        proof {
            lemma_sum_from_nonneg(ls@, i + 1);
        }
        match total.checked_add(ls[i]) {
            Some(t) => {
                total = t;
            },
            None => {
                return None;
            },
        }
        i = i + 1;
    }
    Some(total)
}

/// For a list of part weights, returns the running totals of what is left:
/// position `i` of the result holds the sum of the parts from `i` onward,
/// so position 0 holds the whole sum and the last position holds 0.
pub fn parts_sums(ls: &[u64]) -> (r: Vec<u64>)
    requires
        ls@.len() < usize::MAX,
        sum_from(ls@, 0) <= u64::MAX,
    ensures
        r@.len() == ls@.len() + 1,
        forall|i: int| 0 <= i <= ls@.len() ==> r@[i] == sum_from(ls@, i),
{
    let n: usize = ls.len();
    let mut vec: Vec<u64> = Vec::new();
    let mut k: usize = 0;
    while k < n + 1
        invariant
            k <= n + 1,
            n < usize::MAX,
            n == ls@.len(),
            vec@.len() == k,
            forall|j: int| 0 <= j < k ==> vec@[j] == 0,
        decreases n + 1 - k,
    {
        vec.push(0);
        k = k + 1;
    }

    let mut i: usize = 0;
    while i < n
        invariant
            i <= n,
            n == ls@.len(),
            vec@.len() == n + 1,
            sum_from(ls@, 0) <= u64::MAX,
            vec@[0] + sum_from(ls@, i as int) == sum_from(ls@, 0),
            forall|j: int| 1 <= j <= n ==> vec@[j] == 0,
        decreases n - i,
    {
        proof {
            lemma_sum_from_nonneg(ls@, i + 1);
        }
        let v0: u64 = vec[0];
        let li: u64 = ls[i];
        vec[0] = v0 + li;
        i = i + 1;
    }

    let mut i: usize = 1;
    while i < n
        invariant
            1 <= i <= n + 1,
            n == ls@.len(),
            vec@.len() == n + 1,
            forall|j: int| 0 <= j < i && j <= n ==> vec@[j] == sum_from(ls@, j),
            forall|j: int| i <= j <= n ==> vec@[j] == 0,
        decreases n - i,
    {
        proof {
            lemma_sum_from_nonneg(ls@, i as int);
        }
        let a: u64 = vec[i - 1];
        let b: u64 = ls[i - 1];
        vec[i] = a - b;
        i = i + 1;
    }
    vec
}

} // verus!
