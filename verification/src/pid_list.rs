//! Process IDs, and ordered lists of them.

use vstd::prelude::*;

verus! {

/// The ID of a process.
pub type Pid = u16;

/// The ID of the init process.
pub const INIT_PID: Pid = 1;

/// The list is in increasing order. The same ID may occur several times.
pub open spec fn sorted(s: Seq<Pid>) -> bool {
    forall|i: int, j: int| 0 <= i <= j < s.len() ==> s[i] <= s[j]
}

/// The list is in increasing order, without repetition.
pub open spec fn strictly_sorted(s: Seq<Pid>) -> bool {
    forall|i: int, j: int| 0 <= i < j < s.len() ==> s[i] < s[j]
}

/// The number of IDs in the list that are lower than `pid`.
pub open spec fn rank(s: Seq<Pid>, pid: Pid) -> nat
    decreases s.len(),
{
    if s.len() == 0 {
        0
    } else {
        rank(s.drop_last(), pid) + (if s.last() < pid { 1nat } else { 0nat })
    }
}

/// The ordered list `s` with one more occurrence of `pid`, still in order.
pub open spec fn with_pid(s: Seq<Pid>, pid: Pid) -> Seq<Pid> {
    s.insert(rank(s, pid) as int, pid)
}

/// The ordered list `s` with one more occurrence of each ID of `added`.
pub open spec fn with_all(s: Seq<Pid>, added: Seq<Pid>) -> Seq<Pid>
    decreases added.len(),
{
    if added.len() == 0 {
        s
    } else {
        with_pid(with_all(s, added.drop_last()), added.last())
    }
}

/// In an ordered list, the lower IDs are those that come before the rank.
pub proof fn lemma_rank(s: Seq<Pid>, pid: Pid)
    requires
        sorted(s),
    ensures
        rank(s, pid) <= s.len(),
        forall|i: int| 0 <= i < rank(s, pid) ==> #[trigger] s[i] < pid,
        forall|i: int| rank(s, pid) <= i < s.len() ==> #[trigger] s[i] >= pid,
    decreases s.len(),
{
    if s.len() > 0 {
        lemma_rank(s.drop_last(), pid);
        assert forall|i: int| 0 <= i < rank(s, pid) implies #[trigger] s[i] < pid by {
            if i < s.len() - 1 {
                assert(s[i] == s.drop_last()[i]);
            }
        }
        assert forall|i: int| rank(s, pid) <= i < s.len() implies #[trigger] s[i] >= pid by {
            if i < s.len() - 1 {
                assert(s[i] == s.drop_last()[i]);
            }
        }
    }
}

/// Inserting an ID keeps the list in order, adds the ID and nothing else.
pub proof fn lemma_with_pid(s: Seq<Pid>, pid: Pid)
    requires
        sorted(s),
    ensures
        sorted(with_pid(s, pid)),
        with_pid(s, pid).len() == s.len() + 1,
        with_pid(s, pid).contains(pid),
        forall|x: Pid| #[trigger]
            with_pid(s, pid).contains(x) <==> x == pid || s.contains(x),
        strictly_sorted(s) && !s.contains(pid) ==> strictly_sorted(with_pid(s, pid)),
{
    lemma_rank(s, pid);
    let r = rank(s, pid) as int;
    let t = with_pid(s, pid);
    assert(t[r] == pid);
    assert forall|x: Pid| x == pid || s.contains(x) implies #[trigger] t.contains(x) by {
        if s.contains(x) {
            let i = choose|i: int| 0 <= i < s.len() && s[i] == x;
            if i < r {
                assert(t[i] == x);
            } else {
                assert(t[i + 1] == x);
            }
        }
    }
    assert forall|x: Pid| #[trigger] t.contains(x) implies x == pid || s.contains(x) by {
        let i = choose|i: int| 0 <= i < t.len() && t[i] == x;
        if i < r {
            assert(s[i] == x);
        } else if i > r {
            assert(s[i - 1] == x);
        }
    }
    if strictly_sorted(s) && !s.contains(pid) {
        assert forall|i: int, j: int| 0 <= i < j < t.len() implies t[i] < t[j] by {
            if j == r {
            } else if j > r {
                assert(s.contains(s[j - 1]));
            }
        }
    }
}

/// Inserting several IDs keeps the list in order, adds these IDs and nothing
/// else.
pub proof fn lemma_with_all(s: Seq<Pid>, added: Seq<Pid>)
    requires
        sorted(s),
    ensures
        sorted(with_all(s, added)),
        with_all(s, added).len() == s.len() + added.len(),
        forall|x: Pid| #[trigger]
            with_all(s, added).contains(x) <==> added.contains(x) || s.contains(x),
    decreases added.len(),
{
    if added.len() > 0 {
        let rest = added.drop_last();
        lemma_with_all(s, rest);
        lemma_with_pid(with_all(s, rest), added.last());
        assert forall|x: Pid| #[trigger]
            with_all(s, added).contains(x) <==> added.contains(x) || s.contains(x) by {
            if added.contains(x) && x != added.last() {
                let i = choose|i: int| 0 <= i < added.len() && added[i] == x;
                assert(rest[i] == x);
            }
            if rest.contains(x) {
                let i = choose|i: int| 0 <= i < rest.len() && rest[i] == x;
                assert(added[i] == x);
            }
            if x == added.last() {
                assert(added[added.len() - 1] == x);
            }
        }
    }
}

/// Two lists in order, without repetition, that contain the same IDs are equal.
pub proof fn lemma_same_lists(a: Seq<Pid>, b: Seq<Pid>)
    requires
        strictly_sorted(a),
        strictly_sorted(b),
        forall|q: Pid| #[trigger] a.contains(q) <==> b.contains(q),
    ensures
        a == b,
    decreases a.len(),
{
    if a.len() == 0 {
        if b.len() > 0 {
            assert(b.contains(b[0]));
            assert(a.contains(b[0]));
        }
        assert(a =~= b);
    } else {
        let last = a.last();
        assert(a.contains(a[a.len() - 1]));
        assert(b.contains(last));
        let k = choose|k: int| 0 <= k < b.len() && b[k] == last;
        assert(b.contains(b[b.len() - 1]));
        assert(a.contains(b.last()));
        let j = choose|j: int| 0 <= j < a.len() && a[j] == b.last();
        assert(b.last() == last);
        let x = a.drop_last();
        let y = b.drop_last();
        assert forall|q: Pid| #[trigger] x.contains(q) <==> y.contains(q) by {
            if x.contains(q) {
                let i = choose|i: int| 0 <= i < x.len() && x[i] == q;
                assert(a[i] == q);
                assert(a.contains(q));
                let i2 = choose|i2: int| 0 <= i2 < b.len() && b[i2] == q;
                assert(y[i2] == q);
            }
            if y.contains(q) {
                let i = choose|i: int| 0 <= i < y.len() && y[i] == q;
                assert(b[i] == q);
                assert(b.contains(q));
                assert(a.contains(q));
                let i2 = choose|i2: int| 0 <= i2 < a.len() && a[i2] == q;
                assert(x[i2] == q);
            }
        }
        lemma_same_lists(x, y);
        assert(a =~= x.push(last));
        assert(b =~= y.push(last));
    }
}

/// Searches an ordered list. Returns the index of an occurrence of `pid`, or
/// the index at which `pid` would have to be inserted.
pub fn search(list: &Vec<Pid>, pid: Pid) -> (res: Result<usize, usize>)
    requires
        sorted(list@),
    ensures
        match res {
            Ok(i) => i < list@.len() && list@[i as int] == pid,
            Err(i) => i == rank(list@, pid) && !list@.contains(pid),
        },
{
    let mut low: usize = 0;
    let mut high: usize = list.len();
    while low < high
        invariant
            sorted(list@),
            low <= high <= list@.len(),
            forall|i: int| 0 <= i < low ==> #[trigger] list@[i] < pid,
            forall|i: int| high <= i < list@.len() ==> #[trigger] list@[i] > pid,
        decreases high - low,
    {
        let mid: usize = low + (high - low) / 2;
        if list[mid] == pid {
            return Ok(mid);
        }
        if list[mid] < pid {
            low = mid + 1;
        } else {
            high = mid;
        }
    }
    proof {
        lemma_rank(list@, pid);
        let r = rank(list@, pid) as int;
        if r < low {
            assert(list@[r] >= pid);
        }
        if low < r {
            assert(list@[low as int] < pid);
        }
    }
    Err(low)
}

/// Inserts one occurrence of `pid` into an ordered list.
pub fn insert(list: &mut Vec<Pid>, pid: Pid)
    requires
        sorted(old(list)@),
    ensures
        final(list)@ == with_pid(old(list)@, pid),
{
    let i: usize = match search(list, pid) {
        Ok(i) => i,
        Err(i) => i,
    };
    proof {
        lemma_rank(list@, pid);
        assert(list@.insert(i as int, pid) =~= with_pid(list@, pid));
    }
    list.insert(i, pid);
}

/// Removes one occurrence of `pid` from an ordered list, if there is one.
pub fn remove(list: &mut Vec<Pid>, pid: Pid)
    requires
        sorted(old(list)@),
    ensures
        final(list)@ == old(list)@.remove_value(pid),
        sorted(final(list)@),
{
    proof {
        list@.index_of_first_ensures(pid);
    }
    if let Ok(i) = search(list, pid) {
        proof {
            let k = list@.index_of_first(pid).unwrap();
            assert(list@.remove(i as int) =~= list@.remove(k));
        }
        list.remove(i);
    }
}

} // verus!
