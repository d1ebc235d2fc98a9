use vstd::prelude::*;
use vstd::string::StringSliceAdditionalSpecFns;

use crate::text::concat_str;
use crate::util::{is_truncation_cut, truncate_str};

verus! {

/// Ticket permissions checked at a time during a semantic search.
pub const MAX_CONCURRENT_PERM_CHECKS: usize = 10;

/// Longest excerpt (bytes) a search result quotes before "...".
pub const EXCERPT_BYTES: usize = 500;

/// How many vector hits a search asks for: three per wanted result, to
/// leave room for the tickets the caller may not see.
pub fn candidate_count(limit: usize) -> (r: usize)
    requires
        limit * 3 <= usize::MAX,
    ensures
        r == limit * 3,
{
    limit * 3
}

/// The excerpt a search result shows: the chunk text when it is at most
/// 500 bytes, else its longest prefix of at most 500 bytes that ends on a
/// character boundary, followed by "...".
pub fn excerpt(content: &str) -> (r: String)
    ensures
        content.spec_bytes().len() <= EXCERPT_BYTES ==> r@ == content@,
        content.spec_bytes().len() > EXCERPT_BYTES ==> exists|end: int, head: Seq<char>|
            #[trigger] is_truncation_cut(content.spec_bytes(), EXCERPT_BYTES as int, end)
                && #[trigger] vstd::utf8::encode_utf8(head) == content.spec_bytes().subrange(0, end)
                && r@ == head + "..."@,
{
    let n = content.as_bytes().len();
    if n > EXCERPT_BYTES {
        let head = truncate_str(content, EXCERPT_BYTES);
        let r = concat_str(head, "...");
        proof {
            assert(vstd::utf8::encode_utf8(head@) == head.spec_bytes());
        }
        r
    } else {
        content.to_owned()
    }
}

// ---------------------------------------------------------------------------
// Permission checks of search hits
// ---------------------------------------------------------------------------

/// How many verdicts in `v` are `true`.
pub open spec fn count_true(v: Seq<bool>) -> nat
    decreases v.len(),
{
    if v.len() == 0 {
        0
    } else {
        count_true(v.drop_last()) + if v.last() { 1nat } else { 0nat }
    }
}

/// The indices `i < v.len()` with `v[i]`, ascending.
pub open spec fn true_indices(v: Seq<bool>) -> Seq<int>
    decreases v.len(),
{
    if v.len() == 0 {
        Seq::empty()
    } else {
        let r = true_indices(v.drop_last());
        if v.last() {
            r.push(v.len() - 1)
        } else {
            r
        }
    }
}

/// The permission checks of one search: the candidate tickets in the order
/// they are checked, the verdicts received so far (one per checked
/// candidate, `true` when the caller may open the ticket) and how many
/// accessible tickets the search wants.
pub struct PermissionScan {
    ticket_ids: Vec<i64>,
    verdicts: Vec<bool>,
    limit: usize,
}

impl PermissionScan {
    pub closed spec fn candidates(self) -> Seq<i64> {
        self.ticket_ids@
    }

    pub closed spec fn verdicts(self) -> Seq<bool> {
        self.verdicts@
    }

    pub closed spec fn limit(self) -> nat {
        self.limit as nat
    }

    /// Checking stops once every candidate is checked, or once a group
    /// has been checked and enough accessible tickets are found.
    pub open spec fn is_done(self) -> bool {
        ||| self.verdicts().len() >= self.candidates().len()
        ||| (self.verdicts().len() > 0 && count_true(self.verdicts()) >= self.limit())
    }

    /// The next group to check: up to `MAX_CONCURRENT_PERM_CHECKS`
    /// unchecked candidates in order, none once checking is done.
    pub open spec fn spec_next_group(self) -> Seq<i64> {
        if self.is_done() {
            Seq::empty()
        } else {
            let from = self.verdicts().len() as int;
            let to = if from + MAX_CONCURRENT_PERM_CHECKS <= self.candidates().len() {
                from + MAX_CONCURRENT_PERM_CHECKS
            } else {
                self.candidates().len() as int
            };
            self.candidates().subrange(from, to)
        }
    }

    /// A scan of `ticket_ids` wanting `limit` accessible tickets.
    pub fn new(ticket_ids: Vec<i64>, limit: usize) -> (r: Self)
        ensures
            r.candidates() == ticket_ids@,
            r.verdicts().len() == 0,
            r.limit() == limit,
    {
        PermissionScan { ticket_ids, verdicts: Vec::new(), limit }
    }

    fn count_accessible(&self) -> (n: usize)
        ensures
            n == count_true(self.verdicts()),
    {
        let mut n: usize = 0;
        let mut i: usize = 0;
        proof {
            assert(self.verdicts@.take(0) =~= Seq::<bool>::empty());
        }
        while i < self.verdicts.len()
            invariant
                0 <= i <= self.verdicts@.len(),
                n == count_true(self.verdicts@.take(i as int)),
                n <= i,
            decreases self.verdicts@.len() - i,
        {
            proof {
                assert(self.verdicts@.take(i + 1).drop_last() =~= self.verdicts@.take(i as int));
            }
            if self.verdicts[i] {
                n = n + 1;
            }
            i = i + 1;
        }
        proof {
            assert(self.verdicts@.take(i as int) =~= self.verdicts@);
        }
        n
    }

    /// Whether checking is over.
    pub fn done(&self) -> (r: bool)
        ensures
            r == self.is_done(),
    {
        self.verdicts.len() >= self.ticket_ids.len() || (self.verdicts.len() > 0
            && self.count_accessible() >= self.limit)
    }

    /// The tickets to check next (empty once checking is done).
    pub fn next_group(&self) -> (r: Vec<i64>)
        ensures
            r@ == self.spec_next_group(),
    {
        let mut out: Vec<i64> = Vec::new();
        if self.done() {
            return out;
        }
        let from = self.verdicts.len();
        let to = if self.ticket_ids.len() - from >= MAX_CONCURRENT_PERM_CHECKS {
            from + MAX_CONCURRENT_PERM_CHECKS
        } else {
            self.ticket_ids.len()
        };
        let mut i: usize = from;
        while i < to
            invariant
                from <= i <= to <= self.ticket_ids@.len(),
                out@ == self.ticket_ids@.subrange(from as int, i as int),
            decreases to - i,
        {
            out.push(self.ticket_ids[i]);
            proof {
                assert(self.ticket_ids@.subrange(from as int, i + 1) =~= self.ticket_ids@.subrange(
                    from as int,
                    i as int,
                ).push(self.ticket_ids@[i as int]));
            }
            i = i + 1;
        }
        out
    }

    /// Records the verdicts for the group `next_group` gave, in its order.
    pub fn record(&mut self, group_verdicts: &Vec<bool>)
        requires
            group_verdicts@.len() == old(self).spec_next_group().len(),
        ensures
            final(self).candidates() == old(self).candidates(),
            final(self).limit() == old(self).limit(),
            final(self).verdicts() == old(self).verdicts() + group_verdicts@,
    {
        let ghost start = self.verdicts@;
        let mut i: usize = 0;
        while i < group_verdicts.len()
            invariant
                0 <= i <= group_verdicts@.len(),
                group_verdicts@.len() == old(self).spec_next_group().len(),
                start == old(self).verdicts(),
                self.ticket_ids@ == old(self).candidates(),
                self.limit == old(self).limit(),
                self.verdicts@ == start + group_verdicts@.take(i as int),
            decreases group_verdicts@.len() - i,
        {
            self.verdicts.push(group_verdicts[i]);
            proof {
                assert(group_verdicts@.take(i + 1) =~= group_verdicts@.take(i as int).push(
                    group_verdicts@[i as int],
                ));
            }
            i = i + 1;
        }
        proof {
            assert(group_verdicts@.take(i as int) =~= group_verdicts@);
        }
    }

    /// The positions, among the candidates, of the tickets found
    /// accessible, in candidate order.
    pub fn accessible(&self) -> (r: Vec<usize>)
        ensures
            r@.map_values(|i: usize| i as int) == true_indices(self.verdicts()),
    {
        let mut out: Vec<usize> = Vec::new();
        let mut i: usize = 0;
        proof {
            assert(self.verdicts@.take(0) =~= Seq::<bool>::empty());
            assert(out@.map_values(|i: usize| i as int) =~= Seq::<int>::empty());
        }
        while i < self.verdicts.len()
            invariant
                0 <= i <= self.verdicts@.len(),
                out@.map_values(|i: usize| i as int) == true_indices(self.verdicts@.take(i as int)),
            decreases self.verdicts@.len() - i,
        {
            proof {
                assert(self.verdicts@.take(i + 1).drop_last() =~= self.verdicts@.take(i as int));
            }
            let ghost before = out@;
            if self.verdicts[i] {
                out.push(i);
                proof {
                    assert(out@.map_values(|i: usize| i as int) =~= before.map_values(
                        |i: usize| i as int,
                    ).push(i as int));
                }
            }
            i = i + 1;
        }
        proof {
            assert(self.verdicts@.take(i as int) =~= self.verdicts@);
        }
        out
    }
}

proof fn lemma_true_indices(v: Seq<bool>)
    ensures
        forall|k: int| 0 <= k < true_indices(v).len() ==> 0 <= #[trigger] true_indices(v)[k] < v.len()
            && v[true_indices(v)[k]],
        forall|i: int| 0 <= i < v.len() && v[i] ==> #[trigger] true_indices(v).contains(i),
    decreases v.len(),
{
    if v.len() > 0 {
        let init = v.drop_last();
        lemma_true_indices(init);
        let r = true_indices(init);
        assert forall|k: int| 0 <= k < true_indices(v).len() implies 0 <= #[trigger] true_indices(v)[k]
            < v.len() && v[true_indices(v)[k]] by {
            if k < r.len() {
                assert(true_indices(v)[k] == r[k]);
                assert(v[r[k]] == init[r[k]]);
            }
        }
        assert forall|i: int| 0 <= i < v.len() && v[i] implies #[trigger] true_indices(v).contains(i) by {
            if i < v.len() - 1 {
                assert(init[i] == v[i]);
                assert(true_indices(init).contains(i));
                let k = choose|k: int| 0 <= k < r.len() && r[k] == i;
                assert(true_indices(v)[k] == i);
            } else {
                assert(true_indices(v)[r.len() as int] == i);
            }
        }
    }
}

/// Law: a search shows a ticket only when its permission check said the
/// caller may open it, and every ticket whose check said so is shown.
pub proof fn lemma_scan_shows_only_verified(scan: PermissionScan)
    ensures
        forall|k: int|
            0 <= k < true_indices(scan.verdicts()).len() ==> scan.verdicts()[#[trigger] true_indices(
                scan.verdicts(),
            )[k]],
        forall|i: int|
            0 <= i < scan.verdicts().len() && scan.verdicts()[i] ==> #[trigger] true_indices(
                scan.verdicts(),
            ).contains(i),
{
    lemma_true_indices(scan.verdicts());
}

} // verus!
