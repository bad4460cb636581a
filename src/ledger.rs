//! The bonding ledger: for each depositor, the ordered list of entitlements.
//! Entries are kept strictly increasing by address in ledger order.
use vstd::prelude::*;
use crate::msg::{bonds_view, BondStateResponse, BondStateView};
use crate::order::{
    addr_less, addr_lt, lemma_addr_lt_asymmetric, lemma_addr_lt_irreflexive, lemma_addr_lt_total, lemma_addr_lt_transitive,
};
use crate::state::BondingRecord;

verus! {

/// Entries are strictly increasing by address, so each address occurs once.
pub open spec fn sorted(b: Seq<BondStateView>) -> bool {
    forall|i: int, j: int| 0 <= i < j < b.len() ==> addr_lt(#[trigger] b[i].address, #[trigger] b[j].address)
}

/// The ledger holds an entry for `a`.
pub open spec fn present(b: Seq<BondStateView>, a: Seq<char>) -> bool {
    exists|i: int| 0 <= i < b.len() && #[trigger] b[i].address == a
}

/// The position of the entry for `a`, where there is one.
pub open spec fn index_of(b: Seq<BondStateView>, a: Seq<char>) -> int {
    choose|i: int| 0 <= i < b.len() && #[trigger] b[i].address == a
}

/// The entitlements of `a`; empty where the ledger holds no entry for it.
pub open spec fn records_of(b: Seq<BondStateView>, a: Seq<char>) -> Seq<BondingRecord> {
    if present(b, a) {
        b[index_of(b, a)].list
    } else {
        Seq::empty()
    }
}

/// Whether an entry comes before `a` in ledger order.
pub open spec fn precedes(a: Seq<char>) -> spec_fn(BondStateView) -> bool {
    |e: BondStateView| addr_lt(e.address, a)
}

/// The ledger once `rec` is appended to the entitlements of `a`; a new
/// entry for `a` goes where it keeps the ledger sorted.
pub open spec fn pushed(b: Seq<BondStateView>, a: Seq<char>, rec: BondingRecord) -> Seq<BondStateView> {
    if present(b, a) {
        let i = index_of(b, a);
        b.update(i, BondStateView { address: a, list: b[i].list.push(rec) })
    } else {
        b.insert(b.filter(precedes(a)).len() as int, BondStateView { address: a, list: seq![rec] })
    }
}

/// The ledger once the entitlement at `index` of `a` is taken out.
pub open spec fn removed(b: Seq<BondStateView>, a: Seq<char>, index: int) -> Seq<BondStateView> {
    let i = index_of(b, a);
    b.update(i, BondStateView { address: a, list: b[i].list.remove(index) })
}

/// The entries after `start` in ledger order; all of them where there is no start.
pub open spec fn entries_after(b: Seq<BondStateView>, start: Option<Seq<char>>) -> Seq<BondStateView> {
    match start {
        None => b,
        Some(s) => b.filter(follows(s)),
    }
}

/// Whether an entry comes after `start` in ledger order.
pub open spec fn follows(start: Seq<char>) -> spec_fn(BondStateView) -> bool {
    |e: BondStateView| addr_lt(start, e.address)
}

/// At most `limit` entries after `start`, in ledger order.
pub open spec fn page(b: Seq<BondStateView>, start: Option<Seq<char>>, limit: nat) -> Seq<BondStateView> {
    let rest = entries_after(b, start);
    if limit < rest.len() {
        rest.take(limit as int)
    } else {
        rest
    }
}

/// In a sorted ledger the entry at `i` is the one that `records_of` finds.
pub proof fn lemma_records_at(b: Seq<BondStateView>, i: int)
    requires
        sorted(b),
        0 <= i < b.len(),
    ensures
        present(b, b[i].address),
        records_of(b, b[i].address) == b[i].list,
{
    lemma_index_of(b, i);
}

proof fn lemma_index_of(b: Seq<BondStateView>, i: int)
    requires
        sorted(b),
        0 <= i < b.len(),
    ensures
        present(b, b[i].address),
        index_of(b, b[i].address) == i,
{
    let a = b[i].address;
    assert(present(b, a));
    let j = index_of(b, a);
    if j != i {
        lemma_addr_lt_irreflexive(a);
    }
}

proof fn lemma_filter_prefix(b: Seq<BondStateView>, a: Seq<char>, p: int)
    requires
        0 <= p <= b.len(),
        forall|j: int| 0 <= j < p ==> addr_lt(#[trigger] b[j].address, a),
        forall|j: int| p <= j < b.len() ==> addr_lt(a, #[trigger] b[j].address),
    ensures
        b.filter(precedes(a)).len() == p,
    decreases b.len(),
{
    reveal(Seq::filter);
    if b.len() > 0 {
        let rest = b.drop_last();
        assert(b.filter(precedes(a)) == if precedes(a)(b.last()) {
            rest.filter(precedes(a)).push(b.last())
        } else {
            rest.filter(precedes(a))
        });
        if p < b.len() {
            lemma_addr_lt_asymmetric(a, b.last().address);
            lemma_filter_prefix(rest, a, p);
        } else {
            lemma_filter_prefix(rest, a, p - 1);
        }
    }
}

proof fn lemma_absent(b: Seq<BondStateView>, a: Seq<char>)
    requires
        forall|j: int| 0 <= j < b.len() ==> b[j].address != a,
    ensures
        !present(b, a),
        records_of(b, a) == Seq::<BondingRecord>::empty(),
{
}

/// Where `address` stands: `Ok` with its position, or `Err` with the
/// position at which an entry for it would keep the ledger sorted.
pub fn locate(bonds: &Vec<BondStateResponse>, address: &String) -> (r: Result<usize, usize>)
    requires
        sorted(bonds_view(bonds@)),
    ensures
        match r {
            Ok(i) => {
                &&& i < bonds@.len()
                &&& bonds@[i as int].address@ == address@
                &&& records_of(bonds_view(bonds@), address@) == bonds@[i as int].list@
            },
            Err(p) => {
                &&& !present(bonds_view(bonds@), address@)
                &&& records_of(bonds_view(bonds@), address@) == Seq::<BondingRecord>::empty()
                &&& p <= bonds@.len()
                &&& forall|j: int| 0 <= j < p ==> addr_lt(#[trigger] bonds@[j].address@, address@)
                &&& forall|j: int| p <= j < bonds@.len() ==> addr_lt(address@, #[trigger] bonds@[j].address@)
            },
        },
{
    let ghost b = bonds_view(bonds@);
    let mut i: usize = 0;
    while i < bonds.len()
        invariant
            i <= bonds@.len(),
            b == bonds_view(bonds@),
            sorted(b),
            forall|j: int| 0 <= j < i ==> addr_lt(#[trigger] bonds@[j].address@, address@),
        decreases bonds@.len() - i,
    {
        if bonds[i].address == *address {
            proof {
                lemma_records_at(b, i as int);
            }
            return Ok(i);
        }
        if addr_less(address, &bonds[i].address) {
            proof {
                assert forall|j: int| i <= j < bonds@.len() implies addr_lt(address@, #[trigger] bonds@[j].address@) by {
                    if j > i {
                        assert(addr_lt(b[i as int].address, b[j].address));
                        lemma_addr_lt_transitive(address@, bonds@[i as int].address@, bonds@[j].address@);
                    }
                }
                lemma_not_listed(b, address@, i as int);
            }
            return Err(i);
        }
        proof {
            lemma_addr_lt_total(bonds@[i as int].address@, address@);
        }
        i = i + 1;
    }
    proof {
        lemma_not_listed(b, address@, i as int);
    }
    Err(i)
}

proof fn lemma_not_listed(b: Seq<BondStateView>, a: Seq<char>, p: int)
    requires
        0 <= p <= b.len(),
        forall|j: int| 0 <= j < p ==> addr_lt(#[trigger] b[j].address, a),
        forall|j: int| p <= j < b.len() ==> addr_lt(a, #[trigger] b[j].address),
    ensures
        !present(b, a),
        records_of(b, a) == Seq::<BondingRecord>::empty(),
{
    assert forall|j: int| 0 <= j < b.len() implies b[j].address != a by {
        if b[j].address == a {
            lemma_addr_lt_irreflexive(a);
        }
    }
    lemma_absent(b, a);
}

/// A copy of a list of entitlements.
pub fn copy_records(list: &Vec<BondingRecord>) -> (r: Vec<BondingRecord>)
    ensures
        r@ == list@,
{
    let mut r: Vec<BondingRecord> = Vec::new();
    let mut i: usize = 0;
    while i < list.len()
        invariant
            i <= list@.len(),
            r@ == list@.take(i as int),
        decreases list@.len() - i,
    {
        r.push(list[i]);
        i = i + 1;
        assert(r@ =~= list@.take(i as int));
    }
    assert(list@.take(i as int) =~= list@);
    r
}

proof fn lemma_insertion_point(b: Seq<BondStateView>, a: Seq<char>)
    requires
        sorted(b),
        !present(b, a),
    ensures
        0 <= b.filter(precedes(a)).len() <= b.len(),
        forall|j: int| 0 <= j < b.filter(precedes(a)).len() ==> addr_lt(#[trigger] b[j].address, a),
        forall|j: int| b.filter(precedes(a)).len() <= j < b.len() ==> addr_lt(a, #[trigger] b[j].address),
    decreases b.len(),
{
    reveal(Seq::filter);
    if b.len() > 0 {
        let rest = b.drop_last();
        let last = b.last();
        assert(sorted(rest));
        assert(!present(rest, a)) by {
            if present(rest, a) {
                let j = index_of(rest, a);
                assert(b[j].address == a);
            }
        }
        lemma_insertion_point(rest, a);
        assert(b.filter(precedes(a)) == if precedes(a)(last) {
            rest.filter(precedes(a)).push(last)
        } else {
            rest.filter(precedes(a))
        });
        assert(b[b.len() - 1].address != a);
        lemma_addr_lt_total(last.address, a);
        let q = rest.filter(precedes(a)).len() as int;
        if addr_lt(last.address, a) {
            if q < rest.len() {
                assert(addr_lt(a, rest[q].address));
                assert(addr_lt(b[q].address, b[b.len() - 1].address));
                lemma_addr_lt_transitive(a, rest[q].address, last.address);
                lemma_addr_lt_transitive(a, last.address, a);
                lemma_addr_lt_irreflexive(a);
            }
            assert(b.filter(precedes(a)).len() == b.len());
            assert forall|j: int| 0 <= j < b.len() implies addr_lt(#[trigger] b[j].address, a) by {
                if j < b.len() - 1 {
                    assert(rest[j] == b[j]);
                }
            }
        } else {
            assert(b.filter(precedes(a)).len() == q);
            assert forall|j: int| 0 <= j < q implies addr_lt(#[trigger] b[j].address, a) by {
                assert(rest[j] == b[j]);
            }
            assert forall|j: int| q <= j < b.len() implies addr_lt(a, #[trigger] b[j].address) by {
                if j < b.len() - 1 {
                    assert(rest[j] == b[j]);
                }
            }
        }
    }
}

/// What appending to the entitlements of `a` does to the ledger: it stays
/// sorted, gains `a` if it lacked it, and only the list of `a` changes.
pub proof fn lemma_pushed(b: Seq<BondStateView>, a: Seq<char>, rec: BondingRecord)
    requires
        sorted(b),
    ensures
        sorted(pushed(b, a, rec)),
        forall|x: Seq<char>| #[trigger] present(pushed(b, a, rec), x) <==> (present(b, x) || x == a),
        records_of(pushed(b, a, rec), a) == records_of(b, a).push(rec),
        forall|x: Seq<char>| x != a ==> #[trigger] records_of(pushed(b, a, rec), x) == records_of(b, x),
{
    let b1 = pushed(b, a, rec);
    if present(b, a) {
        let i = index_of(b, a);
        assert(sorted(b1)) by {
            assert forall|x: int, y: int| 0 <= x < y < b1.len() implies addr_lt(
                #[trigger] b1[x].address,
                #[trigger] b1[y].address,
            ) by {
                assert(addr_lt(b[x].address, b[y].address));
            }
        }
        lemma_records_at(b, i);
        lemma_records_at(b1, i);
        assert forall|x: Seq<char>| #[trigger] present(b1, x) <==> (present(b, x) || x == a) by {
            if present(b, x) {
                assert(b1[index_of(b, x)].address == x);
            }
            if present(b1, x) {
                assert(b[index_of(b1, x)].address == x);
            }
        }
        assert forall|x: Seq<char>| x != a implies #[trigger] records_of(b1, x) == records_of(b, x) by {
            if present(b, x) {
                let j = index_of(b, x);
                lemma_records_at(b, j);
                lemma_records_at(b1, j);
            } else {
                assert forall|j: int| 0 <= j < b1.len() implies b1[j].address != x by {
                    if b1[j].address == x {
                        assert(b[j].address == x);
                    }
                }
                lemma_absent(b1, x);
            }
        }
    } else {
        lemma_insertion_point(b, a);
        let p = b.filter(precedes(a)).len() as int;
        assert(sorted(b1)) by {
            assert forall|x: int, y: int| 0 <= x < y < b1.len() implies addr_lt(
                #[trigger] b1[x].address,
                #[trigger] b1[y].address,
            ) by {
                if x < p && y > p {
                    assert(addr_lt(b[x].address, b[y - 1].address));
                } else if x > p {
                    assert(addr_lt(b[x - 1].address, b[y - 1].address));
                } else if y < p {
                    assert(addr_lt(b[x].address, b[y].address));
                }
            }
        }
        assert(b1[p].list =~= Seq::<BondingRecord>::empty().push(rec));
        lemma_records_at(b1, p);
        assert forall|x: Seq<char>| #[trigger] present(b1, x) <==> (present(b, x) || x == a) by {
            if present(b, x) {
                let j = index_of(b, x);
                if j < p {
                    assert(b1[j].address == x);
                } else {
                    assert(b1[j + 1].address == x);
                }
            }
            if present(b1, x) && x != a {
                let j = index_of(b1, x);
                if j < p {
                    assert(b[j].address == x);
                } else {
                    assert(b[j - 1].address == x);
                }
            }
        }
        assert forall|x: Seq<char>| x != a implies #[trigger] records_of(b1, x) == records_of(b, x) by {
            if present(b, x) {
                let j = index_of(b, x);
                lemma_records_at(b, j);
                if j < p {
                    lemma_records_at(b1, j);
                } else {
                    lemma_records_at(b1, j + 1);
                }
            } else {
                assert forall|j: int| 0 <= j < b1.len() implies b1[j].address != x by {
                    if b1[j].address == x {
                        if j < p {
                            assert(b[j].address == x);
                        } else if j > p {
                            assert(b[j - 1].address == x);
                        }
                    }
                }
                lemma_absent(b1, x);
            }
        }
    }
}

/// What taking out the entitlement at `index` of `a` does to the ledger: it
/// stays sorted, keeps its addresses, and only the list of `a` changes.
pub proof fn lemma_removed(b: Seq<BondStateView>, a: Seq<char>, index: int)
    requires
        sorted(b),
        0 <= index < records_of(b, a).len(),
    ensures
        sorted(removed(b, a, index)),
        forall|x: Seq<char>| #[trigger] present(removed(b, a, index), x) <==> present(b, x),
        records_of(removed(b, a, index), a) == records_of(b, a).remove(index),
        forall|x: Seq<char>| x != a ==> #[trigger] records_of(removed(b, a, index), x) == records_of(b, x),
{
    let b1 = removed(b, a, index);
    let i = index_of(b, a);
    assert(sorted(b1)) by {
        assert forall|x: int, y: int| 0 <= x < y < b1.len() implies addr_lt(
            #[trigger] b1[x].address,
            #[trigger] b1[y].address,
        ) by {
            assert(addr_lt(b[x].address, b[y].address));
        }
    }
    lemma_records_at(b, i);
    lemma_records_at(b1, i);
    assert forall|x: Seq<char>| #[trigger] present(b1, x) <==> present(b, x) by {
        if present(b, x) {
            assert(b1[index_of(b, x)].address == x);
        }
        if present(b1, x) {
            assert(b[index_of(b1, x)].address == x);
        }
    }
    assert forall|x: Seq<char>| x != a implies #[trigger] records_of(b1, x) == records_of(b, x) by {
        if present(b, x) {
            let j = index_of(b, x);
            lemma_records_at(b, j);
            lemma_records_at(b1, j);
        } else {
            assert forall|j: int| 0 <= j < b1.len() implies b1[j].address != x by {
                if b1[j].address == x {
                    assert(b[j].address == x);
                }
            }
            lemma_absent(b1, x);
        }
    }
}

/// Appends `record` to the entitlements of `address`, making an entry for
/// the address where there is none.
pub fn push_record(bonds: &mut Vec<BondStateResponse>, address: &String, record: BondingRecord)
    requires
        sorted(bonds_view(old(bonds)@)),
    ensures
        bonds_view(final(bonds)@) == pushed(bonds_view(old(bonds)@), address@, record),
        sorted(bonds_view(final(bonds)@)),
{
    let ghost b0 = bonds_view(bonds@);
    match locate(bonds, address) {
        Ok(i) => {
            let mut entry = bonds.remove(i);
            entry.list.push(record);
            bonds.insert(i, entry);
            proof {
                lemma_index_of(b0, i as int);
                assert(bonds_view(bonds@) =~= pushed(b0, address@, record));
            }
        },
        Err(p) => {
            let mut list: Vec<BondingRecord> = Vec::new();
            list.push(record);
            let entry = BondStateResponse { address: address.clone(), list };
            bonds.insert(p, entry);
            proof {
                lemma_filter_prefix(b0, address@, p as int);
                assert(bonds_view(bonds@)[p as int].list =~= seq![record]);
                assert(bonds_view(bonds@) =~= pushed(b0, address@, record));
            }
        },
    }
    proof {
        lemma_pushed(b0, address@, record);
    }
}

/// Removes the entitlement at `index` of the entry at `pos`; later
/// entitlements of that address move down by one.
pub fn remove_record(bonds: &mut Vec<BondStateResponse>, pos: usize, index: usize) -> (r: BondingRecord)
    requires
        sorted(bonds_view(old(bonds)@)),
        pos < old(bonds)@.len(),
        index < old(bonds)@[pos as int].list@.len(),
    ensures
        r == old(bonds)@[pos as int].list@[index as int],
        bonds_view(final(bonds)@) == removed(
            bonds_view(old(bonds)@),
            old(bonds)@[pos as int].address@,
            index as int,
        ),
        sorted(bonds_view(final(bonds)@)),
{
    let ghost b0 = bonds_view(bonds@);
    let mut entry = bonds.remove(pos);
    let r = entry.list.remove(index);
    bonds.insert(pos, entry);
    proof {
        let address = b0[pos as int].address;
        lemma_index_of(b0, pos as int);
        assert(bonds_view(bonds@) =~= removed(b0, address, index as int));
        lemma_records_at(b0, pos as int);
        lemma_removed(b0, address, index as int);
    }
    r
}

proof fn lemma_filter_suffix(b: Seq<BondStateView>, s: Seq<char>, p: int)
    requires
        0 <= p <= b.len(),
        forall|j: int| 0 <= j < p ==> !addr_lt(s, #[trigger] b[j].address),
        forall|j: int| p <= j < b.len() ==> addr_lt(s, #[trigger] b[j].address),
    ensures
        b.filter(follows(s)) == b.subrange(p, b.len() as int),
    decreases b.len(),
{
    if b.len() == 0 {
        reveal(Seq::filter);
        assert(b.subrange(p, 0) =~= b);
    } else {
        let rest = b.drop_last();
        reveal(Seq::filter);
        assert(b.filter(follows(s)) == if follows(s)(b.last()) {
            rest.filter(follows(s)).push(b.last())
        } else {
            rest.filter(follows(s))
        });
        if p < b.len() {
            lemma_filter_suffix(rest, s, p);
            assert(b.subrange(p, b.len() as int) =~= rest.subrange(p, rest.len() as int).push(b.last()));
        } else {
            lemma_filter_suffix(rest, s, p - 1);
            assert(rest.subrange(p - 1, rest.len() as int) =~= Seq::<BondStateView>::empty());
            assert(b.subrange(p, b.len() as int) =~= Seq::<BondStateView>::empty());
        }
    }
}

/// A copy of a ledger entry.
pub fn copy_entry(e: &BondStateResponse) -> (r: BondStateResponse)
    ensures
        r@ == e@,
{
    BondStateResponse { address: e.address.clone(), list: copy_records(&e.list) }
}

/// At most `limit` entries after `start_after`, in ledger order.
pub fn page_of(bonds: &Vec<BondStateResponse>, start_after: &Option<String>, limit: usize) -> (r: Vec<
    BondStateResponse,
>)
    requires
        sorted(bonds_view(bonds@)),
    ensures
        bonds_view(r@) == page(
            bonds_view(bonds@),
            match start_after {
                Some(s) => Some(s@),
                None => None,
            },
            limit as nat,
        ),
{
    let ghost b = bonds_view(bonds@);
    let mut first: usize = 0;
    match start_after {
        None => {
            assert(b.subrange(0, b.len() as int) =~= b);
        },
        Some(s) => {
            while first < bonds.len() && !addr_less(s, &bonds[first].address)
                invariant
                    first <= bonds@.len(),
                    b == bonds_view(bonds@),
                    sorted(b),
                    forall|j: int| 0 <= j < first ==> !addr_lt(s@, #[trigger] b[j].address),
                decreases bonds@.len() - first,
            {
                first = first + 1;
            }
            proof {
                assert forall|j: int| first <= j < b.len() implies addr_lt(s@, #[trigger] b[j].address) by {
                    if j > first {
                        assert(addr_lt(b[first as int].address, b[j].address));
                        lemma_addr_lt_transitive(s@, b[first as int].address, b[j].address);
                    }
                }
                lemma_filter_suffix(b, s@, first as int);
            }
        },
    }
    let ghost start = match start_after {
        Some(s) => Some(s@),
        None => None,
    };
    let ghost rest = b.subrange(first as int, b.len() as int);
    assert(entries_after(b, start) == rest);
    let mut r: Vec<BondStateResponse> = Vec::new();
    let mut i: usize = first;
    while i < bonds.len() && i - first < limit
        invariant
            first <= i <= bonds@.len(),
            i - first <= limit,
            b == bonds_view(bonds@),
            rest == b.subrange(first as int, b.len() as int),
            bonds_view(r@) == rest.take(i - first),
        decreases bonds@.len() - i,
    {
        let e = copy_entry(&bonds[i]);
        let ghost r0 = r@;
        r.push(e);
        proof {
            assert(r@ == r0.push(e));
            assert(bonds_view(r@) =~= bonds_view(r0).push(e@));
            assert(rest.take(i + 1 - first) =~= rest.take(i - first).push(b[i as int]));
        }
        i = i + 1;
    }
    proof {
        if limit >= rest.len() {
            assert(rest.take(i - first) =~= rest);
        } else {
            assert(i - first == limit);
        }
    }
    r
}

} // verus!
