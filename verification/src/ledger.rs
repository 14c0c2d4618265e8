//! The supporter ledger: a sequence of entries, one per supporter account,
//! abstracted in specifications as a map from account name to cumulative
//! contribution.

use vstd::prelude::*;

verus! {

/// One ledger entry: a supporter account and its cumulative contribution.
pub struct Supporter {
    pub account: String,
    pub amount: u128,
}

/// No two entries name the same account.
pub open spec fn unique_accounts(s: Seq<Supporter>) -> bool {
    forall|i: int, j: int|
        0 <= i < j < s.len() ==> (#[trigger] s[i]).account@ != (#[trigger] s[j]).account@
}

/// The sum of all contributions recorded in the ledger.
pub open spec fn sum_of(s: Seq<Supporter>) -> int
    decreases s.len(),
{
    if s.len() == 0 {
        0
    } else {
        sum_of(s.drop_last()) + s.last().amount
    }
}

/// The ledger as a map from account name to cumulative contribution.
pub open spec fn ledger_of(s: Seq<Supporter>) -> Map<Seq<char>, u128>
    decreases s.len(),
{
    if s.len() == 0 {
        Map::empty()
    } else {
        ledger_of(s.drop_last()).insert(s.last().account@, s.last().amount)
    }
}

pub proof fn lemma_unique_drop_last(s: Seq<Supporter>)
    requires
        unique_accounts(s),
        s.len() > 0,
    ensures
        unique_accounts(s.drop_last()),
{
    assert forall|i: int, j: int| 0 <= i < j < s.drop_last().len() implies (#[trigger] s.drop_last()[i]).account@
        != (#[trigger] s.drop_last()[j]).account@ by {
        assert(s.drop_last()[i] == s[i]);
        assert(s.drop_last()[j] == s[j]);
    }
}

/// An account has a ledger entry exactly when some element of the sequence
/// names it.
pub proof fn lemma_ledger_contains(s: Seq<Supporter>, a: Seq<char>)
    ensures
        ledger_of(s).contains_key(a) <==> exists|i: int|
            0 <= i < s.len() && (#[trigger] s[i]).account@ == a,
    decreases s.len(),
{
    if s.len() > 0 {
        lemma_ledger_contains(s.drop_last(), a);
        if s.last().account@ == a {
            assert(s[s.len() - 1].account@ == a);
        } else if ledger_of(s).contains_key(a) {
            let i = choose|i: int| 0 <= i < s.drop_last().len() && (#[trigger] s.drop_last()[i]).account@ == a;
            assert(s[i].account@ == a);
        } else {
            assert forall|i: int| 0 <= i < s.len() implies (#[trigger] s[i]).account@ != a by {
                if i < s.len() - 1 {
                    assert(s.drop_last()[i] == s[i]);
                }
            }
        }
    }
}

/// In a ledger with unique accounts, the entry for an element's account holds
/// exactly that element's amount.
pub proof fn lemma_ledger_index(s: Seq<Supporter>, i: int)
    requires
        unique_accounts(s),
        0 <= i < s.len(),
    ensures
        ledger_of(s).contains_key(s[i].account@),
        ledger_of(s)[s[i].account@] == s[i].amount,
    decreases s.len(),
{
    if i == s.len() - 1 {
    } else {
        lemma_unique_drop_last(s);
        assert(s.drop_last()[i] == s[i]);
        lemma_ledger_index(s.drop_last(), i);
        assert(s[i].account@ != s[s.len() - 1].account@);
    }
}

/// Appending an entry for a fresh account inserts it into the ledger map.
pub proof fn lemma_ledger_push(s: Seq<Supporter>, e: Supporter)
    ensures
        ledger_of(s.push(e)) == ledger_of(s).insert(e.account@, e.amount),
        sum_of(s.push(e)) == sum_of(s) + e.amount,
{
    assert(s.push(e).drop_last() =~= s);
    assert(s.push(e).last() == e);
}

/// Replacing the amount of an existing entry updates exactly its key in the
/// ledger map.
pub proof fn lemma_ledger_update(s: Seq<Supporter>, i: int, e: Supporter)
    requires
        unique_accounts(s),
        0 <= i < s.len(),
        e.account@ == s[i].account@,
    ensures
        ledger_of(s.update(i, e)) =~= ledger_of(s).insert(e.account@, e.amount),
        sum_of(s.update(i, e)) == sum_of(s) - s[i].amount + e.amount,
    decreases s.len(),
{
    lemma_unique_drop_last(s);
    if i == s.len() - 1 {
        assert(s.update(i, e).drop_last() =~= s.drop_last());
        assert(s.update(i, e).last() == e);
    } else {
        assert(s.update(i, e).drop_last() =~= s.drop_last().update(i, e));
        assert(s.update(i, e).last() == s.last());
        assert(s.drop_last()[i] == s[i]);
        lemma_ledger_update(s.drop_last(), i, e);
        assert(s[i].account@ != s[s.len() - 1].account@);
    }
}

/// Updating an element keeps the accounts unique when the account is kept.
pub proof fn lemma_unique_update(s: Seq<Supporter>, i: int, e: Supporter)
    requires
        unique_accounts(s),
        0 <= i < s.len(),
        e.account@ == s[i].account@,
    ensures
        unique_accounts(s.update(i, e)),
{
    assert forall|p: int, q: int| 0 <= p < q < s.update(i, e).len() implies (#[trigger] s.update(
        i,
        e,
    )[p]).account@ != (#[trigger] s.update(i, e)[q]).account@ by {
        assert(s[p].account@ != s[q].account@);
    }
}

/// Appending an entry for an account no element names keeps the accounts
/// unique.
pub proof fn lemma_unique_push(s: Seq<Supporter>, e: Supporter)
    requires
        unique_accounts(s),
        forall|i: int| 0 <= i < s.len() ==> (#[trigger] s[i]).account@ != e.account@,
    ensures
        unique_accounts(s.push(e)),
{
    assert forall|p: int, q: int| 0 <= p < q < s.push(e).len() implies (#[trigger] s.push(
        e,
    )[p]).account@ != (#[trigger] s.push(e)[q]).account@ by {
        if q < s.len() {
            assert(s[p].account@ != s[q].account@);
        } else {
            assert(s.push(e)[q] == e);
            assert(s.push(e)[p] == s[p]);
        }
    }
}

/// Every amount in the ledger is at most the sum of all amounts.
pub proof fn lemma_entry_le_sum(s: Seq<Supporter>, i: int)
    requires
        0 <= i < s.len(),
    ensures
        s[i].amount <= sum_of(s),
    decreases s.len(),
{
    lemma_sum_nonneg(s.drop_last());
    if i == s.len() - 1 {
    } else {
        assert(s.drop_last()[i] == s[i]);
        lemma_entry_le_sum(s.drop_last(), i);
    }
}

/// The sum of the (unsigned) amounts is never negative.
pub proof fn lemma_sum_nonneg(s: Seq<Supporter>)
    ensures
        sum_of(s) >= 0,
    decreases s.len(),
{
    if s.len() > 0 {
        lemma_sum_nonneg(s.drop_last());
    }
}

} // verus!
