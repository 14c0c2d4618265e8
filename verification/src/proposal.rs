//! The proposal contract: one crowdfunding proposal's terms and funding
//! ledger, with guarded transitions.
//!
//! Lifecycle: a proposal is created unconfigured, `initialize` records the
//! first caller as the factory, `configure` (factory-only, one-time) sets the
//! terms, and `add_supporter` accepts contributions of at least the minimum
//! deposit. Failed calls leave the state unchanged.

use vstd::prelude::*;

use crate::ledger::{
    ledger_of, lemma_entry_le_sum, lemma_ledger_contains, lemma_ledger_index, lemma_ledger_push,
    lemma_ledger_update, lemma_unique_push, lemma_unique_update, sum_of, unique_accounts, Supporter,
};
use crate::numeral::{dec_str, u128_to_string};
use vstd::string::StringExecFns;

verus! {

/// Why a call was rejected. Every failure is terminal for the triggering
/// call: the state is left unchanged.
#[derive(Clone, Copy, Debug, PartialEq, Eq, Structural)]
pub enum ProposalError {
    AlreadyInitialized,
    NotAuthorized,
    AlreadyConfigured,
    InvalidTerms,
    NotConfigured,
    DepositTooSmall,
}

/// One crowdfunding proposal: its terms and its funding ledger.
pub struct Proposal {
    pub initialized: bool,
    pub factory: String,
    pub configured: bool,
    pub title: String,
    pub description: String,
    pub goal: u128,
    pub min_deposit: u128,
    pub supporters: Vec<Supporter>,
    pub funding_total: u128,
}

/// Terms are valid when the minimum deposit is positive and no larger than
/// the goal (which is then positive too).
pub open spec fn valid_terms(goal: u128, min_deposit: u128) -> bool {
    0 < min_deposit <= goal
}

impl Proposal {
    /// Well-formedness: the cached total equals the ledger sum, accounts are
    /// unique, contributions exist only once configured and each meets the
    /// minimum deposit, and configuration implies initialization with valid
    /// terms.
    pub open spec fn wf(self) -> bool {
        &&& unique_accounts(self.supporters@)
        &&& self.funding_total as int == sum_of(self.supporters@)
        &&& (self.configured ==> self.initialized)
        &&& (self.configured ==> valid_terms(self.goal, self.min_deposit))
        &&& (!self.configured ==> self.supporters@.len() == 0 && self.funding_total == 0)
        &&& (forall|i: int|
            0 <= i < self.supporters@.len() ==> (#[trigger] self.supporters@[i]).amount
                >= self.min_deposit)
    }

    /// The ledger as a map from account name to cumulative contribution.
    pub open spec fn ledger(self) -> Map<Seq<char>, u128> {
        ledger_of(self.supporters@)
    }

    /// The amount an account has contributed so far: its ledger entry, or
    /// zero if it has none.
    pub open spec fn contributed(self, account: Seq<char>) -> int {
        if self.ledger().contains_key(account) {
            self.ledger()[account] as int
        } else {
            0
        }
    }

    /// A fresh, uninitialized, unconfigured proposal with an empty ledger.
    pub fn new() -> (p: Proposal)
        ensures
            p.wf(),
            !p.initialized,
            !p.configured,
            p.funding_total == 0,
            p.supporters@.len() == 0,
            p.goal == 0,
            p.min_deposit == 0,
    {
        Proposal {
            initialized: false,
            factory: String::new(),
            configured: false,
            title: String::new(),
            description: String::new(),
            goal: 0,
            min_deposit: 0,
            supporters: Vec::new(),
            funding_total: 0,
        }
    }

    /// Whether the terms have been set.
    pub fn is_configured(&self) -> (r: bool)
        ensures
            r == self.configured,
    {
        self.configured
    }

    /// The identity of the account that initialized this proposal.
    pub fn get_factory(&self) -> (r: String)
        ensures
            r == self.factory,
    {
        self.factory.clone()
    }

    /// The sum of all accepted contributions.
    pub fn get_funding_total(&self) -> (r: u128)
        ensures
            r == self.funding_total,
    {
        self.funding_total
    }

    /// Records the caller as the factory. Succeeds exactly once: any later
    /// call fails with `AlreadyInitialized` and changes nothing.
    pub fn initialize(&mut self, caller: String) -> (r: Result<(), ProposalError>)
        requires
            old(self).wf(),
        ensures
            final(self).wf(),
            r is Ok <==> !old(self).initialized,
            old(self).initialized ==> r == Err::<(), ProposalError>(
                ProposalError::AlreadyInitialized,
            ) && *final(self) == *old(self),
            r is Ok ==> final(self).initialized && final(self).factory == caller,
            r is Ok ==> final(self).configured == old(self).configured && final(self).title == old(self).title && final(self).description == old(self).description && final(self).goal == old(self).goal && final(self).min_deposit == old(self).min_deposit && final(self).supporters
                == old(self).supporters && final(self).funding_total == old(self).funding_total,
    {
        if self.initialized {
            return Err(ProposalError::AlreadyInitialized);
        }
        self.initialized = true;
        self.factory = caller;
        Ok(())
    }

    /// Sets the terms. Only the factory may call it, only after
    /// initialization, only once, and only with valid terms; any failure
    /// changes nothing.
    pub fn configure(
        &mut self,
        caller: &String,
        title: String,
        description: String,
        goal: u128,
        min_deposit: u128,
    ) -> (r: Result<(), ProposalError>)
        requires
            old(self).wf(),
        ensures
            final(self).wf(),
            r is Ok <==> old(self).initialized && caller@ == old(self).factory@ && !old(self).configured && valid_terms(goal, min_deposit),
            r is Err ==> *final(self) == *old(self),
            !old(self).initialized || caller@ != old(self).factory@ ==> r == Err::<
                (),
                ProposalError,
            >(ProposalError::NotAuthorized),
            old(self).initialized && caller@ == old(self).factory@ && old(self).configured ==> r
                == Err::<(), ProposalError>(ProposalError::AlreadyConfigured),
            old(self).initialized && caller@ == old(self).factory@ && !old(self).configured
                && !valid_terms(goal, min_deposit) ==> r == Err::<(), ProposalError>(
                ProposalError::InvalidTerms,
            ),
            r is Ok ==> final(self).configured && final(self).title == title && final(self).description == description && final(self).goal == goal && final(self).min_deposit
                == min_deposit,
            r is Ok ==> final(self).initialized == old(self).initialized && final(self).factory
                == old(self).factory && final(self).supporters == old(self).supporters && final(self).funding_total == old(self).funding_total,
    {
        if !self.initialized {
            return Err(ProposalError::NotAuthorized);
        }
        if !(*caller == self.factory) {
            return Err(ProposalError::NotAuthorized);
        }
        if self.configured {
            return Err(ProposalError::AlreadyConfigured);
        }
        if goal == 0 || min_deposit == 0 || min_deposit > goal {
            return Err(ProposalError::InvalidTerms);
        }
        self.configured = true;
        self.title = title;
        self.description = description;
        self.goal = goal;
        self.min_deposit = min_deposit;
        Ok(())
    }

    /// Accepts the caller's attached deposit. Succeeds exactly when the
    /// proposal is configured and the deposit meets the minimum; the amount
    /// is then added to the caller's ledger entry (created if absent) and to
    /// the funding total. Any failure changes nothing.
    #[verifier::loop_isolation(false)]
    pub fn add_supporter(&mut self, caller: &String, deposit: u128) -> (r: Result<
        (),
        ProposalError,
    >)
        requires
            old(self).wf(),
            old(self).funding_total + deposit <= u128::MAX,
        ensures
            final(self).wf(),
            r is Ok <==> old(self).configured && deposit >= old(self).min_deposit,
            !old(self).initialized ==> r is Err && *final(self) == *old(self),
            !old(self).configured ==> r == Err::<(), ProposalError>(ProposalError::NotConfigured)
                && *final(self) == *old(self),
            old(self).configured && deposit < old(self).min_deposit ==> r == Err::<
                (),
                ProposalError,
            >(ProposalError::DepositTooSmall) && *final(self) == *old(self),
            r is Ok ==> final(self).funding_total == old(self).funding_total + deposit,
            r is Ok ==> final(self).ledger() == old(self).ledger().insert(
                caller@,
                ((old(self).contributed(caller@) + deposit) as u128),
            ),
            r is Ok ==> final(self).supporters@.len() == old(self).supporters@.len() + (if old(self).ledger().contains_key(caller@) {
                0int
            } else {
                1int
            }),
            final(self).initialized == old(self).initialized && final(self).configured == old(self).configured && final(self).factory == old(self).factory && final(self).title == old(self).title && final(self).description == old(self).description && final(self).goal == old(self).goal && final(self).min_deposit == old(self).min_deposit,
    {
        if !self.configured {
            return Err(ProposalError::NotConfigured);
        }
        if deposit < self.min_deposit {
            return Err(ProposalError::DepositTooSmall);
        }
        let ghost s_old = self.supporters@;
        let n = self.supporters.len();
        let mut i: usize = 0;
        while i < n
            invariant
                i <= n,
                n == self.supporters@.len(),
                forall|j: int| 0 <= j < i ==> (#[trigger] self.supporters@[j]).account@ != caller@,
                *self == *old(self),
            decreases n - i,
        {
            if self.supporters[i].account == *caller {
                proof {
                    lemma_ledger_index(s_old, i as int);
                    lemma_entry_le_sum(s_old, i as int);
                }
                let new_amount = self.supporters[i].amount + deposit;
                self.supporters[i].amount = new_amount;
                self.funding_total = self.funding_total + deposit;
                proof {
                    let e = self.supporters@[i as int];
                    assert(self.supporters@ =~= s_old.update(i as int, e));
                    lemma_ledger_update(s_old, i as int, e);
                    lemma_unique_update(s_old, i as int, e);
                    assert forall|k: int| 0 <= k < self.supporters@.len() implies (
                    #[trigger] self.supporters@[k]).amount >= self.min_deposit by {
                        if k != i {
                            assert(self.supporters@[k] == s_old[k]);
                        }
                    }
                    assert(old(self).ledger().insert(e.account@, e.amount) =~= old(self).ledger().insert(caller@, ((old(self).contributed(caller@) + deposit) as u128)));
                }
                return Ok(());
            }
            i += 1;
        }
        proof {
            lemma_ledger_contains(s_old, caller@);
        }
        let entry = Supporter { account: caller.clone(), amount: deposit };
        proof {
            lemma_unique_push(s_old, entry);
            lemma_ledger_push(s_old, entry);
        }
        self.supporters.push(entry);
        self.funding_total = self.funding_total + deposit;
        proof {
            assert forall|k: int| 0 <= k < self.supporters@.len() implies (
            #[trigger] self.supporters@[k]).amount >= self.min_deposit by {
                if k < s_old.len() {
                    assert(self.supporters@[k] == s_old[k]);
                }
            }
        }
        Ok(())
    }

    /// The caller's cumulative contribution, or `None` if the account has no
    /// ledger entry.
    #[verifier::loop_isolation(false)]
    pub fn get_supporter(&self, account: &String) -> (r: Option<u128>)
        requires
            self.wf(),
        ensures
            r is Some <==> self.ledger().contains_key(account@),
            r is Some ==> r->Some_0 == self.ledger()[account@],
            r is None ==> self.contributed(account@) == 0,
    {
        let n = self.supporters.len();
        let mut i: usize = 0;
        while i < n
            invariant
                i <= n,
                n == self.supporters@.len(),
                forall|j: int| 0 <= j < i ==> (#[trigger] self.supporters@[j]).account@ != account@,
            decreases n - i,
        {
            if self.supporters[i].account == *account {
                proof {
                    lemma_ledger_index(self.supporters@, i as int);
                }
                return Some(self.supporters[i].amount);
            }
            i += 1;
        }
        proof {
            lemma_ledger_contains(self.supporters@, account@);
        }
        None
    }

    /// The text `toString` returns: the terms and totals, each labelled,
    /// amounts in decimal.
    pub open spec fn spec_display(self) -> Seq<char> {
        "Proposal { title: "@ + self.title@ + ", description: "@ + self.description@ + ", goal: "@
            + dec_str(self.goal as nat) + ", min_deposit: "@ + dec_str(self.min_deposit as nat)
            + ", funding_total: "@ + dec_str(self.funding_total as nat) + ", configured: "@ + (
        if self.configured {
            "true"@
        } else {
            "false"@
        }) + " }"@
    }

    /// A diagnostic rendering of the proposal's current terms and totals.
    #[allow(non_snake_case)]
    pub fn toString(&self) -> (r: String)
        ensures
            r@ == self.spec_display(),
    {
        let mut r = String::from_str("Proposal { title: ");
        r.append(self.title.as_str());
        r.append(", description: ");
        r.append(self.description.as_str());
        r.append(", goal: ");
        let goal = u128_to_string(self.goal);
        r.append(goal.as_str());
        r.append(", min_deposit: ");
        let min_deposit = u128_to_string(self.min_deposit);
        r.append(min_deposit.as_str());
        r.append(", funding_total: ");
        let funding_total = u128_to_string(self.funding_total);
        r.append(funding_total.as_str());
        r.append(", configured: ");
        if self.configured {
            r.append("true");
        } else {
            r.append("false");
        }
        r.append(" }");
        assert(r@ =~= self.spec_display());
        r
    }

    /// How many distinct supporters have contributed.
    pub fn supporter_count(&self) -> (r: usize)
        ensures
            r == self.supporters@.len(),
    {
        self.supporters.len()
    }
}

/// The ledger-sum invariant: in every well-formed proposal — so after any
/// sequence of successful calls — the cached funding total equals the sum of
/// the amounts recorded in the supporter ledger.
pub proof fn lemma_funding_total_is_ledger_sum(p: Proposal)
    requires
        p.wf(),
    ensures
        p.funding_total as int == sum_of(p.supporters@),
{
}

/// Mutating calls on an uninitialized proposal always fail and change
/// nothing: an uninitialized well-formed proposal is unconfigured, so
/// contributions are rejected, and configuration is refused because no
/// factory is recorded.
pub proof fn lemma_uninitialized_is_inert(p: Proposal)
    requires
        p.wf(),
        !p.initialized,
    ensures
        !p.configured,
        p.funding_total == 0,
        p.supporters@.len() == 0,
{
}

} // verus!
