use crate::amount::Amount;
use crate::invoice::{Address, Error, InvoiceView};
use crate::ledger::{after_fund, after_mint, fresh_invoice, fund_refusal, funded, lookup, settlement_of};
use vstd::prelude::*;

verus! {

/// The ledger after minting, in order, one invoice per request
/// `(caller, amount, reference)`.
pub open spec fn mint_all(s: Seq<InvoiceView>, requests: Seq<(Address, Amount, Seq<char>)>) -> Seq<InvoiceView>
    decreases requests.len(),
{
    if requests.len() == 0 {
        s
    } else {
        let last = requests.last();
        after_mint(mint_all(s, requests.drop_last()), last.0, last.1, last.2)
    }
}

/// Whether `later` can follow `earlier`: no record is removed, and a kept
/// record may only go from unfunded to funded, every other field frozen.
pub open spec fn evolves(earlier: Seq<InvoiceView>, later: Seq<InvoiceView>) -> bool {
    &&& earlier.len() <= later.len()
    &&& forall|i: int| 0 <= i < earlier.len() ==> {
        let (a, b) = (#[trigger] earlier[i], later[i]);
        &&& b.id == a.id
        &&& b.owner == a.owner
        &&& b.amount == a.amount
        &&& b.reference == a.reference
        &&& (a.is_funded ==> b.is_funded)
    }
}

/// Minting a series of invoices hands out consecutive ids, in mint order,
/// starting at the number already minted: no id is skipped or repeated, and
/// each record holds exactly what its request gave, unfunded.
pub proof fn lemma_mint_ids_consecutive(s: Seq<InvoiceView>, requests: Seq<(Address, Amount, Seq<char>)>)
    requires
        s.len() + requests.len() <= u64::MAX,
    ensures
        mint_all(s, requests).len() == s.len() + requests.len(),
        mint_all(s, requests).subrange(0, s.len() as int) == s,
        forall|i: int| 0 <= i < requests.len() ==> #[trigger] mint_all(s, requests)[s.len() + i] == fresh_invoice(
            (s.len() + i) as u64,
            requests[i].0,
            requests[i].1,
            requests[i].2,
        ),
    decreases requests.len(),
{
    if requests.len() > 0 {
        let before = requests.drop_last();
        lemma_mint_ids_consecutive(s, before);
        let m = mint_all(s, before);
        assert(mint_all(s, requests) == m.push(fresh_invoice(m.len() as u64, requests.last().0, requests.last().1, requests.last().2)));
        assert(mint_all(s, requests).subrange(0, s.len() as int) =~= m.subrange(0, s.len() as int));
        assert forall|i: int| 0 <= i < requests.len() implies #[trigger] mint_all(s, requests)[s.len() + i] == fresh_invoice(
            (s.len() + i) as u64,
            requests[i].0,
            requests[i].1,
            requests[i].2,
        ) by {
            if i < before.len() {
                assert(before[i] == requests[i]);
            }
        }
    }
}

/// On a fresh ledger the ids handed out are exactly `0, 1, 2, ...` in mint
/// order.
pub proof fn lemma_fresh_ledger_ids(requests: Seq<(Address, Amount, Seq<char>)>)
    requires
        requests.len() <= u64::MAX,
    ensures
        mint_all(Seq::empty(), requests).len() == requests.len(),
        forall|i: int| 0 <= i < requests.len() ==> (#[trigger] mint_all(Seq::empty(), requests)[i]).id == i,
{
    lemma_mint_ids_consecutive(Seq::empty(), requests);
    assert forall|i: int| 0 <= i < requests.len() implies (#[trigger] mint_all(Seq::empty(), requests)[i]).id == i by {
        assert(mint_all(Seq::<InvoiceView>::empty(), requests)[0 + i] == mint_all(Seq::<InvoiceView>::empty(), requests)[i]);
    }
}

/// No id at or past the number minted has a record; once minted, the new id
/// has an unfunded record with exactly the caller, amount and reference given.
pub proof fn lemma_lookup_around_mint(s: Seq<InvoiceView>, caller: Address, amount: Amount, reference: Seq<char>)
    requires
        s.len() < u64::MAX,
    ensures
        forall|id: u64| id >= s.len() ==> #[trigger] lookup(s, id) is None,
        lookup(after_mint(s, caller, amount, reference), s.len() as u64) == Some(
            InvoiceView { id: s.len() as u64, owner: caller, amount, reference, is_funded: false },
        ),
        forall|id: u64| id < s.len() ==> #[trigger] lookup(after_mint(s, caller, amount, reference), id) == lookup(s, id),
{
}

/// Funding an unfunded invoice with exactly its amount is accepted: the
/// record becomes funded and the owner receives that amount.
pub proof fn lemma_fund_exact_amount(s: Seq<InvoiceView>, id: u64, caller: Address)
    requires
        id < s.len(),
        !s[id as int].is_funded,
    ensures
        fund_refusal(s, id, s[id as int].amount) is None,
        after_fund(s, id)[id as int].is_funded,
        settlement_of(s[id as int].owner, id, caller, s[id as int].amount).transfer_to == s[id as int].owner,
        settlement_of(s[id as int].owner, id, caller, s[id as int].amount).transfer_amount == s[id as int].amount,
{
}

/// Once an invoice has been funded, any further funding of it, with any
/// value, is refused as already funded.
pub proof fn lemma_fund_twice(s: Seq<InvoiceView>, id: u64, first: Amount, second: Amount)
    requires
        fund_refusal(s, id, first) is None,
    ensures
        fund_refusal(after_fund(s, id), id, second) == Some(Error::AlreadyFunded),
{
}

/// Funding an unfunded invoice with less than its amount is refused for
/// insufficient funds.
pub proof fn lemma_fund_short(s: Seq<InvoiceView>, id: u64, attached: Amount)
    requires
        id < s.len(),
        !s[id as int].is_funded,
        attached.value() < s[id as int].amount.value(),
    ensures
        fund_refusal(s, id, attached) == Some(Error::InsufficientFunds),
{
}

/// Funding an id that was never minted is refused as not found, whatever
/// value is attached.
pub proof fn lemma_fund_missing(s: Seq<InvoiceView>, id: u64, attached: Amount)
    requires
        id >= s.len(),
    ensures
        fund_refusal(s, id, attached) == Some(Error::InvoiceNotFound),
{
}

/// Minting and accepted fundings only append records or raise a flag: the
/// ledger is append-only and a funded invoice never becomes unfunded.
pub proof fn lemma_steps_evolve(s: Seq<InvoiceView>, caller: Address, amount: Amount, reference: Seq<char>, id: u64, attached: Amount)
    ensures
        evolves(s, s),
        evolves(s, after_mint(s, caller, amount, reference)),
        fund_refusal(s, id, attached) is None ==> evolves(s, after_fund(s, id)),
{
    if fund_refusal(s, id, attached) is None {
        assert(funded(s[id as int]).amount == s[id as int].amount);
    }
}

} // verus!
