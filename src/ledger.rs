use crate::amount::Amount;
use crate::invoice::{Address, Error, Invoice, InvoiceFunded, InvoiceMinted, InvoiceView, Settlement};
use vstd::prelude::*;

verus! {

/// The record that minting puts under `id`.
pub open spec fn fresh_invoice(id: u64, owner: Address, amount: Amount, reference: Seq<char>) -> InvoiceView {
    InvoiceView { id, owner, amount, reference, is_funded: false }
}

/// The ledger after the caller mints an invoice: the new record takes the
/// next id, which is the number of invoices minted so far.
pub open spec fn after_mint(s: Seq<InvoiceView>, caller: Address, amount: Amount, reference: Seq<char>) -> Seq<InvoiceView> {
    s.push(fresh_invoice(s.len() as u64, caller, amount, reference))
}

/// The record under `id`, if one was minted.
pub open spec fn lookup(s: Seq<InvoiceView>, id: u64) -> Option<InvoiceView> {
    if id < s.len() {
        Some(s[id as int])
    } else {
        None
    }
}

/// Why funding `record` with `attached` value is refused, checked in order:
/// no record, already funded, too little value.
pub open spec fn refusal(record: Option<InvoiceView>, attached: Amount) -> Option<Error> {
    match record {
        None => Some(Error::InvoiceNotFound),
        Some(inv) => if inv.is_funded {
            Some(Error::AlreadyFunded)
        } else if attached.value() < inv.amount.value() {
            Some(Error::InsufficientFunds)
        } else {
            None
        },
    }
}

/// Why funding the invoice `id` of the ledger `s` is refused, if it is.
pub open spec fn fund_refusal(s: Seq<InvoiceView>, id: u64, attached: Amount) -> Option<Error> {
    refusal(lookup(s, id), attached)
}

/// A record after its funding: only the flag changes.
pub open spec fn funded(inv: InvoiceView) -> InvoiceView {
    InvoiceView { is_funded: true, ..inv }
}

/// The ledger after the invoice `id` is funded.
pub open spec fn after_fund(s: Seq<InvoiceView>, id: u64) -> Seq<InvoiceView> {
    s.update(id as int, funded(s[id as int]))
}

/// What a successful funding hands to the host: the whole attached value
/// goes to the owner, and the notification names the funder.
pub open spec fn settlement_of(owner: Address, id: u64, caller: Address, attached: Amount) -> Settlement {
    Settlement {
        transfer_to: owner,
        transfer_amount: attached,
        event: InvoiceFunded { id, funder: caller, amount: attached },
    }
}

/// What a stored record, if any, holds.
pub open spec fn record_view(record: Option<&Invoice>) -> Option<InvoiceView> {
    match record {
        Some(inv) => Some(inv@),
        None => None,
    }
}

/// The record and the notification that minting invoice `id` produces.
pub fn mint_record(id: u64, caller: Address, amount: Amount, ipfs_hash: String) -> (r: (Invoice, InvoiceMinted))
    ensures
        r.0@ == fresh_invoice(id, caller, amount, ipfs_hash@),
        r.1.id == id,
        r.1.owner == caller,
        r.1.amount == amount,
        r.1.ipfs_hash@ == ipfs_hash@,
{
    let invoice = Invoice { id, owner: caller, amount, ipfs_hash: ipfs_hash.clone(), is_funded: false };
    let event = InvoiceMinted { id, owner: caller, amount, ipfs_hash };
    (invoice, event)
}

/// Decides a funding of invoice `id`, whose stored record is `record`: either
/// the refusal, or the updated record and what the host must then do.
pub fn fund_record(record: Option<&Invoice>, id: u64, caller: Address, attached_value: Amount) -> (r: Result<(Invoice, Settlement), Error>)
    ensures
        match refusal(record_view(record), attached_value) {
            Some(e) => r == Err::<(Invoice, Settlement), Error>(e),
            None => r is Ok
                && r->Ok_0.0@ == funded(record_view(record)->Some_0)
                && r->Ok_0.1 == settlement_of(record_view(record)->Some_0.owner, id, caller, attached_value),
        },
{
    let inv = match record {
        None => return Err(Error::InvoiceNotFound),
        Some(inv) => inv,
    };
    if inv.is_funded {
        return Err(Error::AlreadyFunded);
    }
    if attached_value.less_than(&inv.amount) {
        return Err(Error::InsufficientFunds);
    }
    let mut updated = inv.duplicate();
    updated.is_funded = true;
    let settlement = Settlement {
        transfer_to: inv.owner,
        transfer_amount: attached_value,
        event: InvoiceFunded { id, funder: caller, amount: attached_value },
    };
    Ok((updated, settlement))
}

/// The ledger: every minted invoice, kept under its id, and the number minted
/// so far, which is the next id.
pub struct FlowFiFactor {
    invoices: Vec<Invoice>,
    invoice_count: u64,
}

impl View for FlowFiFactor {
    type V = Seq<InvoiceView>;

    /// The records in id order: the one at index `i` has id `i`.
    closed spec fn view(&self) -> Seq<InvoiceView> {
        self.invoices@.map_values(|inv: Invoice| inv@)
    }
}

impl FlowFiFactor {
    /// The counter matches the records, and each record sits at its own id.
    pub closed spec fn wf(&self) -> bool {
        &&& self.invoices@.len() == self.invoice_count
        &&& forall|i: int| 0 <= i < self.invoices@.len() ==> (#[trigger] self.invoices@[i]).id == i
    }

    /// An empty ledger whose next id is 0.
    pub fn init() -> (r: FlowFiFactor)
        ensures
            r.wf(),
            r@ == Seq::<InvoiceView>::empty(),
    {
        let r = FlowFiFactor { invoices: Vec::new(), invoice_count: 0 };
        assert(r@ =~= Seq::<InvoiceView>::empty());
        r
    }

    /// Each record carries the id it is stored under.
    pub proof fn lemma_ids(&self)
        requires
            self.wf(),
        ensures
            self@.len() <= u64::MAX,
            forall|i: int| 0 <= i < self@.len() ==> (#[trigger] self@[i]).id == i,
    {
    }

    /// The number of invoices minted so far, which is the next id.
    pub fn invoice_count(&self) -> (r: u64)
        requires
            self.wf(),
        ensures
            r == self@.len(),
    {
        self.invoice_count
    }

    /// Mints an invoice owned by `caller` under the next id, and returns the
    /// notification to emit.
    pub fn mint_invoice(&mut self, caller: Address, amount: Amount, ipfs_hash: String) -> (r: InvoiceMinted)
        requires
            old(self).wf(),
            old(self)@.len() < u64::MAX,
        ensures
            final(self).wf(),
            final(self)@ == after_mint(old(self)@, caller, amount, ipfs_hash@),
            r.id == old(self)@.len(),
            r.owner == caller,
            r.amount == amount,
            r.ipfs_hash@ == ipfs_hash@,
    {
        let id = self.invoice_count;
        let (invoice, event) = mint_record(id, caller, amount, ipfs_hash);
        self.invoices.push(invoice);
        self.invoice_count = id + 1;
        assert(self@ =~= after_mint(old(self)@, caller, amount, ipfs_hash@));
        event
    }

    /// Funds the invoice `id` on behalf of `caller`, who attached
    /// `attached_value` to the call. On success the invoice is marked funded
    /// and the host is told to forward the whole attached value to the owner;
    /// on a refusal nothing changes.
    pub fn fund_invoice(&mut self, caller: Address, id: u64, attached_value: Amount) -> (r: Result<Settlement, Error>)
        requires
            old(self).wf(),
        ensures
            final(self).wf(),
            match fund_refusal(old(self)@, id, attached_value) {
                Some(e) => r == Err::<Settlement, Error>(e) && final(self)@ == old(self)@,
                None => r == Ok::<Settlement, Error>(settlement_of(old(self)@[id as int].owner, id, caller, attached_value))
                    && final(self)@ == after_fund(old(self)@, id),
            },
    {
        // Reading the length tells the verifier that a stored id fits in usize.
        let _stored: usize = self.invoices.len();
        let found = id < self.invoice_count;
        let outcome = if found {
            fund_record(Some(&self.invoices[id as usize]), id, caller, attached_value)
        } else {
            fund_record(None, id, caller, attached_value)
        };
        match outcome {
            Err(e) => Err(e),
            Ok((updated, settlement)) => {
                self.invoices.set(id as usize, updated);
                assert(self@ =~= after_fund(old(self)@, id));
                Ok(settlement)
            },
        }
    }

    /// The invoice stored under `id`, if one was minted.
    pub fn get_invoice(&self, id: u64) -> (r: Option<Invoice>)
        requires
            self.wf(),
        ensures
            match r {
                Some(inv) => lookup(self@, id) == Some(inv@),
                None => lookup(self@, id) is None,
            },
    {
        // Reading the length tells the verifier that a stored id fits in usize.
        let _stored: usize = self.invoices.len();
        if id < self.invoice_count {
            Some(self.invoices[id as usize].duplicate())
        } else {
            None
        }
    }
}

} // verus!
