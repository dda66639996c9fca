use crate::amount::Amount;
use vstd::prelude::*;

verus! {

/// The identity of a party: an account or a contract package, each named by
/// a 32-byte hash.
#[derive(Clone, Copy, Debug, PartialEq, Eq)]
pub enum Address {
    Account([u8; 32]),
    Contract([u8; 32]),
}

/// A receivable tracked by the ledger.
#[derive(Clone, Debug, PartialEq, Eq)]
pub struct Invoice {
    pub id: u64,
    pub owner: Address,
    pub amount: Amount,
    /// Content address of the off-ledger invoice document.
    pub ipfs_hash: String,
    pub is_funded: bool,
}

/// What an [`Invoice`] holds, with its document reference as a sequence of
/// characters.
pub struct InvoiceView {
    pub id: u64,
    pub owner: Address,
    pub amount: Amount,
    pub reference: Seq<char>,
    pub is_funded: bool,
}

impl View for Invoice {
    type V = InvoiceView;

    open spec fn view(&self) -> InvoiceView {
        InvoiceView {
            id: self.id,
            owner: self.owner,
            amount: self.amount,
            reference: self.ipfs_hash@,
            is_funded: self.is_funded,
        }
    }
}

impl Invoice {
    /// A copy of this invoice.
    pub fn duplicate(&self) -> (r: Invoice)
        ensures
            r@ == self@,
    {
        Invoice {
            id: self.id,
            owner: self.owner,
            amount: self.amount,
            ipfs_hash: self.ipfs_hash.clone(),
            is_funded: self.is_funded,
        }
    }
}

/// Notification that an invoice was minted.
#[derive(Clone, Debug, PartialEq, Eq)]
pub struct InvoiceMinted {
    pub id: u64,
    pub owner: Address,
    pub amount: Amount,
    pub ipfs_hash: String,
}

/// Notification that an invoice was funded; `amount` is the whole value that
/// came with the funding call.
#[derive(Clone, Copy, Debug, PartialEq, Eq)]
pub struct InvoiceFunded {
    pub id: u64,
    pub funder: Address,
    pub amount: Amount,
}

/// What the host must do after a successful funding: move `transfer_amount`
/// of the call's attached value to `transfer_to`, then emit `event`.
#[derive(Clone, Copy, Debug, PartialEq, Eq)]
pub struct Settlement {
    pub transfer_to: Address,
    pub transfer_amount: Amount,
    pub event: InvoiceFunded,
}

/// Why a funding call is refused.
#[derive(Clone, Copy, Debug, PartialEq, Eq, Structural)]
pub enum Error {
    InvoiceNotFound,
    AlreadyFunded,
    InsufficientFunds,
}

} // verus!
