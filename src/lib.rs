//! An invoice-factoring ledger: invoices are minted by their owner and funded
//! once by a third party whose payment is forwarded to the owner.
//!
//! The ledger takes the host's facts (who calls, how much value came with the
//! call) as arguments and hands back what the host must do (notifications to
//! emit, the transfer to make), so that its state machine is checked on its own.

mod amount;
mod invoice;
pub mod laws;
pub mod ledger;

pub use amount::Amount;
pub use invoice::{Address, Error, Invoice, InvoiceFunded, InvoiceMinted, InvoiceView, Settlement};
pub use ledger::{fund_record, mint_record, FlowFiFactor};
