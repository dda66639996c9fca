use flowfi_factor::{fund_record, mint_record, Address, Amount, Error, FlowFiFactor, Invoice, InvoiceFunded};

fn alice() -> Address {
    Address::Account([0xA1; 32])
}

fn bob() -> Address {
    Address::Account([0xB2; 32])
}

fn carol() -> Address {
    Address::Contract([0xC3; 32])
}

fn amt(v: u128) -> Amount {
    Amount::from_u128(v)
}

#[test]
fn mint_fund_then_refund_refused() {
    let mut ledger = FlowFiFactor::init();
    let minted = ledger.mint_invoice(alice(), amt(1000), "doc1".to_string());
    assert_eq!(minted.id, 0);
    assert_eq!(minted.owner, alice());
    assert_eq!(minted.amount, amt(1000));
    assert_eq!(minted.ipfs_hash, "doc1");

    let settlement = ledger.fund_invoice(bob(), 0, amt(1000)).unwrap();
    assert_eq!(settlement.transfer_to, alice());
    assert_eq!(settlement.transfer_amount, amt(1000));
    assert_eq!(settlement.event, InvoiceFunded { id: 0, funder: bob(), amount: amt(1000) });
    assert!(ledger.get_invoice(0).unwrap().is_funded);

    assert_eq!(ledger.fund_invoice(carol(), 0, amt(1000)), Err(Error::AlreadyFunded));
}

#[test]
fn short_payment_leaves_invoice_unfunded() {
    let mut ledger = FlowFiFactor::init();
    ledger.mint_invoice(alice(), amt(1000), "doc1".to_string());
    let minted = ledger.mint_invoice(alice(), amt(500), "doc2".to_string());
    assert_eq!(minted.id, 1);
    assert_eq!(ledger.fund_invoice(bob(), 1, amt(499)), Err(Error::InsufficientFunds));
    assert!(!ledger.get_invoice(1).unwrap().is_funded);
}

#[test]
fn ids_are_consecutive_from_zero() {
    let mut ledger = FlowFiFactor::init();
    assert_eq!(ledger.invoice_count(), 0);
    for i in 0..5u64 {
        let minted = ledger.mint_invoice(bob(), amt(i as u128), format!("doc{}", i));
        assert_eq!(minted.id, i);
        assert_eq!(ledger.invoice_count(), i + 1);
    }
    for i in 0..5u64 {
        assert_eq!(ledger.get_invoice(i).unwrap().id, i);
    }
}

#[test]
fn get_before_and_after_mint() {
    let mut ledger = FlowFiFactor::init();
    assert_eq!(ledger.get_invoice(0), None);
    ledger.mint_invoice(carol(), amt(42), "bafyref".to_string());
    let expected = Invoice {
        id: 0,
        owner: carol(),
        amount: amt(42),
        ipfs_hash: "bafyref".to_string(),
        is_funded: false,
    };
    assert_eq!(ledger.get_invoice(0), Some(expected));
    assert_eq!(ledger.get_invoice(1), None);
    assert_eq!(ledger.get_invoice(u64::MAX), None);
}

#[test]
fn exact_payment_funds_and_pays_owner() {
    let mut ledger = FlowFiFactor::init();
    ledger.mint_invoice(alice(), amt(700), "r".to_string());
    let settlement = ledger.fund_invoice(bob(), 0, amt(700)).unwrap();
    assert_eq!(settlement.transfer_to, alice());
    assert_eq!(settlement.transfer_amount, amt(700));
    let inv = ledger.get_invoice(0).unwrap();
    assert!(inv.is_funded);
    assert_eq!(inv.amount, amt(700));
    assert_eq!(inv.owner, alice());
    assert_eq!(inv.ipfs_hash, "r");
}

#[test]
fn second_funding_refused_record_unchanged() {
    let mut ledger = FlowFiFactor::init();
    ledger.mint_invoice(alice(), amt(10), "x".to_string());
    ledger.fund_invoice(bob(), 0, amt(10)).unwrap();
    let before = ledger.get_invoice(0);
    for value in [0u128, 9, 10, 11, u128::MAX] {
        assert_eq!(ledger.fund_invoice(carol(), 0, amt(value)), Err(Error::AlreadyFunded));
        assert_eq!(ledger.get_invoice(0), before);
    }
}

#[test]
fn missing_invoice_not_found() {
    let mut ledger = FlowFiFactor::init();
    assert_eq!(ledger.fund_invoice(bob(), 0, amt(0)), Err(Error::InvoiceNotFound));
    ledger.mint_invoice(alice(), amt(1), "a".to_string());
    assert_eq!(ledger.fund_invoice(bob(), 1, amt(5)), Err(Error::InvoiceNotFound));
    assert_eq!(ledger.fund_invoice(bob(), u64::MAX, Amount::from_parts(u128::MAX, u128::MAX)), Err(Error::InvoiceNotFound));
    assert!(!ledger.get_invoice(0).unwrap().is_funded);
}

#[test]
fn overpayment_forwarded_in_full() {
    let mut ledger = FlowFiFactor::init();
    ledger.mint_invoice(alice(), amt(100), "over".to_string());
    let settlement = ledger.fund_invoice(bob(), 0, amt(250)).unwrap();
    assert_eq!(settlement.transfer_amount, amt(250));
    assert_eq!(settlement.event.amount, amt(250));
    assert_eq!(ledger.get_invoice(0).unwrap().amount, amt(100));
}

#[test]
fn zero_amount_invoice_funded_with_nothing() {
    let mut ledger = FlowFiFactor::init();
    ledger.mint_invoice(alice(), amt(0), String::new());
    assert!(ledger.fund_invoice(bob(), 0, amt(0)).is_ok());
    assert!(ledger.get_invoice(0).unwrap().is_funded);
}

#[test]
fn comparison_uses_high_half() {
    let mut ledger = FlowFiFactor::init();
    let big = Amount::from_parts(1, 0);
    ledger.mint_invoice(alice(), big, "big".to_string());
    assert_eq!(ledger.fund_invoice(bob(), 0, amt(u128::MAX)), Err(Error::InsufficientFunds));
    assert!(ledger.fund_invoice(bob(), 0, Amount::from_parts(1, 0)).is_ok());

    ledger.mint_invoice(alice(), Amount::from_parts(2, 5), "big2".to_string());
    assert_eq!(ledger.fund_invoice(bob(), 1, Amount::from_parts(2, 4)), Err(Error::InsufficientFunds));
    assert!(ledger.fund_invoice(bob(), 1, Amount::from_parts(3, 0)).is_ok());
}

#[test]
fn amount_parts_and_order() {
    let a = Amount::from_parts(7, 9);
    assert_eq!(a.high_bits(), 7);
    assert_eq!(a.low_bits(), 9);
    assert_eq!(amt(5).high_bits(), 0);
    assert_eq!(amt(5).low_bits(), 5);
    assert!(amt(3).less_than(&amt(4)));
    assert!(!amt(4).less_than(&amt(4)));
    assert!(!Amount::from_parts(1, 0).less_than(&amt(u128::MAX)));
    assert!(amt(u128::MAX).less_than(&Amount::from_parts(1, 0)));
}

#[test]
fn refusal_order_funded_before_short() {
    let mut ledger = FlowFiFactor::init();
    ledger.mint_invoice(alice(), amt(100), "o".to_string());
    ledger.fund_invoice(bob(), 0, amt(100)).unwrap();
    assert_eq!(ledger.fund_invoice(bob(), 0, amt(1)), Err(Error::AlreadyFunded));
}

#[test]
fn record_decisions() {
    let (invoice, event) = mint_record(3, alice(), amt(20), "d".to_string());
    assert_eq!(invoice.id, 3);
    assert!(!invoice.is_funded);
    assert_eq!(event.id, 3);
    assert_eq!(event.ipfs_hash, "d");

    assert_eq!(fund_record(None, 3, bob(), amt(20)), Err(Error::InvoiceNotFound));
    assert_eq!(fund_record(Some(&invoice), 3, bob(), amt(19)), Err(Error::InsufficientFunds));
    let (updated, settlement) = fund_record(Some(&invoice), 3, bob(), amt(21)).unwrap();
    assert!(updated.is_funded);
    assert_eq!(updated.amount, amt(20));
    assert_eq!(settlement.transfer_to, alice());
    assert_eq!(settlement.event, InvoiceFunded { id: 3, funder: bob(), amount: amt(21) });
    assert_eq!(fund_record(Some(&updated), 3, carol(), amt(100)), Err(Error::AlreadyFunded));
}
