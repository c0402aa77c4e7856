use base::api_types_extensions::Signed;
use base::crypto::{sha512_digest, IdKeyPair};
use base::encoding::encode_to_vec;
use base::error::BaseError;
use base::snp::snp_blockchain::transaction::Data;
use base::snp::snp_blockchain::{Account, PaymentTransactionData, Transaction, TransactionFee};
use base::snp::snp_payments::{Address, Amount};

fn amount(value: u64, coin_type: i32) -> Amount {
    Amount { value, coin_type }
}

fn payment_tx(sender: &IdKeyPair) -> Transaction {
    Transaction {
        sender_pub_key: sender.public_bytes(),
        counter: 1,
        entity_id: None,
        net_id: 2,
        signature: vec![],
        fee: Some(TransactionFee { amount: Some(amount(1, 0)), payer_public_key: vec![] }),
        fee_signature: vec![],
        data: Some(Data::PaymentTransaction(PaymentTransactionData {
            receiver: Some(Address { data: vec![3u8; 20] }),
            coins: Some(amount(10, 0)),
            id: 0,
        })),
    }
}

#[test]
fn balance_of_missing_coin_is_zero() {
    let account = Account { address: None, nonce: 0, balances: vec![amount(5, 1)] };
    assert_eq!(account.get_balance(1), 5);
    assert_eq!(account.get_balance(2), 0);
}

#[test]
fn set_balance_replaces_or_appends() {
    let mut account = Account { address: None, nonce: 3, balances: vec![amount(5, 1)] };
    account.set_balance(&amount(7, 1));
    assert_eq!(account.balances, vec![amount(7, 1)]);
    account.set_balance(&amount(9, 2));
    assert_eq!(account.balances, vec![amount(7, 1), amount(9, 2)]);
    assert_eq!(account.get_balance(2), 9);
    assert_eq!(account.get_balance(1), 7);
    assert_eq!(account.nonce, 3);
}

#[test]
fn amount_encodes_as_protobuf() {
    assert_eq!(encode_to_vec(&amount(150, 1)), vec![0x08, 0x96, 0x01, 0x10, 0x01]);
    assert_eq!(encode_to_vec(&amount(0, 0)), Vec::<u8>::new());
    assert_eq!(encode_to_vec(&amount(1, -1)).len(), 2 + 11);
}

#[test]
fn transaction_sign_and_verify() {
    let sender = IdKeyPair::generate();
    let mut tx = payment_tx(&sender);
    assert_eq!(tx.verify_signature(), Err(BaseError::InvalidSignature));
    tx.sign(&sender).unwrap();
    assert_eq!(tx.signature.len(), 64);
    assert_eq!(tx.verify_signature(), Ok(()));
    tx.counter = 2;
    assert_eq!(tx.verify_signature(), Err(BaseError::SignatureMismatch));
}

#[test]
fn third_party_fee_payer_signs_the_fee() {
    let sender = IdKeyPair::generate();
    let payer = IdKeyPair::generate();
    let mut tx = payment_tx(&sender);
    tx.fee = None;
    tx.sign(&sender).unwrap();
    tx.fee = Some(TransactionFee { amount: Some(amount(1, 0)), payer_public_key: payer.public_bytes() });
    assert_eq!(tx.validate_fee(), Err(BaseError::MissingFeeSignature));
    assert_eq!(tx.verify_fee_signature(), Err(BaseError::SenderPaidFee));
    let mut payload = Vec::new();
    tx.encode_with(&tx.signature, &tx.fee, &[], &mut payload);
    tx.fee_signature = payer.sign(&payload);
    assert!(tx.third_party_fee_payer());
    assert_eq!(tx.validate_fee(), Ok(()));
    assert_eq!(tx.verify_fee_signature(), Ok(()));
    assert_eq!(tx.verify_signature(), Ok(()));
    tx.fee.as_mut().unwrap().amount = Some(amount(2, 0));
    assert_eq!(tx.verify_fee_signature(), Err(BaseError::SignatureMismatch));
    assert_eq!(tx.verify_signature(), Ok(()));
}

#[test]
fn fee_validation_errors() {
    let sender = IdKeyPair::generate();
    let mut tx = payment_tx(&sender);
    assert_eq!(tx.validate_fee(), Ok(()));
    assert!(!tx.third_party_fee_payer());
    tx.fee_signature = vec![1];
    tx.fee.as_mut().unwrap().payer_public_key = sender.public_bytes();
    assert_eq!(tx.validate_fee(), Err(BaseError::SameSenderAndFeePayer));
    tx.fee.as_mut().unwrap().amount = None;
    assert_eq!(tx.validate_fee(), Err(BaseError::MissingFeeAmount));
    tx.fee = None;
    assert_eq!(tx.validate_fee(), Err(BaseError::MissingFeeData));
    assert_eq!(tx.verify_fee_signature(), Err(BaseError::MissingExpectedFeeData));
}

#[test]
fn transaction_id_is_digest_of_encoding() {
    let sender = IdKeyPair::generate();
    let tx = payment_tx(&sender);
    let id = tx.get_tx_id().unwrap();
    assert_eq!(id.len(), 64);
    assert_eq!(id, sha512_digest(&encode_to_vec(&tx)));
    let mut other = tx.clone();
    other.counter += 1;
    assert_ne!(other.get_tx_id().unwrap(), id);
}

#[test]
fn transaction_addresses() {
    let mut tx = payment_tx(&IdKeyPair::generate());
    tx.sender_pub_key = (0u8..32).collect();
    assert_eq!(tx.get_sender_address(), (12u8..32).collect::<Vec<u8>>());
    tx.fee.as_mut().unwrap().payer_public_key = (100u8..132).collect();
    assert_eq!(tx.get_fee_payer_address(), (112u8..132).collect::<Vec<u8>>());
    tx.sender_pub_key = (0u8..20).collect();
    tx.fee.as_mut().unwrap().payer_public_key = (0u8..21).collect();
    assert_eq!(tx.get_fee_payer_address(), (1u8..21).collect::<Vec<u8>>());
}

#[test]
fn address_of_public_key_is_its_tail() {
    let key = base::snp::snp_core_types::PublicKey { key: (0u8..32).collect() };
    assert_eq!(Address::new(&key).data, (12u8..32).collect::<Vec<u8>>());
    let short = base::snp::snp_core_types::PublicKey { key: (0u8..14).collect() };
    assert_eq!(Address::new(&short).data, vec![12u8, 13]);
}
