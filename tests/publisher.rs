use kafka_publisher::error::{classify_error_code, BrokerError};
use kafka_publisher::events::{SlotStatus, SlotStatusEvent, TransactionEvent, UpdateAccountEvent};
use kafka_publisher::metrics::{EventKind, OutcomeCounts, UploadMetrics};
use kafka_publisher::publisher::{enqueue_outcome, BrokerClient, Config, Publisher};
use kafka_publisher::routing::{account_topic_for_owner, resolve_account_topic};
use kafka_publisher::wire::put_uint;
use rdkafka::config::ClientConfig;

const SYSVAR_OWNER: &str = "Sysvar1111111111111111111111111111111111111";

fn account_event() -> UpdateAccountEvent {
    UpdateAccountEvent {
        slot: 1,
        pubkey: vec![1, 2],
        lamports: 0,
        owner: vec![],
        executable: true,
        rent_epoch: 0,
        data: vec![],
        write_version: 5,
        txn_signature: None,
    }
}

fn transaction_event() -> TransactionEvent {
    TransactionEvent {
        signature: vec![9],
        is_vote: false,
        transaction: None,
        transaction_status_meta: Some(vec![7, 7]),
        slot: 128,
        index: 0,
    }
}

fn client(queue_limit: &str) -> BrokerClient {
    let mut settings = ClientConfig::new();
    settings
        .set("bootstrap.servers", "127.0.0.1:9")
        .set("queue.buffering.max.messages", queue_limit)
        .set("message.timeout.ms", "60000");
    match BrokerClient::create(&settings) {
        Ok(c) => c,
        Err(e) => panic!("producer could not be built: {:?}", e),
    }
}

fn config(account: &str, slot: &str, transaction: &str, separate: bool) -> Config {
    Config {
        shutdown_timeout_ms: 100,
        update_account_topic: account.to_string(),
        slot_status_topic: slot.to_string(),
        transaction_topic: transaction.to_string(),
        publish_separate_program: separate,
    }
}

#[test]
fn varint_of_multi_byte_value() {
    let mut buf = vec![0xff];
    put_uint(1, 300, &mut buf);
    assert_eq!(buf, vec![0xff, 0x08, 0xac, 0x02]);
    put_uint(2, 0, &mut buf);
    assert_eq!(buf, vec![0xff, 0x08, 0xac, 0x02]);
}

#[test]
fn slot_status_encoding() {
    let ev = SlotStatusEvent { slot: 300, parent: Some(0), status: SlotStatus::Rooted };
    assert_eq!(ev.encode_to_vec(), vec![0x08, 0xac, 0x02, 0x10, 0x00, 0x18, 0x01]);
    let ev = SlotStatusEvent { slot: 0, parent: None, status: SlotStatus::Processed };
    assert_eq!(ev.encode_to_vec(), Vec::<u8>::new());
    let ev = SlotStatusEvent { slot: 2, parent: Some(1), status: SlotStatus::Confirmed };
    assert_eq!(ev.encode_to_vec(), vec![0x08, 0x02, 0x10, 0x01, 0x18, 0x02]);
}

#[test]
fn account_encoding() {
    let ev = account_event();
    assert_eq!(ev.encode_to_vec(), vec![0x08, 1, 0x12, 2, 1, 2, 0x28, 1, 0x40, 5]);
    let mut ev = account_event();
    ev.txn_signature = Some(vec![]);
    ev.owner = vec![3];
    ev.data = vec![4, 4, 4];
    ev.rent_epoch = 200;
    assert_eq!(
        ev.encode_to_vec(),
        vec![0x08, 1, 0x12, 2, 1, 2, 0x22, 1, 3, 0x28, 1, 0x30, 0xc8, 0x01, 0x3a, 3, 4, 4, 4, 0x40, 5, 0x4a, 0]
    );
}

#[test]
fn transaction_encoding() {
    let ev = transaction_event();
    assert_eq!(ev.encode_to_vec(), vec![0x0a, 1, 9, 0x22, 2, 7, 7, 0x28, 0x80, 0x01]);
}

#[test]
fn empty_nested_message_is_written() {
    let mut ev = transaction_event();
    ev.transaction = Some(vec![]);
    ev.transaction_status_meta = None;
    assert_eq!(ev.encode_to_vec(), vec![0x0a, 1, 9, 0x1a, 0, 0x28, 0x80, 0x01]);
}

#[test]
fn base58_of_leading_zero_bytes() {
    assert_eq!(account_topic_for_owner("t", false, &[0, 0, 1]), "t-112");
    assert_eq!(account_topic_for_owner("t", false, &[0]), "t-1");
    assert_eq!(account_topic_for_owner("t", false, &[]), "t-");
    assert_eq!(account_topic_for_owner("t", false, &[58]), "t-21");
}

#[test]
fn client_answers_become_results() {
    assert_eq!(enqueue_outcome(Ok(())), Ok(()));
    assert_eq!(enqueue_outcome(Err(Some(-184))), Err(BrokerError::QueueFull));
    assert_eq!(enqueue_outcome(Err(Some(10))), Err(BrokerError::PayloadTooLarge));
    assert_eq!(enqueue_outcome(Err(Some(-187))), Err(BrokerError::Unavailable));
    assert_eq!(enqueue_outcome(Err(None)), Err(BrokerError::Other(None)));
    assert_eq!(enqueue_outcome(Err(Some(3))), Err(BrokerError::Other(Some(3))));
}

#[test]
fn encoding_is_deterministic() {
    let a = account_event();
    assert_eq!(a.encode_to_vec(), a.clone().encode_to_vec());
    let t = transaction_event();
    assert_eq!(t.encode_to_vec(), t.encode_to_vec());
    let s = SlotStatusEvent { slot: 77, parent: Some(76), status: SlotStatus::Confirmed };
    assert_eq!(s.encode_to_vec(), s.encode_to_vec());
}

#[test]
fn account_topic_gets_owner_suffix() {
    let owner = bs58::decode(SYSVAR_OWNER).into_vec().unwrap();
    let topic = account_topic_for_owner("accounts", false, &owner);
    assert_eq!(topic, format!("accounts-{}", SYSVAR_OWNER));
}

#[test]
fn account_topic_shared_when_flag_set() {
    let owner = bs58::decode(SYSVAR_OWNER).into_vec().unwrap();
    assert_eq!(account_topic_for_owner("accounts", true, &owner), "accounts");
}

#[test]
fn resolve_account_topic_values() {
    assert_eq!(resolve_account_topic("acc", false, "Xyz"), "acc-Xyz");
    assert_eq!(resolve_account_topic("acc", true, "Xyz"), "acc");
    assert_eq!(resolve_account_topic("", false, ""), "-");
}

#[test]
fn error_codes_are_classified() {
    assert_eq!(classify_error_code(Some(-184)), BrokerError::QueueFull);
    assert_eq!(classify_error_code(Some(10)), BrokerError::PayloadTooLarge);
    assert_eq!(classify_error_code(Some(8)), BrokerError::Unavailable);
    assert_eq!(classify_error_code(Some(-195)), BrokerError::Unavailable);
    assert_eq!(classify_error_code(Some(-193)), BrokerError::Unavailable);
    assert_eq!(classify_error_code(Some(-187)), BrokerError::Unavailable);
    assert_eq!(classify_error_code(Some(1)), BrokerError::Other(Some(1)));
    assert_eq!(classify_error_code(None), BrokerError::Other(None));
}

#[test]
fn settle_counts_each_outcome_once() {
    let mut m = UploadMetrics::new();
    assert_eq!(m.settle(EventKind::Account, Ok(())), Ok(()));
    assert_eq!(m.accounts, OutcomeCounts { success: 1, failed: 0 });
    assert_eq!(m.slots, OutcomeCounts { success: 0, failed: 0 });
    let r = m.settle(EventKind::Transaction, Err(BrokerError::QueueFull));
    assert_eq!(r, Err(BrokerError::QueueFull));
    assert_eq!(m.transactions, OutcomeCounts { success: 0, failed: 1 });
    assert_eq!(m.accounts, OutcomeCounts { success: 1, failed: 0 });
    m.record(EventKind::SlotStatus, true);
    assert_eq!(m.counts(EventKind::SlotStatus), OutcomeCounts { success: 1, failed: 0 });
}

#[test]
fn counter_stays_at_maximum() {
    let mut c = OutcomeCounts { success: u64::MAX, failed: 3 };
    c.count(true);
    assert_eq!(c, OutcomeCounts { success: u64::MAX, failed: 3 });
    c.count(false);
    assert_eq!(c, OutcomeCounts { success: u64::MAX, failed: 4 });
}

#[test]
fn empty_slot_topic_is_not_wanted() {
    let p = Publisher::new(client("100"), &config("accounts", "", "transactions", false));
    assert!(!p.wants_slot_status());
    assert!(p.wants_update_account());
    assert!(p.wants_transaction());
    let p = Publisher::new(client("100"), &config("", "slots", "", true));
    assert!(!p.wants_update_account());
    assert!(p.wants_slot_status());
    assert!(!p.wants_transaction());
}

#[test]
fn publish_counts_successful_enqueues() {
    let mut p = Publisher::new(client("100"), &config("accounts", "slots", "transactions", false));
    assert_eq!(p.update_account(account_event()), Ok(()));
    let ev = SlotStatusEvent { slot: 5, parent: None, status: SlotStatus::Processed };
    assert_eq!(p.update_slot_status(ev), Ok(()));
    let m = p.upload_metrics();
    assert_eq!(m.accounts, OutcomeCounts { success: 1, failed: 0 });
    assert_eq!(m.slots, OutcomeCounts { success: 1, failed: 0 });
    assert_eq!(m.transactions, OutcomeCounts { success: 0, failed: 0 });
    let report = p.shutdown();
    assert_eq!(report.metrics, m);
}

#[test]
fn queue_full_transaction_is_counted_as_failed() {
    let mut p = Publisher::new(client("1"), &config("accounts", "slots", "transactions", true));
    assert_eq!(p.update_transaction(transaction_event()), Ok(()));
    assert_eq!(p.update_transaction(transaction_event()), Err(BrokerError::QueueFull));
    let m = p.upload_metrics();
    assert_eq!(m.transactions, OutcomeCounts { success: 1, failed: 1 });
    assert_eq!(m.accounts, OutcomeCounts { success: 0, failed: 0 });
    let report = p.shutdown();
    assert_eq!(report.metrics.transactions, OutcomeCounts { success: 1, failed: 1 });
}

