//! The publisher: routes, encodes and enqueues each event, and counts the
//! outcome.

use vstd::prelude::*;
use rdkafka::error::KafkaError;
use rdkafka::config::ClientConfig;
use rdkafka::producer::{BaseRecord, DefaultProducerContext, Producer, ThreadedProducer};
use crate::error::{classify_error_code, error_of_code, BrokerError};
use crate::events::{
    account_wire, slot_status_wire, transaction_wire, SlotStatusEvent, TransactionEvent,
    UpdateAccountEvent,
};
use crate::metrics::{counts_of, recorded, EventKind, UploadMetrics};
use crate::routing::{account_topic, account_topic_for_owner, base58_text};

verus! {

#[verifier::external_type_specification]
#[verifier::external_body]
pub struct ExClientConfig(ClientConfig);

#[verifier::external_type_specification]
#[verifier::external_body]
pub struct ExKafkaError(KafkaError);

/// A threaded Kafka producer, whose own thread moves queued messages to the
/// brokers. Its state is the producer's and is not modelled here.
#[verifier::external_body]
pub struct KafkaHandle {
    producer: ThreadedProducer<DefaultProducerContext>,
}

impl KafkaHandle {
    /// Relies on rdkafka's ClientConfig::create: a threaded producer built
    /// from the settings, or the reason it could not be built.
    #[verifier::external_body]
    pub fn create(config: &ClientConfig) -> (r: Result<KafkaHandle, KafkaError>) {
        config.create().map(|producer| KafkaHandle { producer })
    }
}

/// A record as handed to the broker client.
pub struct SentRecord {
    pub topic: Seq<char>,
    pub key: Option<Seq<u8>>,
    pub payload: Seq<u8>,
}

/// One call made on the broker client, with what it answered.
pub enum ClientCall {
    /// A record was offered; `answer` is `Ok` when the client took it into
    /// its send queue, else the native code of its refusal, where it has one.
    Send { record: SentRecord, answer: Result<(), Option<i32>> },
    /// The send queue was flushed with this timeout.
    Flush { timeout_ms: u64 },
}

/// The broker client, together with the history of the calls made on it.
pub struct BrokerClient {
    handle: KafkaHandle,
    calls: Ghost<Seq<ClientCall>>,
}

impl View for BrokerClient {
    type V = Seq<ClientCall>;

    closed spec fn view(&self) -> Seq<ClientCall> {
        self.calls@
    }
}

/// The bytes an optional slice holds, if any.
pub open spec fn opt_slice_view(b: Option<&[u8]>) -> Option<Seq<u8>> {
    match b {
        Some(x) => Some(x@),
        None => None,
    }
}

impl BrokerClient {
    /// A client around this producer, with no calls made yet.
    pub fn new(handle: KafkaHandle) -> (r: BrokerClient)
        ensures
            r@ == Seq::<ClientCall>::empty(),
    {
        BrokerClient { handle, calls: Ghost(Seq::empty()) }
    }

    /// A client around a producer built from the settings.
    pub fn create(config: &ClientConfig) -> (r: Result<BrokerClient, KafkaError>)
        ensures
            r is Ok ==> r->Ok_0@ == Seq::<ClientCall>::empty(),
    {
        match KafkaHandle::create(config) {
            Ok(handle) => Ok(BrokerClient::new(handle)),
            Err(e) => Err(e),
        }
    }

    /// Relies on rdkafka's ThreadedProducer::send, which hands a record with
    /// this topic, key and payload to the client's send queue or refuses it,
    /// and on KafkaError::rdkafka_error_code for the native code of a
    /// refusal. The call and its answer join the history.
    #[verifier::external_body]
    fn send(&mut self, topic: &str, key: Option<&[u8]>, payload: &[u8]) -> (r: Result<(), Option<i32>>)
        ensures
            final(self)@ == old(self)@.push(ClientCall::Send {
                record: SentRecord { topic: topic@, key: opt_slice_view(key), payload: payload@ },
                answer: r,
            }),
    {
        let mut record: BaseRecord<'_, [u8], [u8]> = BaseRecord::to(topic);
        record.key = key;
        record.payload = Some(payload);
        match self.handle.producer.send(record) {
            Ok(()) => Ok(()),
            Err((e, _)) => Err(e.rdkafka_error_code().map(|c| c as i32)),
        }
    }

    /// Relies on rdkafka's Producer::flush: waits until the send queue is
    /// drained or the timeout has passed, whichever comes first. Whether it
    /// drained is not reported. The call joins the history.
    #[verifier::external_body]
    fn flush(&mut self, timeout_ms: u64)
        ensures
            final(self)@ == old(self)@.push(ClientCall::Flush { timeout_ms }),
    {
        let _ = self.handle.producer.flush(std::time::Duration::from_millis(timeout_ms));
    }
}

/// What a publish call returns for the client's answer: `Ok` when the
/// record was taken, else the kind of the refusal.
pub open spec fn outcome_of(answer: Result<(), Option<i32>>) -> Result<(), BrokerError> {
    match answer {
        Ok(()) => Ok(()),
        Err(code) => Err(error_of_code(code)),
    }
}

/// Turns the client's answer into a publish result.
pub fn enqueue_outcome(answer: Result<(), Option<i32>>) -> (r: Result<(), BrokerError>)
    ensures
        r == outcome_of(answer),
{
    match answer {
        Ok(()) => Ok(()),
        Err(code) => Err(classify_error_code(code)),
    }
}

/// The routing settings a publisher is built with.
pub struct Config {
    /// How long shutdown waits for the send queue to drain, in milliseconds.
    pub shutdown_timeout_ms: u64,
    /// Topic of account updates; empty: account updates are not wanted.
    pub update_account_topic: String,
    /// Topic of slot status changes; empty: not wanted.
    pub slot_status_topic: String,
    /// Topic of transactions; empty: not wanted.
    pub transaction_topic: String,
    /// When set, all account updates share the one topic; when not set,
    /// each owning program gets a topic of its own.
    pub publish_separate_program: bool,
}

/// What a publisher is, seen from outside: its settings, its counts, and
/// every call it has made on the broker client, oldest first.
pub struct PublisherView {
    pub shutdown_timeout_ms: u64,
    pub update_account_topic: Seq<char>,
    pub slot_status_topic: Seq<char>,
    pub transaction_topic: Seq<char>,
    pub publish_separate_program: bool,
    pub metrics: UploadMetrics,
    pub calls: Seq<ClientCall>,
}

/// Events of a kind are wanted iff their topic is not empty.
pub open spec fn wanted(topic: Seq<char>) -> bool {
    topic.len() > 0
}

/// Forwards events to their topics and counts the enqueue outcomes.
pub struct Publisher {
    client: BrokerClient,
    shutdown_timeout_ms: u64,
    update_account_topic: String,
    slot_status_topic: String,
    transaction_topic: String,
    publish_separate_program: bool,
    metrics: UploadMetrics,
}

impl View for Publisher {
    type V = PublisherView;

    closed spec fn view(&self) -> PublisherView {
        PublisherView {
            shutdown_timeout_ms: self.shutdown_timeout_ms,
            update_account_topic: self.update_account_topic@,
            slot_status_topic: self.slot_status_topic@,
            transaction_topic: self.transaction_topic@,
            publish_separate_program: self.publish_separate_program,
            metrics: self.metrics,
            calls: self.client@,
        }
    }
}

/// The same settings, and so the same routing.
pub open spec fn same_settings(a: PublisherView, b: PublisherView) -> bool {
    &&& a.shutdown_timeout_ms == b.shutdown_timeout_ms
    &&& a.update_account_topic == b.update_account_topic
    &&& a.slot_status_topic == b.slot_status_topic
    &&& a.transaction_topic == b.transaction_topic
    &&& a.publish_separate_program == b.publish_separate_program
}

/// What the client answered to the last call in `calls`, where that was a
/// send.
pub open spec fn last_answer(calls: Seq<ClientCall>) -> Result<(), Option<i32>> {
    match calls.last() {
        ClientCall::Send { record, answer } => answer,
        ClientCall::Flush { timeout_ms } => Ok(()),
    }
}

/// One publish call of `kind` that returned `r`: the settings stay, one
/// send of `record` joins the history, `r` follows from the client's answer
/// to it, and that answer is counted.
pub open spec fn published(
    before: PublisherView,
    after: PublisherView,
    kind: EventKind,
    record: SentRecord,
    r: Result<(), BrokerError>,
) -> bool {
    &&& same_settings(before, after)
    &&& after.calls == before.calls.push(
        ClientCall::Send { record, answer: last_answer(after.calls) },
    )
    &&& r == outcome_of(last_answer(after.calls))
    &&& after.metrics == recorded(before.metrics, kind, last_answer(after.calls) is Ok)
}

/// How a publisher ended: its final counts and the whole history of calls
/// on its broker client.
pub struct ShutdownReport {
    pub metrics: UploadMetrics,
    pub calls: Ghost<Seq<ClientCall>>,
}

/// The record an account update becomes.
pub open spec fn account_record(p: PublisherView, e: UpdateAccountEvent) -> SentRecord {
    SentRecord {
        topic: account_topic(p.update_account_topic, p.publish_separate_program, base58_text(e.owner@)),
        key: Some(e.pubkey@),
        payload: account_wire(e),
    }
}

/// The record a slot status change becomes.
pub open spec fn slot_status_record(p: PublisherView, e: SlotStatusEvent) -> SentRecord {
    SentRecord { topic: p.slot_status_topic, key: None, payload: slot_status_wire(e) }
}

/// The record a transaction becomes.
pub open spec fn transaction_record(p: PublisherView, e: TransactionEvent) -> SentRecord {
    SentRecord { topic: p.transaction_topic, key: None, payload: transaction_wire(e) }
}

impl Publisher {
    /// A publisher with these settings and no counts, around this client.
    pub fn new(client: BrokerClient, config: &Config) -> (r: Publisher)
        ensures
            r@.shutdown_timeout_ms == config.shutdown_timeout_ms,
            r@.update_account_topic == config.update_account_topic@,
            r@.slot_status_topic == config.slot_status_topic@,
            r@.transaction_topic == config.transaction_topic@,
            r@.publish_separate_program == config.publish_separate_program,
            r@.metrics == UploadMetrics::spec_zero(),
            r@.calls == client@,
    {
        Publisher {
            client,
            shutdown_timeout_ms: config.shutdown_timeout_ms,
            update_account_topic: config.update_account_topic.clone(),
            slot_status_topic: config.slot_status_topic.clone(),
            transaction_topic: config.transaction_topic.clone(),
            publish_separate_program: config.publish_separate_program,
            metrics: UploadMetrics::new(),
        }
    }

    /// Publishes an account update, keyed by the account's address, to the
    /// account topic (with the owner's suffix unless
    /// `publish_separate_program` is set). Returns the enqueue outcome.
    pub fn update_account(&mut self, ev: UpdateAccountEvent) -> (r: Result<(), BrokerError>)
        ensures
            published(old(self)@, final(self)@, EventKind::Account, account_record(old(self)@, ev), r),
    {
        let topic = account_topic_for_owner(
            self.update_account_topic.as_str(),
            self.publish_separate_program,
            ev.owner.as_slice(),
        );
        let payload = ev.encode_to_vec();
        let answer = self.client.send(topic.as_str(), Some(ev.pubkey.as_slice()), payload.as_slice());
        let outcome = enqueue_outcome(answer);
        self.metrics.settle(EventKind::Account, outcome)
    }

    /// Publishes a slot status change, without key, to the slot status
    /// topic. Returns the enqueue outcome.
    pub fn update_slot_status(&mut self, ev: SlotStatusEvent) -> (r: Result<(), BrokerError>)
        ensures
            published(old(self)@, final(self)@, EventKind::SlotStatus, slot_status_record(old(self)@, ev), r),
    {
        let payload = ev.encode_to_vec();
        let answer = self.client.send(self.slot_status_topic.as_str(), None, payload.as_slice());
        let outcome = enqueue_outcome(answer);
        self.metrics.settle(EventKind::SlotStatus, outcome)
    }

    /// Publishes a transaction, without key, to the transaction topic.
    /// Returns the enqueue outcome.
    pub fn update_transaction(&mut self, ev: TransactionEvent) -> (r: Result<(), BrokerError>)
        ensures
            published(old(self)@, final(self)@, EventKind::Transaction, transaction_record(old(self)@, ev), r),
    {
        let payload = ev.encode_to_vec();
        let answer = self.client.send(self.transaction_topic.as_str(), None, payload.as_slice());
        let outcome = enqueue_outcome(answer);
        self.metrics.settle(EventKind::Transaction, outcome)
    }

    /// Whether account updates are wanted at all.
    pub fn wants_update_account(&self) -> (r: bool)
        ensures
            r == wanted(self@.update_account_topic),
    {
        !self.update_account_topic.as_str().is_empty()
    }

    /// Whether slot status changes are wanted at all.
    pub fn wants_slot_status(&self) -> (r: bool)
        ensures
            r == wanted(self@.slot_status_topic),
    {
        !self.slot_status_topic.as_str().is_empty()
    }

    /// Whether transactions are wanted at all.
    pub fn wants_transaction(&self) -> (r: bool)
        ensures
            r == wanted(self@.transaction_topic),
    {
        !self.transaction_topic.as_str().is_empty()
    }

    /// The counts of publish calls so far.
    pub fn upload_metrics(&self) -> (r: UploadMetrics)
        ensures
            r == self@.metrics,
    {
        self.metrics
    }

    /// Ends the publisher: flushes the send queue once, waiting at most the
    /// configured timeout, and reports the final counts. Messages still
    /// queued when the timeout passes are lost; that is not reported.
    pub fn shutdown(self) -> (r: ShutdownReport)
        ensures
            r.metrics == self@.metrics,
            r.calls@ == self@.calls.push(ClientCall::Flush { timeout_ms: self@.shutdown_timeout_ms }),
    {
        let mut client = self.client;
        client.flush(self.shutdown_timeout_ms);
        ShutdownReport { metrics: self.metrics, calls: Ghost(client@) }
    }
}

/// An account update goes to the base topic, a dash and the owner's
/// address in base58 when `publish_separate_program` is not set, and to the
/// base topic itself when it is.
pub proof fn lemma_account_topic(p: PublisherView, e: UpdateAccountEvent)
    ensures
        !p.publish_separate_program ==> account_record(p, e).topic
            == p.update_account_topic + seq!['-'] + base58_text(e.owner@),
        p.publish_separate_program ==> account_record(p, e).topic == p.update_account_topic,
{
}

/// Slot status changes and transactions go to their configured topics,
/// whatever the event holds.
pub proof fn lemma_fixed_topics(p: PublisherView, s: SlotStatusEvent, t: TransactionEvent)
    ensures
        slot_status_record(p, s).topic == p.slot_status_topic,
        transaction_record(p, t).topic == p.transaction_topic,
{
}

/// A publish call whose record the client took returns `Ok` and adds
/// exactly one to its kind's success count, leaving the failed count; one
/// whose record the client refused returns the kind of the refusal (a full
/// queue as `QueueFull`) and adds exactly one to the failed count, leaving
/// the success count. The other kinds' counts stay as they were.
pub proof fn lemma_publish_outcome_counted(
    before: PublisherView,
    after: PublisherView,
    kind: EventKind,
    record: SentRecord,
    r: Result<(), BrokerError>,
)
    requires
        published(before, after, kind, record, r),
        counts_of(before.metrics, kind).success < u64::MAX,
        counts_of(before.metrics, kind).failed < u64::MAX,
    ensures
        last_answer(after.calls) is Ok ==> {
            &&& r is Ok
            &&& counts_of(after.metrics, kind).success == counts_of(before.metrics, kind).success + 1
            &&& counts_of(after.metrics, kind).failed == counts_of(before.metrics, kind).failed
        },
        last_answer(after.calls) is Err ==> {
            &&& r == Err::<(), BrokerError>(error_of_code(last_answer(after.calls)->Err_0))
            &&& counts_of(after.metrics, kind).failed == counts_of(before.metrics, kind).failed + 1
            &&& counts_of(after.metrics, kind).success == counts_of(before.metrics, kind).success
        },
        last_answer(after.calls) == Err::<(), Option<i32>>(Some(crate::error::CODE_QUEUE_FULL))
            ==> r == Err::<(), BrokerError>(BrokerError::QueueFull),
        forall|k: EventKind| k != kind ==> counts_of(after.metrics, k) == counts_of(before.metrics, k),
{
}

} // verus!
