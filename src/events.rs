//! The three event kinds that are forwarded, and their protocol-buffer
//! encoding.

use vstd::prelude::*;
use crate::wire::{
    bool_field, bytes_field, opt_bytes_field, opt_bytes_view, opt_uint_field, put_bool,
    put_bytes, put_opt_bytes, put_opt_uint, put_uint, uint_field,
};

verus! {

/// A change to one account, as of a slot.
#[derive(Clone, Debug, PartialEq, Eq)]
pub struct UpdateAccountEvent {
    pub slot: u64,
    /// The account's address; it keys the broker message.
    pub pubkey: Vec<u8>,
    pub lamports: u64,
    /// The address of the program that owns the account.
    pub owner: Vec<u8>,
    pub executable: bool,
    pub rent_epoch: u64,
    pub data: Vec<u8>,
    pub write_version: u64,
    /// The transaction that caused the change, where known.
    pub txn_signature: Option<Vec<u8>>,
}

/// How far a slot has come.
#[derive(Clone, Copy, Debug, PartialEq, Eq)]
pub enum SlotStatus {
    Processed,
    Rooted,
    Confirmed,
}

/// A slot changed status.
#[derive(Clone, Copy, Debug, PartialEq, Eq)]
pub struct SlotStatusEvent {
    pub slot: u64,
    pub parent: Option<u64>,
    pub status: SlotStatus,
}

/// A transaction included in a slot. The transaction itself and its status
/// metadata are carried as their already encoded messages; like any nested
/// message, each is written whenever present, even when empty.
#[derive(Clone, Debug, PartialEq, Eq)]
pub struct TransactionEvent {
    pub signature: Vec<u8>,
    pub is_vote: bool,
    pub transaction: Option<Vec<u8>>,
    pub transaction_status_meta: Option<Vec<u8>>,
    pub slot: u64,
    pub index: u64,
}

/// The enum number a slot status is written as.
pub open spec fn status_number(s: SlotStatus) -> u64 {
    match s {
        SlotStatus::Processed => 0,
        SlotStatus::Rooted => 1,
        SlotStatus::Confirmed => 2,
    }
}

/// Field numbers: slot 1, pubkey 2, lamports 3, owner 4, executable 5,
/// rent_epoch 6, data 7, write_version 8, txn_signature 9.
pub open spec fn account_wire(e: UpdateAccountEvent) -> Seq<u8> {
    uint_field(1, e.slot) + bytes_field(2, e.pubkey@) + uint_field(3, e.lamports)
        + bytes_field(4, e.owner@) + bool_field(5, e.executable) + uint_field(6, e.rent_epoch)
        + bytes_field(7, e.data@) + uint_field(8, e.write_version)
        + opt_bytes_field(9, opt_bytes_view(&e.txn_signature))
}

/// Field numbers: slot 1, parent 2, status 3.
pub open spec fn slot_status_wire(e: SlotStatusEvent) -> Seq<u8> {
    uint_field(1, e.slot) + opt_uint_field(2, e.parent) + uint_field(3, status_number(e.status))
}

/// Field numbers: signature 1, is_vote 2, transaction 3,
/// transaction_status_meta 4, slot 5, index 6.
pub open spec fn transaction_wire(e: TransactionEvent) -> Seq<u8> {
    bytes_field(1, e.signature@) + bool_field(2, e.is_vote) + opt_bytes_field(3, opt_bytes_view(&e.transaction))
        + opt_bytes_field(4, opt_bytes_view(&e.transaction_status_meta)) + uint_field(5, e.slot)
        + uint_field(6, e.index)
}

impl SlotStatus {
    /// The enum number this status is written as.
    pub fn number(&self) -> (r: u64)
        ensures
            r == status_number(*self),
    {
        match self {
            SlotStatus::Processed => 0,
            SlotStatus::Rooted => 1,
            SlotStatus::Confirmed => 2,
        }
    }
}

impl UpdateAccountEvent {
    /// The event as a protocol-buffer message.
    pub fn encode_to_vec(&self) -> (r: Vec<u8>)
        ensures
            r@ == account_wire(*self),
    {
        let mut buf: Vec<u8> = Vec::new();
        put_uint(1, self.slot, &mut buf);
        put_bytes(2, self.pubkey.as_slice(), &mut buf);
        put_uint(3, self.lamports, &mut buf);
        put_bytes(4, self.owner.as_slice(), &mut buf);
        put_bool(5, self.executable, &mut buf);
        put_uint(6, self.rent_epoch, &mut buf);
        put_bytes(7, self.data.as_slice(), &mut buf);
        put_uint(8, self.write_version, &mut buf);
        put_opt_bytes(9, &self.txn_signature, &mut buf);
        assert(buf@ =~= account_wire(*self));
        buf
    }
}

impl SlotStatusEvent {
    /// The event as a protocol-buffer message.
    pub fn encode_to_vec(&self) -> (r: Vec<u8>)
        ensures
            r@ == slot_status_wire(*self),
    {
        let mut buf: Vec<u8> = Vec::new();
        put_uint(1, self.slot, &mut buf);
        put_opt_uint(2, self.parent, &mut buf);
        put_uint(3, self.status.number(), &mut buf);
        assert(buf@ =~= slot_status_wire(*self));
        buf
    }
}

impl TransactionEvent {
    /// The event as a protocol-buffer message.
    pub fn encode_to_vec(&self) -> (r: Vec<u8>)
        ensures
            r@ == transaction_wire(*self),
    {
        let mut buf: Vec<u8> = Vec::new();
        put_bytes(1, self.signature.as_slice(), &mut buf);
        put_bool(2, self.is_vote, &mut buf);
        put_opt_bytes(3, &self.transaction, &mut buf);
        put_opt_bytes(4, &self.transaction_status_meta, &mut buf);
        put_uint(5, self.slot, &mut buf);
        put_uint(6, self.index, &mut buf);
        assert(buf@ =~= transaction_wire(*self));
        buf
    }
}

/// Two account updates that hold the same values.
pub open spec fn same_account(a: UpdateAccountEvent, b: UpdateAccountEvent) -> bool {
    &&& a.slot == b.slot
    &&& a.pubkey@ == b.pubkey@
    &&& a.lamports == b.lamports
    &&& a.owner@ == b.owner@
    &&& a.executable == b.executable
    &&& a.rent_epoch == b.rent_epoch
    &&& a.data@ == b.data@
    &&& a.write_version == b.write_version
    &&& opt_bytes_view(&a.txn_signature) == opt_bytes_view(&b.txn_signature)
}

/// Two transactions that hold the same values.
pub open spec fn same_transaction(a: TransactionEvent, b: TransactionEvent) -> bool {
    &&& a.signature@ == b.signature@
    &&& a.is_vote == b.is_vote
    &&& opt_bytes_view(&a.transaction) == opt_bytes_view(&b.transaction)
    &&& opt_bytes_view(&a.transaction_status_meta) == opt_bytes_view(&b.transaction_status_meta)
    &&& a.slot == b.slot
    &&& a.index == b.index
}

/// Encoding is deterministic: events that hold the same values are encoded
/// to the same bytes.
pub proof fn lemma_encoding_deterministic(
    a1: UpdateAccountEvent,
    a2: UpdateAccountEvent,
    s1: SlotStatusEvent,
    s2: SlotStatusEvent,
    t1: TransactionEvent,
    t2: TransactionEvent,
)
    ensures
        same_account(a1, a2) ==> account_wire(a1) == account_wire(a2),
        s1 == s2 ==> slot_status_wire(s1) == slot_status_wire(s2),
        same_transaction(t1, t2) ==> transaction_wire(t1) == transaction_wire(t2),
{
}

} // verus!
