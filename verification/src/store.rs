//! The order record store.
//!
//! Each record holds the owner's identity, exactly four 32-byte ciphertext
//! shards encoding price, volume, side and minimum fill, and an activity
//! flag.  A record's shards are never mutated after creation: an order is
//! replace-only, never edited in place, so ciphertext reuse patterns leak
//! nothing.  The only mutation a record ever sees is deactivation.

use vstd::prelude::*;
use crate::errors::ErrorCode;

verus! {

/// One persistent encrypted order record.
#[derive(Clone, Copy, Debug)]
pub struct DarkOrder {
    /// Identity of the submitting party; immutable.
    pub owner: [u8; 32],
    /// The four ciphertext shards, encoding in order: price, volume, side,
    /// minimum execution quantity.  Immutable after creation.
    pub encrypted_data: [[u8; 32]; 4],
    /// True from creation until the record is deactivated.
    pub is_active: bool,
}

/// `o` with its activity flag cleared and everything else unchanged.
pub open spec fn deactivated(o: DarkOrder) -> DarkOrder {
    DarkOrder { is_active: false, ..o }
}

/// `post` extends `pre` by exactly one active record holding `owner` and
/// `shards`.
pub open spec fn order_placed(
    pre: Seq<DarkOrder>,
    post: Seq<DarkOrder>,
    owner: [u8; 32],
    shards: Seq<[u8; 32]>,
) -> bool {
    &&& post.len() == pre.len() + 1
    &&& post.subrange(0, pre.len() as int) == pre
    &&& post.last().owner == owner
    &&& post.last().encrypted_data@ == shards
    &&& post.last().is_active
}

/// The store owns every order record; records are appended, read and
/// deactivated, never removed, so a record's index is a stable reference.
pub struct OrderStore {
    pub orders: Vec<DarkOrder>,
}

impl OrderStore {
    /// An empty store.
    pub fn new() -> (s: OrderStore)
        ensures
            s.orders@.len() == 0,
    {
        OrderStore { orders: Vec::new() }
    }

    /// Creates a new active order record and returns its reference.
    ///
    /// Rejects a bundle that is not exactly four shards before persisting
    /// anything; no plaintext validation is possible here, validity of the
    /// encrypted values is entirely the matching circuit's concern.
    pub fn place_order(&mut self, owner: [u8; 32], shards: &Vec<[u8; 32]>) -> (r: Result<
        usize,
        ErrorCode,
    >)
        ensures
            shards@.len() == 4 ==> r == Ok::<usize, ErrorCode>(old(self).orders@.len() as usize)
                && order_placed(old(self).orders@, final(self).orders@, owner, shards@),
            shards@.len() != 4 ==> r == Err::<usize, ErrorCode>(ErrorCode::InvalidShardCount)
                && final(self).orders@ == old(self).orders@,
    {
        if shards.len() != 4 {
            return Err(ErrorCode::InvalidShardCount);
        }
        let encrypted_data: [[u8; 32]; 4] = [shards[0], shards[1], shards[2], shards[3]];
        proof {
            assert(encrypted_data@ =~= shards@);
        }
        let ix = self.orders.len();
        self.orders.push(DarkOrder { owner, encrypted_data, is_active: true });
        proof {
            assert(self.orders@.subrange(0, old(self).orders@.len() as int) =~= old(self).orders@);
        }
        Ok(ix)
    }

    /// Looks an order up by its reference; `None` is not-found.
    pub fn get_order(&self, order_ref: usize) -> (r: Option<&DarkOrder>)
        ensures
            match r {
                Some(o) => order_ref < self.orders@.len() && *o == self.orders@[order_ref as int],
                None => order_ref >= self.orders@.len(),
            },
    {
        if order_ref < self.orders.len() {
            Some(&self.orders[order_ref])
        } else {
            None
        }
    }

    /// Whether `order_ref` names a record that is still active.
    pub fn is_active(&self, order_ref: usize) -> (r: bool)
        ensures
            r == (order_ref < self.orders@.len() && self.orders@[order_ref as int].is_active),
    {
        order_ref < self.orders.len() && self.orders[order_ref].is_active
    }

    /// Clears an order's activity flag; idempotent, and touches nothing
    /// else.  Later match submissions referencing the order are rejected.
    pub fn deactivate(&mut self, order_ref: usize)
        requires
            order_ref < old(self).orders@.len(),
        ensures
            final(self).orders@ == old(self).orders@.update(
                order_ref as int,
                deactivated(old(self).orders@[order_ref as int]),
            ),
    {
        let mut o: DarkOrder = self.orders[order_ref];
        o.is_active = false;
        self.orders[order_ref] = o;
    }
}

} // verus!
