use vstd::prelude::*;

verus! {

/// One movement of a fungible asset, to be carried out by the external
/// transfer capability. Operations that move funds return values of this
/// type instead of calling the capability themselves: the host performs
/// them in order, all-or-nothing, and discards the operation's staged state
/// if any of them fails.
#[derive(Clone, Copy, Debug, PartialEq, Eq, Structural)]
pub struct Transfer {
    /// The asset being moved.
    pub token: u64,
    /// The principal the amount leaves.
    pub from: u64,
    /// The principal the amount reaches.
    pub to: u64,
    /// How much is moved.
    pub amount: i128,
}

/// The total amount a sequence of transfers moves.
pub open spec fn sum_transfer_amounts(ts: Seq<Transfer>) -> int
    decreases ts.len(),
{
    if ts.len() == 0 {
        0
    } else {
        sum_transfer_amounts(ts.drop_last()) + ts.last().amount
    }
}

/// Appending a transfer adds its amount to the total.
pub proof fn lemma_sum_transfer_amounts_push(ts: Seq<Transfer>, t: Transfer)
    ensures
        sum_transfer_amounts(ts.push(t)) == sum_transfer_amounts(ts) + t.amount,
{
    assert(ts.push(t).drop_last() =~= ts);
}

} // verus!
