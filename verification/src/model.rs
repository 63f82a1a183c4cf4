//! The auction's data model: tenders, bids, winners, and the spec-level
//! functions that say what a well-formed record is, which lifecycle phase a
//! tender is in, and which bid wins.

use vstd::prelude::*;

verus! {

/// A posted procurement request with a bidding window and a reveal window.
///
/// The schedule `created_at < deadline < reveal_deadline` is checked at
/// creation and never altered afterwards; only `is_closed` ever changes,
/// exactly once, from `false` to `true`.
#[derive(Debug, PartialEq)]
pub struct Tender {
    pub id: u64,
    pub creator: String,
    pub title: String,
    pub description: String,
    pub ipfs_hash: String,
    pub deadline: u64,
    pub reveal_deadline: u64,
    pub min_bid: i128,
    pub is_closed: bool,
    pub created_at: u64,
}

impl Clone for Tender {
    fn clone(&self) -> (r: Self)
        ensures
            r == *self,
    {
        Tender {
            id: self.id,
            creator: self.creator.clone(),
            title: self.title.clone(),
            description: self.description.clone(),
            ipfs_hash: self.ipfs_hash.clone(),
            deadline: self.deadline,
            reveal_deadline: self.reveal_deadline,
            min_bid: self.min_bid,
            is_closed: self.is_closed,
            created_at: self.created_at,
        }
    }
}

/// One bidder's sealed bid on one tender.
///
/// The commitment is immutable after submission. `revealed_amount` moves from
/// `None` to `Some` exactly once, and `is_valid` becomes true only together
/// with that reveal.
#[derive(Debug, PartialEq)]
pub struct Bid {
    pub bidder: String,
    pub tender_id: u64,
    pub commit_hash: Vec<u8>,
    pub revealed_amount: Option<i128>,
    pub is_valid: bool,
    pub timestamp: u64,
}

impl Clone for Bid {
    fn clone(&self) -> (r: Self)
        ensures
            r.bidder == self.bidder,
            r.tender_id == self.tender_id,
            r.commit_hash@ == self.commit_hash@,
            r.revealed_amount == self.revealed_amount,
            r.is_valid == self.is_valid,
            r.timestamp == self.timestamp,
    {
        let commit_hash = clone_bytes(&self.commit_hash);
        Bid {
            bidder: self.bidder.clone(),
            tender_id: self.tender_id,
            commit_hash,
            revealed_amount: self.revealed_amount,
            is_valid: self.is_valid,
            timestamp: self.timestamp,
        }
    }
}

/// A byte-for-byte copy of a byte string.
fn clone_bytes(data: &Vec<u8>) -> (r: Vec<u8>)
    ensures
        r@ == data@,
{
    let mut r: Vec<u8> = Vec::new();
    let mut i: usize = 0;
    while i < data.len()
        invariant
            i <= data@.len(),
            r@ == data@.take(i as int),
        decreases data@.len() - i,
    {
        r.push(data[i]);
        i += 1;
    }
    assert(r@ =~= data@);
    r
}

/// The record of a decided tender: who won, at what amount, and when the
/// selection was made. Written at most once, at close time.
#[derive(Debug, PartialEq)]
pub struct Winner {
    pub tender_id: u64,
    pub bidder: String,
    pub amount: i128,
    pub selected_at: u64,
}

impl Clone for Winner {
    fn clone(&self) -> (r: Self)
        ensures
            r == *self,
    {
        Winner {
            tender_id: self.tender_id,
            bidder: self.bidder.clone(),
            amount: self.amount,
            selected_at: self.selected_at,
        }
    }
}

/// A tender's lifecycle phase, derived from its deadlines and closed flag.
#[derive(Clone, Copy, Debug, PartialEq, Eq, Structural)]
pub enum Phase {
    /// Before the bidding deadline: submissions are accepted.
    Open,
    /// From the bidding deadline up to the reveal deadline: reveals are accepted.
    RevealWindow,
    /// At or after the reveal deadline, not yet closed: the close transition is available.
    Closeable,
    /// Closed: terminal.
    Closed,
}

/// Which phase a tender is in at time `now`.
pub open spec fn spec_phase(tender: Tender, now: u64) -> Phase {
    if tender.is_closed {
        Phase::Closed
    } else if now < tender.deadline {
        Phase::Open
    } else if now < tender.reveal_deadline {
        Phase::RevealWindow
    } else {
        Phase::Closeable
    }
}

/// Classify a tender's lifecycle phase from its deadlines and closed flag.
pub fn phase_of(tender: &Tender, now: u64) -> (r: Phase)
    ensures
        r == spec_phase(*tender, now),
{
    if tender.is_closed {
        Phase::Closed
    } else if now < tender.deadline {
        Phase::Open
    } else if now < tender.reveal_deadline {
        Phase::RevealWindow
    } else {
        Phase::Closeable
    }
}

/// A valid tender schedule: creation strictly before the bidding deadline,
/// which is strictly before the reveal deadline.
pub open spec fn spec_schedule_ok(created_at: u64, deadline: u64, reveal_deadline: u64) -> bool {
    created_at < deadline && deadline < reveal_deadline
}

/// Whether a tender created at `now` with these deadlines would be accepted.
pub fn schedule_ok(now: u64, deadline: u64, reveal_deadline: u64) -> (r: bool)
    ensures
        r == spec_schedule_ok(now, deadline, reveal_deadline),
{
    now < deadline && deadline < reveal_deadline
}

/// A bid record that belongs under `tender`: it points back at the tender,
/// was submitted inside the bidding window, its validity flag tracks the
/// reveal, and a revealed amount meets the tender's minimum.
pub open spec fn spec_bid_wf(bid: Bid, tender: Tender) -> bool {
    &&& bid.tender_id == tender.id
    &&& bid.timestamp < tender.deadline
    &&& bid.is_valid == (bid.revealed_amount is Some)
    &&& (bid.revealed_amount matches Some(amount) ==> amount >= tender.min_bid)
}

/// No bidder appears twice: a second submission is rejected, so the bid
/// sequence doubles as the append-only bidder index.
pub open spec fn spec_bidders_unique(bids: Seq<Bid>) -> bool {
    forall|i: int, j: int| 0 <= i < j < bids.len() ==> bids[i].bidder@ != bids[j].bidder@
}

/// Whether `bidder` already has a bid in the sequence.
pub open spec fn spec_has_bid(bids: Seq<Bid>, bidder: Seq<char>) -> bool {
    exists|i: int| 0 <= i < bids.len() && bids[i].bidder@ == bidder
}

/// The index of `bidder`'s bid; meaningful when `spec_has_bid` holds and the
/// bidders are unique, which pins the index down.
pub open spec fn spec_bid_index(bids: Seq<Bid>, bidder: Seq<char>) -> int {
    choose|i: int| 0 <= i < bids.len() && bids[i].bidder@ == bidder
}

/// `bidder`'s bid record.
pub open spec fn spec_bid_of(bids: Seq<Bid>, bidder: Seq<char>) -> Bid {
    bids[spec_bid_index(bids, bidder)]
}

/// The winner of a bid sequence, as (index, amount): the bid with the
/// strictly smallest revealed amount among valid bids, the earliest
/// submission winning a tie. `None` when no bid is valid.
pub open spec fn spec_select_winner(bids: Seq<Bid>) -> Option<(int, i128)>
    decreases bids.len(),
{
    if bids.len() == 0 {
        None
    } else {
        let rest = spec_select_winner(bids.drop_last());
        let last = bids.last();
        if last.is_valid && last.revealed_amount is Some {
            let amount = last.revealed_amount.unwrap();
            match rest {
                None => Some((bids.len() - 1, amount)),
                Some((best_index, best_amount)) => if amount < best_amount {
                    Some((bids.len() - 1, amount))
                } else {
                    Some((best_index, best_amount))
                },
            }
        } else {
            rest
        }
    }
}

/// The selected winner holds the strictly smallest revealed amount among
/// valid bids, and on a tie the bid submitted earliest is the one selected;
/// nothing is selected exactly when no bid is valid.
pub proof fn lemma_select_winner_lowest(bids: Seq<Bid>)
    ensures
        match spec_select_winner(bids) {
            Some((w, amount)) => {
                &&& 0 <= w < bids.len()
                &&& bids[w].is_valid
                &&& bids[w].revealed_amount == Some(amount)
                &&& forall|j: int|
                    0 <= j < bids.len() && bids[j].is_valid && bids[j].revealed_amount is Some
                        ==> amount <= bids[j].revealed_amount.unwrap()
                &&& forall|j: int|
                    0 <= j < w && bids[j].is_valid && bids[j].revealed_amount is Some ==> amount
                        < bids[j].revealed_amount.unwrap()
            },
            None => forall|j: int|
                0 <= j < bids.len() ==> !(bids[j].is_valid && bids[j].revealed_amount is Some),
        },
    decreases bids.len(),
{
    if bids.len() > 0 {
        lemma_select_winner_lowest(bids.drop_last());
        assert(forall|j: int| 0 <= j < bids.len() - 1 ==> bids.drop_last()[j] == bids[j]);
    }
}

} // verus!
