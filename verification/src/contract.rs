//! The auction state machine: tender registry, bid ledger, reveal processing,
//! winner selection and the authorized close transition.
//!
//! Every public operation is a single transition on [`OpenTenderContract`]:
//! it either applies its full effect or returns an error and leaves the state
//! exactly as it was. The contracts below say, for every input, which outcome
//! occurs and what the new state is.

use vstd::prelude::*;
use crate::errors::TenderError;
use crate::encryption::spec_commitment;
use crate::encryption::make_commitment;
use crate::model::{
    schedule_ok, spec_bid_index, spec_bid_of, spec_bid_wf, spec_bidders_unique, spec_has_bid,
    spec_phase, spec_schedule_ok, spec_select_winner, Bid, Phase, Tender, Winner,
};

verus! {

/// One tender together with everything it owns: its bid ledger (whose order
/// is the submission order, so it doubles as the bidder index) and, once the
/// tender is closed, the winner record.
struct TenderRecord {
    tender: Tender,
    bids: Vec<Bid>,
    winner: Option<Winner>,
}

/// The whole auction state: the admin fixed at initialization, and every
/// tender ever created, at position `id - 1`.
pub struct OpenTenderContract {
    admin: Option<String>,
    tenders: Vec<TenderRecord>,
}

impl OpenTenderContract {
    /// The admin identity, if initialization has happened.
    pub closed spec fn spec_admin(self) -> Option<Seq<char>> {
        match self.admin {
            Some(a) => Some(a@),
            None => None,
        }
    }

    /// How many tenders have been created.
    pub closed spec fn tender_count(self) -> nat {
        self.tenders@.len()
    }

    /// Whether a tender with this id exists. Ids are handed out from 1 up.
    pub closed spec fn spec_has_tender(self, id: u64) -> bool {
        1 <= id <= self.tenders@.len()
    }

    /// The tender with this id.
    pub closed spec fn spec_tender(self, id: u64) -> Tender {
        self.tenders@[id - 1].tender
    }

    /// The bid ledger of this tender, in submission order.
    pub closed spec fn spec_bids(self, id: u64) -> Seq<Bid> {
        self.tenders@[id - 1].bids@
    }

    /// The winner record of this tender, if it is closed and had a valid bid.
    pub closed spec fn spec_winner(self, id: u64) -> Option<Winner> {
        self.tenders@[id - 1].winner
    }

    /// Well-formedness of the whole state: each tender sits at its id's slot
    /// with a valid schedule, its bidders are unique, each of its bids is
    /// well-formed under it, and a winner record exists only on a closed
    /// tender and points back at it.
    pub closed spec fn inv(self) -> bool {
        forall|k: int|
            0 <= k < self.tenders@.len() ==> {
                let rec = #[trigger] self.tenders@[k];
                &&& rec.tender.id == k + 1
                &&& spec_schedule_ok(
                    rec.tender.created_at,
                    rec.tender.deadline,
                    rec.tender.reveal_deadline,
                )
                &&& spec_bidders_unique(rec.bids@)
                &&& (forall|b: int|
                    0 <= b < rec.bids@.len() ==> spec_bid_wf(#[trigger] rec.bids@[b], rec.tender))
                &&& (rec.winner matches Some(w) ==> rec.tender.is_closed && w.tender_id == rec.tender.id)
            }
    }

    /// Both states hold exactly the same tenders, bids and winners; only the
    /// admin may differ.
    pub open spec fn same_auction_data(self, other: Self) -> bool {
        &&& self.tender_count() == other.tender_count()
        &&& forall|id: u64|
            #![auto]
            self.spec_has_tender(id) ==> {
                &&& self.spec_tender(id) == other.spec_tender(id)
                &&& self.spec_bids(id) == other.spec_bids(id)
                &&& self.spec_winner(id) == other.spec_winner(id)
            }
    }

    /// A fresh auction state: no admin, no tenders.
    pub fn new() -> (s: Self)
        ensures
            s.inv(),
            s.spec_admin() is None,
            s.tender_count() == 0,
    {
        OpenTenderContract { admin: None, tenders: Vec::new() }
    }

    /// Fix the admin identity, once. A second initialization is refused and
    /// changes nothing.
    pub fn initialize(&mut self, admin: String) -> (r: Result<(), TenderError>)
        requires
            old(self).inv(),
        ensures
            final(self).inv(),
            old(self).spec_admin() is Some ==> r == Err::<(), TenderError>(
                TenderError::AlreadyInitialized,
            ) && *final(self) == *old(self),
            old(self).spec_admin() is None ==> r is Ok && final(self).spec_admin() == Some(admin@)
                && final(self).same_auction_data(*old(self)) && old(self).same_auction_data(
                *final(self),
            ),
    {
        if self.admin.is_some() {
            return Err(TenderError::AlreadyInitialized);
        }
        self.admin = Some(admin);
        Ok(())
    }

    /// Create a tender. Succeeds exactly when `now < deadline <
    /// reveal_deadline`; any other schedule is refused as `InvalidSchedule`
    /// and nothing is persisted. The new tender gets the next id (the first
    /// is 1), starts open, records `now` as its creation time, and owns an
    /// empty bid ledger.
    pub fn create_tender(
        &mut self,
        creator: String,
        title: String,
        description: String,
        ipfs_hash: String,
        deadline: u64,
        reveal_deadline: u64,
        min_bid: i128,
        now: u64,
    ) -> (r: Result<u64, TenderError>)
        requires
            old(self).inv(),
            old(self).tender_count() < u64::MAX,
        ensures
            final(self).inv(),
            !spec_schedule_ok(now, deadline, reveal_deadline) ==> r == Err::<u64, TenderError>(
                TenderError::InvalidSchedule,
            ) && *final(self) == *old(self),
            spec_schedule_ok(now, deadline, reveal_deadline) ==> {
                let id = (old(self).tender_count() + 1) as u64;
                &&& r == Ok::<u64, TenderError>(id)
                &&& final(self).tender_count() == old(self).tender_count() + 1
                &&& final(self).spec_admin() == old(self).spec_admin()
                &&& final(self).spec_has_tender(id)
                &&& final(self).spec_tender(id) == (Tender {
                    id,
                    creator,
                    title,
                    description,
                    ipfs_hash,
                    deadline,
                    reveal_deadline,
                    min_bid,
                    is_closed: false,
                    created_at: now,
                })
                &&& final(self).spec_bids(id) == Seq::<Bid>::empty()
                &&& final(self).spec_winner(id) is None
                &&& forall|t: u64|
                    #![auto]
                    old(self).spec_has_tender(t) ==> final(self).spec_tender(t) == old(self).spec_tender(t) && final(self).spec_bids(t) == old(self).spec_bids(t)
                        && final(self).spec_winner(t) == old(self).spec_winner(t)
            },
    {
        if !schedule_ok(now, deadline, reveal_deadline) {
            return Err(TenderError::InvalidSchedule);
        }
        let id = (self.tenders.len() as u64) + 1;
        let tender = Tender {
            id,
            creator,
            title,
            description,
            ipfs_hash,
            deadline,
            reveal_deadline,
            min_bid,
            is_closed: false,
            created_at: now,
        };
        let record = TenderRecord { tender, bids: Vec::new(), winner: None };
        self.tenders.push(record);
        Ok(id)
    }

    /// How many tenders exist; also the id that was handed out last.
    pub fn get_tender_count(&self) -> (r: u64)
        ensures
            r == self.tender_count(),
    {
        self.tenders.len() as u64
    }

    /// The slot of a tender id, when the tender exists.
    fn slot_of(&self, tender_id: u64) -> (r: Option<usize>)
        ensures
            match r {
                Some(i) => self.spec_has_tender(tender_id) && i == tender_id - 1 && i
                    < self.tender_count(),
                None => !self.spec_has_tender(tender_id),
            },
    {
        let count = self.tenders.len();
        if tender_id >= 1 && tender_id <= count as u64 {
            Some((tender_id - 1) as usize)
        } else {
            None
        }
    }

    /// Look a tender up by id.
    pub fn get_tender(&self, tender_id: u64) -> (r: Result<Tender, TenderError>)
        ensures
            self.spec_has_tender(tender_id) ==> r == Ok::<Tender, TenderError>(
                self.spec_tender(tender_id),
            ),
            !self.spec_has_tender(tender_id) ==> r == Err::<Tender, TenderError>(
                TenderError::NotFound,
            ),
    {
        match self.slot_of(tender_id) {
            Some(i) => Ok(self.tenders[i].tender.clone()),
            None => Err(TenderError::NotFound),
        }
    }

    /// The ids of all tenders, in creation order: 1 up to the count.
    pub fn get_all_tenders(&self) -> (r: Vec<u64>)
        ensures
            r@.len() == self.tender_count(),
            forall|k: int| 0 <= k < r@.len() ==> r@[k] == k + 1,
    {
        let count = self.tenders.len();
        let mut ids: Vec<u64> = Vec::new();
        let mut i: usize = 0;
        while i < count
            invariant
                i <= count,
                count == self.tender_count(),
                ids@.len() == i,
                forall|k: int| 0 <= k < i ==> ids@[k] == k + 1,
            decreases count - i,
        {
            ids.push((i as u64) + 1);
            i += 1;
        }
        ids
    }

    /// What a submission at time `now` returns: the first failing rule, in
    /// the order existence, closedness, bidding deadline (an exclusive upper
    /// bound: equality already closes the window), then one-bid-per-bidder.
    pub open spec fn spec_submit_result(
        self,
        tender_id: u64,
        bidder: Seq<char>,
        now: u64,
    ) -> Result<(), TenderError> {
        if !self.spec_has_tender(tender_id) {
            Err(TenderError::NotFound)
        } else if self.spec_tender(tender_id).is_closed {
            Err(TenderError::Closed)
        } else if now >= self.spec_tender(tender_id).deadline {
            Err(TenderError::DeadlineExceeded)
        } else if spec_has_bid(self.spec_bids(tender_id), bidder) {
            Err(TenderError::DuplicateBid)
        } else {
            Ok(())
        }
    }

    /// The index of `bidder`'s bid in this ledger, if there is one.
    fn find_bid(bids: &Vec<Bid>, bidder: &String) -> (r: Option<usize>)
        ensures
            match r {
                Some(i) => i < bids@.len() && bids@[i as int].bidder@ == bidder@,
                None => !spec_has_bid(bids@, bidder@),
            },
    {
        let mut i: usize = 0;
        while i < bids.len()
            invariant
                i <= bids@.len(),
                forall|j: int| 0 <= j < i ==> bids@[j].bidder@ != bidder@,
            decreases bids@.len() - i,
        {
            if bids[i].bidder == *bidder {
                return Some(i);
            }
            i += 1;
        }
        None
    }

    /// Submit a sealed bid. Succeeds exactly when the tender exists, is not
    /// closed, the bidding deadline has not been reached, and the bidder has
    /// no bid on the tender yet; the first rule that fails names the error,
    /// and a rejected call changes nothing. On success the bid is appended to the
    /// tender's ledger, unrevealed and not yet valid, stamped with `now`,
    /// and nothing else changes.
    pub fn submit_bid(
        &mut self,
        tender_id: u64,
        bidder: String,
        commitment: Vec<u8>,
        now: u64,
    ) -> (r: Result<(), TenderError>)
        requires
            old(self).inv(),
        ensures
            final(self).inv(),
            r == old(self).spec_submit_result(tender_id, bidder@, now),
            r is Err ==> *final(self) == *old(self),
            r is Ok ==> {
                &&& final(self).tender_count() == old(self).tender_count()
                &&& final(self).spec_admin() == old(self).spec_admin()
                &&& final(self).spec_tender(tender_id) == old(self).spec_tender(tender_id)
                &&& final(self).spec_bids(tender_id) == old(self).spec_bids(tender_id).push(
                    Bid {
                        bidder,
                        tender_id,
                        commit_hash: commitment,
                        revealed_amount: None,
                        is_valid: false,
                        timestamp: now,
                    },
                )
                &&& final(self).spec_winner(tender_id) == old(self).spec_winner(tender_id)
                &&& forall|t: u64|
                    #![auto]
                    old(self).spec_has_tender(t) && t != tender_id ==> final(self).spec_tender(t)
                        == old(self).spec_tender(t) && final(self).spec_bids(t) == old(self).spec_bids(t) && final(self).spec_winner(t) == old(self).spec_winner(t)
            },
            forall|t: u64|
                #![auto]
                old(self).spec_has_tender(t) && old(self).spec_tender(t).is_closed ==> final(self).spec_has_tender(t) && final(self).spec_tender(t).is_closed,
    {
        let i = match self.slot_of(tender_id) {
            Some(i) => i,
            None => {
                return Err(TenderError::NotFound);
            },
        };
        if self.tenders[i].tender.is_closed {
            return Err(TenderError::Closed);
        }
        if now >= self.tenders[i].tender.deadline {
            return Err(TenderError::DeadlineExceeded);
        }
        if Self::find_bid(&self.tenders[i].bids, &bidder).is_some() {
            return Err(TenderError::DuplicateBid);
        }
        let ghost old_tenders = self.tenders@;
        let mut record = self.tenders.remove(i);
        let bid = Bid {
            bidder,
            tender_id,
            commit_hash: commitment,
            revealed_amount: None,
            is_valid: false,
            timestamp: now,
        };
        record.bids.push(bid);
        self.tenders.insert(i, record);
        proof {
            assert(self.tenders@ =~= old_tenders.update(
                i as int,
                TenderRecord {
                    bids: self.tenders@[i as int].bids,
                    ..old_tenders[i as int]
                },
            ));
        }
        Ok(())
    }

    /// What a reveal at time `now` returns: the first failing rule, in the
    /// order existence (of tender and bid), reveal window (from the bidding
    /// deadline up to, excluding, the reveal deadline), write-once, proof
    /// against the stored commitment (checked before the minimum so hidden
    /// amounts cannot probe it), then the tender's minimum bid.
    pub open spec fn spec_reveal_result(
        self,
        tender_id: u64,
        bidder: Seq<char>,
        amount: i128,
        secret: Seq<char>,
        now: u64,
    ) -> Result<(), TenderError> {
        if !self.spec_has_tender(tender_id) || !spec_has_bid(self.spec_bids(tender_id), bidder) {
            Err(TenderError::NotFound)
        } else if now < self.spec_tender(tender_id).deadline {
            Err(TenderError::TooEarly)
        } else if now >= self.spec_tender(tender_id).reveal_deadline {
            Err(TenderError::TooLate)
        } else if spec_bid_of(self.spec_bids(tender_id), bidder).revealed_amount is Some {
            Err(TenderError::AlreadyRevealed)
        } else if spec_commitment(amount, secret) != spec_bid_of(
            self.spec_bids(tender_id),
            bidder,
        ).commit_hash@ {
            Err(TenderError::ProofMismatch)
        } else if amount < self.spec_tender(tender_id).min_bid {
            Err(TenderError::BelowMinimum)
        } else {
            Ok(())
        }
    }

    /// Disclose a bid's amount, with the secret it was bound to as proof.
    /// Succeeds exactly when tender and bid exist, `now` lies in the reveal
    /// window, the bid is still unrevealed, the recomputed commitment equals
    /// the stored one, and the amount meets the minimum; the first rule that fails
    /// names the error, and a rejected call changes nothing. On success the
    /// bid's amount is recorded and it becomes valid; no other field of any
    /// record changes.
    pub fn reveal_bid(
        &mut self,
        tender_id: u64,
        bidder: String,
        actual_amount: i128,
        decryption_key: String,
        now: u64,
    ) -> (r: Result<(), TenderError>)
        requires
            old(self).inv(),
        ensures
            final(self).inv(),
            r == old(self).spec_reveal_result(tender_id, bidder@, actual_amount, decryption_key@, now),
            r is Err ==> *final(self) == *old(self),
            r is Ok ==> {
                let bids = old(self).spec_bids(tender_id);
                let idx = spec_bid_index(bids, bidder@);
                &&& final(self).tender_count() == old(self).tender_count()
                &&& final(self).spec_admin() == old(self).spec_admin()
                &&& final(self).spec_tender(tender_id) == old(self).spec_tender(tender_id)
                &&& final(self).spec_bids(tender_id) == bids.update(
                    idx,
                    (Bid {
                        revealed_amount: Some(actual_amount),
                        is_valid: true,
                        ..bids[idx]
                    }),
                )
                &&& final(self).spec_winner(tender_id) == old(self).spec_winner(tender_id)
                &&& forall|t: u64|
                    #![auto]
                    old(self).spec_has_tender(t) && t != tender_id ==> final(self).spec_tender(t)
                        == old(self).spec_tender(t) && final(self).spec_bids(t) == old(self).spec_bids(t)
                        && final(self).spec_winner(t) == old(self).spec_winner(t)
            },
            forall|t: u64|
                #![auto]
                old(self).spec_has_tender(t) && old(self).spec_tender(t).is_closed ==> final(self).spec_has_tender(t)
                    && final(self).spec_tender(t).is_closed,
    {
        let i = match self.slot_of(tender_id) {
            Some(i) => i,
            None => {
                return Err(TenderError::NotFound);
            },
        };
        let j = match Self::find_bid(&self.tenders[i].bids, &bidder) {
            Some(j) => j,
            None => {
                return Err(TenderError::NotFound);
            },
        };
        let ghost old_bids = self.tenders@[i as int].bids@;
        proof {
            assert(spec_has_bid(old_bids, bidder@));
            let idx = spec_bid_index(old_bids, bidder@);
            assert(old_bids[idx].bidder@ == bidder@);
            assert(spec_bidders_unique(old_bids));
            assert(idx == j);
        }
        if now < self.tenders[i].tender.deadline {
            return Err(TenderError::TooEarly);
        }
        if now >= self.tenders[i].tender.reveal_deadline {
            return Err(TenderError::TooLate);
        }
        if self.tenders[i].bids[j].revealed_amount.is_some() {
            return Err(TenderError::AlreadyRevealed);
        }
        let commitment = make_commitment(actual_amount, decryption_key.as_str());
        if !bytes_eq(&commitment, &self.tenders[i].bids[j].commit_hash) {
            return Err(TenderError::ProofMismatch);
        }
        if actual_amount < self.tenders[i].tender.min_bid {
            return Err(TenderError::BelowMinimum);
        }
        let ghost old_tenders = self.tenders@;
        let mut record = self.tenders.remove(i);
        let mut bid = record.bids.remove(j);
        bid.revealed_amount = Some(actual_amount);
        bid.is_valid = true;
        record.bids.insert(j, bid);
        self.tenders.insert(i, record);
        proof {
            assert(self.tenders@[i as int].bids@ =~= old_bids.update(
                j as int,
                (Bid {
                    revealed_amount: Some(actual_amount),
                    is_valid: true,
                    ..old_bids[j as int]
                }),
            ));
            assert(self.tenders@ =~= old_tenders.update(
                i as int,
                TenderRecord { bids: self.tenders@[i as int].bids, ..old_tenders[i as int] },
            ));
        }
        Ok(())
    }

    /// Pick the winner of a tender: the bid with the strictly smallest
    /// revealed amount among valid bids, the earliest submission winning a
    /// tie. `None` when the tender does not exist or no bid is valid. A pure
    /// read; the stored state is not touched. The scan is one pass over the
    /// tender's ledger, so its cost grows linearly with the number of
    /// bidders; a deployment under metered execution must bound how many
    /// bidders a tender accepts before it relies on this call.
    pub fn select_winner(&self, tender_id: u64) -> (r: Option<(String, i128)>)
        requires
            self.inv(),
        ensures
            ({
                let bids = if self.spec_has_tender(tender_id) {
                    self.spec_bids(tender_id)
                } else {
                    Seq::<Bid>::empty()
                };
                match spec_select_winner(bids) {
                    Some((w, amount)) => r matches Some((b, a)) && b == bids[w].bidder && a
                        == amount,
                    None => r is None,
                }
            }),
    {
        let i = match self.slot_of(tender_id) {
            Some(i) => i,
            None => {
                return None;
            },
        };
        let bids = &self.tenders[i].bids;
        let ghost bids_seq = bids@;
        let mut best: Option<(usize, i128)> = None;
        let mut k: usize = 0;
        while k < bids.len()
            invariant
                k <= bids_seq.len(),
                bids_seq == bids@,
                match best {
                    None => spec_select_winner(bids_seq.take(k as int)) is None,
                    Some((bi, ba)) => bi < k && spec_select_winner(bids_seq.take(k as int))
                        == Some((bi as int, ba)),
                },
            decreases bids_seq.len() - k,
        {
            proof {
                assert(bids_seq.take(k + 1).drop_last() =~= bids_seq.take(k as int));
                assert(bids_seq.take(k + 1).last() == bids_seq[k as int]);
            }
            let bid = &bids[k];
            if bid.is_valid && bid.revealed_amount.is_some() {
                let amount = bid.revealed_amount.unwrap();
                best = match best {
                    None => Some((k, amount)),
                    Some((bi, ba)) => if amount < ba {
                        Some((k, amount))
                    } else {
                        Some((bi, ba))
                    },
                };
            }
            k += 1;
        }
        proof {
            assert(bids_seq.take(bids_seq.len() as int) =~= bids_seq);
        }
        match best {
            None => None,
            Some((bi, ba)) => Some((bids[bi].bidder.clone(), ba)),
        }
    }

    /// What a close at time `now` returns: the first failing rule, in the
    /// order existence, reveal deadline reached, not yet closed, then
    /// authorization (the admin or the tender's creator).
    pub open spec fn spec_close_result(
        self,
        tender_id: u64,
        caller: Seq<char>,
        now: u64,
    ) -> Result<(), TenderError> {
        if !self.spec_has_tender(tender_id) {
            Err(TenderError::NotFound)
        } else if now < self.spec_tender(tender_id).reveal_deadline {
            Err(TenderError::TooEarly)
        } else if self.spec_tender(tender_id).is_closed {
            Err(TenderError::AlreadyClosed)
        } else if !(self.spec_admin() == Some(caller) || caller == self.spec_tender(
            tender_id,
        ).creator@) {
            Err(TenderError::Unauthorized)
        } else {
            Ok(())
        }
    }

    /// Close a tender and record its winner. Succeeds exactly when the tender
    /// exists, the reveal deadline has passed, it is not yet closed, and the
    /// caller is the admin or the creator; the first rule that fails names the
    /// error, and a rejected call changes nothing — in particular an
    /// unauthorized caller neither flips the closed flag nor writes a winner.
    /// On success the closed flag flips, the winner record is written exactly
    /// when some bid is valid, and nothing else changes. This is the tender's
    /// only terminal transition.
    pub fn close_tender(&mut self, tender_id: u64, caller: String, now: u64) -> (r: Result<
        (),
        TenderError,
    >)
        requires
            old(self).inv(),
        ensures
            final(self).inv(),
            r == old(self).spec_close_result(tender_id, caller@, now),
            r is Err ==> *final(self) == *old(self),
            r is Ok ==> {
                let bids = old(self).spec_bids(tender_id);
                &&& final(self).tender_count() == old(self).tender_count()
                &&& final(self).spec_admin() == old(self).spec_admin()
                &&& final(self).spec_tender(tender_id) == (Tender {
                    is_closed: true,
                    ..old(self).spec_tender(tender_id)
                })
                &&& final(self).spec_bids(tender_id) == bids
                &&& match spec_select_winner(bids) {
                    Some((w, amount)) => final(self).spec_winner(tender_id) == Some(
                        (Winner {
                            tender_id,
                            bidder: bids[w].bidder,
                            amount,
                            selected_at: now,
                        }),
                    ),
                    None => final(self).spec_winner(tender_id) is None,
                }
                &&& forall|t: u64|
                    #![auto]
                    old(self).spec_has_tender(t) && t != tender_id ==> final(self).spec_tender(t)
                        == old(self).spec_tender(t) && final(self).spec_bids(t) == old(self).spec_bids(t)
                        && final(self).spec_winner(t) == old(self).spec_winner(t)
            },
            forall|t: u64|
                #![auto]
                old(self).spec_has_tender(t) && old(self).spec_tender(t).is_closed ==> final(self).spec_has_tender(t)
                    && final(self).spec_tender(t).is_closed,
    {
        let i = match self.slot_of(tender_id) {
            Some(i) => i,
            None => {
                return Err(TenderError::NotFound);
            },
        };
        if now < self.tenders[i].tender.reveal_deadline {
            return Err(TenderError::TooEarly);
        }
        if self.tenders[i].tender.is_closed {
            return Err(TenderError::AlreadyClosed);
        }
        let is_admin = match &self.admin {
            Some(admin) => *admin == caller,
            None => false,
        };
        if !(is_admin || self.tenders[i].tender.creator == caller) {
            return Err(TenderError::Unauthorized);
        }

        let selection = self.select_winner(tender_id);

        let ghost old_tenders = self.tenders@;
        let mut record = self.tenders.remove(i);
        record.tender.is_closed = true;
        record.winner = match selection {
            Some((bidder, amount)) => Some(
                Winner { tender_id, bidder, amount, selected_at: now },
            ),
            None => None,
        };
        self.tenders.insert(i, record);
        proof {
            assert(self.tenders@ =~= old_tenders.update(
                i as int,
                TenderRecord {
                    tender: self.tenders@[i as int].tender,
                    winner: self.tenders@[i as int].winner,
                    ..old_tenders[i as int]
                },
            ));
        }
        Ok(())
    }

    /// A bidder's bid on a tender, if either exists.
    pub fn get_bid(&self, tender_id: u64, bidder: String) -> (r: Option<Bid>)
        requires
            self.inv(),
        ensures
            self.spec_has_tender(tender_id) && spec_has_bid(self.spec_bids(tender_id), bidder@)
                ==> ({
                let stored = spec_bid_of(self.spec_bids(tender_id), bidder@);
                r matches Some(b) && b.bidder == stored.bidder && b.tender_id == stored.tender_id
                    && b.commit_hash@ == stored.commit_hash@ && b.revealed_amount
                    == stored.revealed_amount && b.is_valid == stored.is_valid && b.timestamp
                    == stored.timestamp
            }),
            !(self.spec_has_tender(tender_id) && spec_has_bid(self.spec_bids(tender_id), bidder@))
                ==> r is None,
    {
        let i = match self.slot_of(tender_id) {
            Some(i) => i,
            None => {
                return None;
            },
        };
        match Self::find_bid(&self.tenders[i].bids, &bidder) {
            Some(j) => {
                proof {
                    let bids = self.tenders@[i as int].bids@;
                    assert(spec_has_bid(bids, bidder@));
                    let idx = spec_bid_index(bids, bidder@);
                    assert(bids[idx].bidder@ == bidder@);
                    assert(spec_bidders_unique(bids));
                    assert(idx == j);
                }
                Some(self.tenders[i].bids[j].clone())
            },
            None => None,
        }
    }

    /// The winner record of a tender, if the tender exists, is closed, and
    /// had a valid bid.
    pub fn get_winner(&self, tender_id: u64) -> (r: Option<Winner>)
        ensures
            self.spec_has_tender(tender_id) ==> r == self.spec_winner(tender_id),
            !self.spec_has_tender(tender_id) ==> r is None,
    {
        match self.slot_of(tender_id) {
            Some(i) => match &self.tenders[i].winner {
                Some(w) => Some(w.clone()),
                None => None,
            },
            None => None,
        }
    }

    /// A tender's bidder index: every bidder with a bid, in submission
    /// order. Empty when the tender does not exist.
    pub fn get_tender_bidders(&self, tender_id: u64) -> (r: Vec<String>)
        ensures
            self.spec_has_tender(tender_id) ==> {
                &&& r@.len() == self.spec_bids(tender_id).len()
                &&& forall|k: int|
                    0 <= k < r@.len() ==> r@[k] == self.spec_bids(tender_id)[k].bidder
            },
            !self.spec_has_tender(tender_id) ==> r@.len() == 0,
    {
        let mut bidders: Vec<String> = Vec::new();
        let i = match self.slot_of(tender_id) {
            Some(i) => i,
            None => {
                return bidders;
            },
        };
        let bids = &self.tenders[i].bids;
        let mut k: usize = 0;
        while k < bids.len()
            invariant
                k <= bids@.len(),
                bids@ == self.spec_bids(tender_id),
                bidders@.len() == k,
                forall|m: int| 0 <= m < k ==> bidders@[m] == bids@[m].bidder,
            decreases bids@.len() - k,
        {
            bidders.push(bids[k].bidder.clone());
            k += 1;
        }
        bidders
    }

    /// Whether a tender is closed.
    pub fn is_tender_closed(&self, tender_id: u64) -> (r: Result<bool, TenderError>)
        ensures
            self.spec_has_tender(tender_id) ==> r == Ok::<bool, TenderError>(
                self.spec_tender(tender_id).is_closed,
            ),
            !self.spec_has_tender(tender_id) ==> r == Err::<bool, TenderError>(
                TenderError::NotFound,
            ),
    {
        match self.slot_of(tender_id) {
            Some(i) => Ok(self.tenders[i].tender.is_closed),
            None => Err(TenderError::NotFound),
        }
    }

    /// The admin identity, if initialization has happened.
    pub fn get_admin(&self) -> (r: Option<String>)
        ensures
            r matches Some(a) ==> self.spec_admin() == Some(a@),
            r is None ==> self.spec_admin() is None,
    {
        match &self.admin {
            Some(a) => Some(a.clone()),
            None => None,
        }
    }

    /// Submit a sealed bid under its commitment hash: the same transition as
    /// [`Self::submit_bid`], under the name the commit-reveal flow uses.
    pub fn commit_bid(
        &mut self,
        tender_id: u64,
        bidder: String,
        commit_hash: Vec<u8>,
        now: u64,
    ) -> (r: Result<(), TenderError>)
        requires
            old(self).inv(),
        ensures
            final(self).inv(),
            r == old(self).spec_submit_result(tender_id, bidder@, now),
            r is Err ==> *final(self) == *old(self),
            r is Ok ==> {
                &&& final(self).tender_count() == old(self).tender_count()
                &&& final(self).spec_admin() == old(self).spec_admin()
                &&& final(self).spec_tender(tender_id) == old(self).spec_tender(tender_id)
                &&& final(self).spec_bids(tender_id) == old(self).spec_bids(tender_id).push(
                    Bid {
                        bidder,
                        tender_id,
                        commit_hash,
                        revealed_amount: None,
                        is_valid: false,
                        timestamp: now,
                    },
                )
                &&& final(self).spec_winner(tender_id) == old(self).spec_winner(tender_id)
                &&& forall|t: u64|
                    #![auto]
                    old(self).spec_has_tender(t) && t != tender_id ==> final(self).spec_tender(t)
                        == old(self).spec_tender(t) && final(self).spec_bids(t) == old(self).spec_bids(t)
                        && final(self).spec_winner(t) == old(self).spec_winner(t)
            },
            forall|t: u64|
                #![auto]
                old(self).spec_has_tender(t) && old(self).spec_tender(t).is_closed ==> final(self).spec_has_tender(t)
                    && final(self).spec_tender(t).is_closed,
    {
        self.submit_bid(tender_id, bidder, commit_hash, now)
    }
}

/// Once a tender is closed it is closed for good. Every mutating operation
/// keeps a closed tender closed (their last ensures clause), and on a closed
/// tender every later operation is refused: a submission as `Closed`, a close
/// as `AlreadyClosed`, and a reveal — which, the clock being monotonic, can
/// only arrive at or after the reveal deadline once the close has happened —
/// as `TooLate`, or `NotFound` where the bidder never bid.
pub proof fn lemma_closed_tender_rejects(
    s: OpenTenderContract,
    tender_id: u64,
    bidder: Seq<char>,
    caller: Seq<char>,
    amount: i128,
    secret: Seq<char>,
    now: u64,
)
    requires
        s.inv(),
        s.spec_has_tender(tender_id),
        s.spec_tender(tender_id).is_closed,
        now >= s.spec_tender(tender_id).reveal_deadline,
    ensures
        s.spec_submit_result(tender_id, bidder, now) == Err::<(), TenderError>(TenderError::Closed),
        s.spec_close_result(tender_id, caller, now) == Err::<(), TenderError>(
            TenderError::AlreadyClosed,
        ),
        s.spec_reveal_result(tender_id, bidder, amount, secret, now) is Err,
        spec_has_bid(s.spec_bids(tender_id), bidder) ==> s.spec_reveal_result(
            tender_id,
            bidder,
            amount,
            secret,
            now,
        ) == Err::<(), TenderError>(TenderError::TooLate),
{
    assert(spec_schedule_ok(
        s.spec_tender(tender_id).created_at,
        s.spec_tender(tender_id).deadline,
        s.spec_tender(tender_id).reveal_deadline,
    ));
}



/// The operations follow the lifecycle phases: a submission can succeed only
/// while the tender is `Open`, a reveal only during its `RevealWindow`, and a
/// close only from `Closeable`. (The reveal clause assumes the tender is not
/// yet closed: a closed tender still inside its reveal window cannot arise
/// under the monotonic clock, because closing waits for the reveal deadline.)
pub proof fn lemma_operations_follow_phases(
    s: OpenTenderContract,
    tender_id: u64,
    bidder: Seq<char>,
    caller: Seq<char>,
    amount: i128,
    secret: Seq<char>,
    now: u64,
)
    requires
        s.inv(),
        s.spec_has_tender(tender_id),
    ensures
        s.spec_submit_result(tender_id, bidder, now) is Ok ==> spec_phase(
            s.spec_tender(tender_id),
            now,
        ) == Phase::Open,
        !s.spec_tender(tender_id).is_closed && s.spec_reveal_result(
            tender_id,
            bidder,
            amount,
            secret,
            now,
        ) is Ok ==> spec_phase(s.spec_tender(tender_id), now) == Phase::RevealWindow,
        s.spec_close_result(tender_id, caller, now) is Ok ==> spec_phase(
            s.spec_tender(tender_id),
            now,
        ) == Phase::Closeable,
{
}

/// Whether two byte strings hold the same bytes.
fn bytes_eq(a: &Vec<u8>, b: &Vec<u8>) -> (r: bool)
    ensures
        r == (a@ == b@),
{
    if a.len() != b.len() {
        return false;
    }
    let mut i: usize = 0;
    while i < a.len()
        invariant
            a@.len() == b@.len(),
            i <= a@.len(),
            forall|j: int| 0 <= j < i ==> a@[j] == b@[j],
        decreases a@.len() - i,
    {
        if a[i] != b[i] {
            return false;
        }
        i += 1;
    }
    proof {
        assert(a@ =~= b@);
    }
    true
}

} // verus!
