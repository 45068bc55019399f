//! The escrow book: the ID counter and the records it has numbered.
use vstd::prelude::*;

use crate::escrow::{
    cancel_step, created_model, not_found_model, not_found_status, release_step, reported, status_of,
    Escrow, EscrowBook, EscrowError, EscrowModel, EscrowStatus,
};

verus! {

/// Records numbered 1, 2, 3, … in their order in the sequence.
pub open spec fn ids_dense(s: Seq<EscrowModel>) -> bool {
    forall|k: int| 0 <= k < s.len() ==> (#[trigger] s[k]).escrow_id == k + 1
}

/// The records after a request on the record with ID `id` that had `outcome`.
pub open spec fn stored_after(
    s: Seq<EscrowModel>,
    id: u64,
    outcome: Result<EscrowModel, EscrowError>,
) -> Seq<EscrowModel> {
    match outcome {
        Ok(next) => s.update(id - 1, next),
        Err(_) => s,
    }
}

/// The escrow book: a counter of the IDs handed out and, for each ID, its record.
pub struct DecentralizedEscrowContract {
    escrow_count: u64,
    escrows: Vec<Escrow>,
}

impl View for DecentralizedEscrowContract {
    type V = Seq<EscrowModel>;

    /// The records in the order of their IDs.
    closed spec fn view(&self) -> Seq<EscrowModel> {
        self.escrows@.map_values(|e: Escrow| e@)
    }
}

impl DecentralizedEscrowContract {
    /// The value of the ID counter.
    pub closed spec fn count(&self) -> nat {
        self.escrow_count as nat
    }

    /// The counter equals the number of records, and they are numbered from 1.
    pub open spec fn wf(&self) -> bool {
        &&& self.count() == self@.len()
        &&& ids_dense(self@)
    }

    /// The record with ID `id`, or the placeholder where there is none.
    pub open spec fn lookup(&self, id: u64) -> EscrowModel {
        if 1 <= id <= self@.len() {
            self@[id - 1]
        } else {
            not_found_model()
        }
    }

    /// `after` is `before` with a new record appended, numbered `id`.
    pub open spec fn creates(
        before: Self,
        after: Self,
        sender: Seq<char>,
        receiver: Seq<char>,
        amount: u64,
        release_condition: Seq<char>,
        id: u64,
    ) -> bool {
        &&& id == before@.len() + 1
        &&& after@ == before@.push(created_model(id, sender, receiver, amount, release_condition))
    }

    /// A release request on `id` took `before` to `after` and reported `r`.
    pub open spec fn releases(
        before: Self,
        after: Self,
        id: u64,
        condition_met: bool,
        r: Result<(), EscrowError>,
    ) -> bool {
        let outcome = release_step(before.lookup(id), condition_met);
        &&& r == reported(outcome)
        &&& after@ == stored_after(before@, id, outcome)
    }

    /// A cancel request on `id` took `before` to `after` and reported `r`.
    pub open spec fn cancels(before: Self, after: Self, id: u64, r: Result<(), EscrowError>) -> bool {
        let outcome = cancel_step(before.lookup(id));
        &&& r == reported(outcome)
        &&& after@ == stored_after(before@, id, outcome)
    }

    /// An empty book.
    pub fn new() -> (r: Self)
        ensures
            r.wf(),
            r@ == Seq::<EscrowModel>::empty(),
    {
        let r = DecentralizedEscrowContract { escrow_count: 0, escrows: Vec::new() };
        assert(r@ =~= Seq::<EscrowModel>::empty());
        r
    }

    /// How many escrows were created, which is also the last ID handed out.
    pub fn escrow_count(&self) -> (r: u64)
        requires
            self.wf(),
        ensures
            r == self@.len(),
    {
        self.escrow_count
    }

    /// Where the record under `key` is kept, if the book holds it.
    fn slot(&self, key: &EscrowBook) -> (r: Option<usize>)
        requires
            self.wf(),
        ensures
            1 <= key->Escrow_0 <= self@.len() ==> r == Some((key->Escrow_0 - 1) as usize),
            !(1 <= key->Escrow_0 <= self@.len()) ==> r is None,
            r is None ==> self.lookup(key->Escrow_0) == not_found_model(),
            r matches Some(i) ==> i < self.escrows.len() && self.lookup(key->Escrow_0)
                == self.escrows@[i as int]@,
    {
        match *key {
            EscrowBook::Escrow(id) => {
                if 1 <= id && id <= self.escrow_count {
                    assert(self@[id - 1] == self.escrows@[id - 1]@);
                    Some((id - 1) as usize)
                } else {
                    None
                }
            },
        }
    }

    /// Creates an escrow, active and not released, under the next ID, and returns that ID.
    pub fn create_escrow(
        &mut self,
        sender: String,
        receiver: String,
        amount: u64,
        release_condition: String,
    ) -> (id: u64)
        requires
            old(self).wf(),
            old(self)@.len() < u64::MAX,
        ensures
            final(self).wf(),
            Self::creates(
                *old(self),
                *final(self),
                sender@,
                receiver@,
                amount,
                release_condition@,
                id,
            ),
    {
        let id = self.escrow_count + 1;
        let escrow = Escrow::new(id, sender, receiver, amount, release_condition);
        self.escrows.push(escrow);
        self.escrow_count = id;
        assert(self@ =~= old(self)@.push(escrow@));
        id
    }

    /// Marks the funds of escrow `escrow_id` released, where it is active,
    /// not released yet, and `condition_met` holds; otherwise rejects the
    /// request and leaves the book unchanged.
    pub fn release_funds(&mut self, escrow_id: u64, condition_met: bool) -> (r: Result<
        (),
        EscrowError,
    >)
        requires
            old(self).wf(),
        ensures
            final(self).wf(),
            Self::releases(*old(self), *final(self), escrow_id, condition_met, r),
    {
        match self.slot(&EscrowBook::Escrow(escrow_id)) {
            None => Err(EscrowError::Inactive),
            Some(i) => {
                let mut escrow = self.escrows[i].duplicate();
                let r = escrow.release(condition_met);
                if r.is_ok() {
                    self.escrows.set(i, escrow);
                    assert(self@ =~= old(self)@.update(i as int, escrow@));
                }
                r
            },
        }
    }

    /// Cancels escrow `escrow_id`, where it is active and not released;
    /// otherwise rejects the request and leaves the book unchanged.
    pub fn cancel_escrow(&mut self, escrow_id: u64) -> (r: Result<(), EscrowError>)
        requires
            old(self).wf(),
        ensures
            final(self).wf(),
            Self::cancels(*old(self), *final(self), escrow_id, r),
    {
        match self.slot(&EscrowBook::Escrow(escrow_id)) {
            None => Err(EscrowError::Inactive),
            Some(i) => {
                let mut escrow = self.escrows[i].duplicate();
                let r = escrow.cancel();
                if r.is_ok() {
                    self.escrows.set(i, escrow);
                    assert(self@ =~= old(self)@.update(i as int, escrow@));
                }
                r
            },
        }
    }

    /// The amount and state of escrow `escrow_id`, or the placeholder status
    /// (amount 0, inactive, not released) where there is none.
    pub fn view_escrow_status(&self, escrow_id: u64) -> (r: EscrowStatus)
        requires
            self.wf(),
        ensures
            r == status_of(self.lookup(escrow_id)),
    {
        match self.slot(&EscrowBook::Escrow(escrow_id)) {
            None => EscrowStatus::not_found(),
            Some(i) => self.escrows[i].status(),
        }
    }

    /// The record of escrow `escrow_id`, or the placeholder record (ID 0,
    /// parties "Not_Found", condition "None", amount 0, inactive, not released)
    /// where there is none.
    pub fn view_escrow(&self, escrow_id: u64) -> (r: Escrow)
        requires
            self.wf(),
        ensures
            r@ == self.lookup(escrow_id),
    {
        match self.slot(&EscrowBook::Escrow(escrow_id)) {
            None => Escrow::not_found(),
            Some(i) => self.escrows[i].duplicate(),
        }
    }
}

/// Creation numbers records consecutively: on a well-formed book the new ID is
/// one more than the number of records before, so from an empty book the IDs
/// handed out are 1, 2, 3, … in call order, and every record still carries
/// the ID of its position.
pub proof fn lemma_create_takes_next_id(
    before: DecentralizedEscrowContract,
    after: DecentralizedEscrowContract,
    sender: Seq<char>,
    receiver: Seq<char>,
    amount: u64,
    release_condition: Seq<char>,
    id: u64,
)
    requires
        before.wf(),
        DecentralizedEscrowContract::creates(
            before,
            after,
            sender,
            receiver,
            amount,
            release_condition,
            id,
        ),
    ensures
        id == before@.len() + 1,
        after@.len() == id,
        ids_dense(after@),
        forall|k: u64| 1 <= k < id ==> after.lookup(k) == before.lookup(k),
{
    assert forall|k: int| 0 <= k < after@.len() implies (#[trigger] after@[k]).escrow_id == k + 1 by {
        if k < before@.len() {
            assert(after@[k] == before@[k]);
        }
    }
}

/// `after` is `before` with one record created, numbered `id`, whatever its fields.
pub open spec fn creates_one(
    before: DecentralizedEscrowContract,
    after: DecentralizedEscrowContract,
    id: u64,
) -> bool {
    exists|sender: Seq<char>, receiver: Seq<char>, amount: u64, release_condition: Seq<char>|
        DecentralizedEscrowContract::creates(
            before,
            after,
            sender,
            receiver,
            amount,
            release_condition,
            id,
        )
}

/// Any run of creations on an empty book hands out the IDs 1, 2, 3, … in
/// call order: `books` are the successive states and `ids` what each call returned.
pub proof fn lemma_ids_of_creation_run(books: Seq<DecentralizedEscrowContract>, ids: Seq<u64>)
    requires
        books.len() == ids.len() + 1,
        books[0]@.len() == 0,
        forall|k: int| 0 <= k < ids.len() ==> creates_one(books[k], books[k + 1], #[trigger] ids[k]),
    ensures
        forall|k: int| 0 <= k < ids.len() ==> #[trigger] ids[k] == k + 1,
    decreases ids.len(),
{
    if ids.len() > 0 {
        let n = ids.len() - 1;
        lemma_ids_of_creation_run(books.drop_last(), ids.drop_last());
        assert forall|k: int| 0 <= k < ids.len() implies #[trigger] ids[k] == k + 1 by {
            assert(creates_one(books[k], books[k + 1], ids[k]));
            if k < n {
                assert(ids.drop_last()[k] == ids[k]);
            } else if k > 0 {
                assert(ids.drop_last()[k - 1] == ids[k - 1]);
                assert(creates_one(books[k - 1], books[k], ids[k - 1]));
            }
        }
    }
}

/// Right after a creation that returned `id`, the record under `id` holds
/// exactly the supplied parties, amount and condition, active and not released.
pub proof fn lemma_view_after_create(
    before: DecentralizedEscrowContract,
    after: DecentralizedEscrowContract,
    sender: Seq<char>,
    receiver: Seq<char>,
    amount: u64,
    release_condition: Seq<char>,
    id: u64,
)
    requires
        before.wf(),
        DecentralizedEscrowContract::creates(
            before,
            after,
            sender,
            receiver,
            amount,
            release_condition,
            id,
        ),
    ensures
        after.lookup(id) == created_model(id, sender, receiver, amount, release_condition),
        status_of(after.lookup(id)) == (EscrowStatus { amount, is_active: true, released: false }),
{
}

/// Funds are never released twice: after a release that succeeded, a second
/// release of the same escrow is rejected and changes nothing.
pub proof fn lemma_release_twice_rejected(
    c0: DecentralizedEscrowContract,
    c1: DecentralizedEscrowContract,
    c2: DecentralizedEscrowContract,
    id: u64,
    r1: Result<(), EscrowError>,
    r2: Result<(), EscrowError>,
)
    requires
        c0.wf(),
        DecentralizedEscrowContract::releases(c0, c1, id, true, r1),
        r1 is Ok,
        DecentralizedEscrowContract::releases(c1, c2, id, true, r2),
    ensures
        r2 == Err::<(), EscrowError>(EscrowError::AlreadyReleased),
        c2@ == c1@,
{
}

/// A cancelled escrow cannot be released: after a cancellation that
/// succeeded, a release of the same escrow is rejected and changes nothing.
pub proof fn lemma_release_after_cancel_rejected(
    c0: DecentralizedEscrowContract,
    c1: DecentralizedEscrowContract,
    c2: DecentralizedEscrowContract,
    id: u64,
    r1: Result<(), EscrowError>,
    r2: Result<(), EscrowError>,
)
    requires
        c0.wf(),
        DecentralizedEscrowContract::cancels(c0, c1, id, r1),
        r1 is Ok,
        DecentralizedEscrowContract::releases(c1, c2, id, true, r2),
    ensures
        r2 == Err::<(), EscrowError>(EscrowError::Inactive),
        c2@ == c1@,
{
}

/// A released escrow cannot be cancelled: after a release that succeeded, a
/// cancellation of the same escrow is rejected and changes nothing.
pub proof fn lemma_cancel_after_release_rejected(
    c0: DecentralizedEscrowContract,
    c1: DecentralizedEscrowContract,
    c2: DecentralizedEscrowContract,
    id: u64,
    r1: Result<(), EscrowError>,
    r2: Result<(), EscrowError>,
)
    requires
        c0.wf(),
        DecentralizedEscrowContract::releases(c0, c1, id, true, r1),
        r1 is Ok,
        DecentralizedEscrowContract::cancels(c1, c2, id, r2),
    ensures
        r2 == Err::<(), EscrowError>(EscrowError::AlreadyReleased),
        c2@ == c1@,
{
}

/// A release without the condition attested is always rejected and leaves
/// the book, and so the status of every escrow, unchanged.
pub proof fn lemma_release_without_condition_rejected(
    c0: DecentralizedEscrowContract,
    c1: DecentralizedEscrowContract,
    id: u64,
    r: Result<(), EscrowError>,
)
    requires
        c0.wf(),
        DecentralizedEscrowContract::releases(c0, c1, id, false, r),
    ensures
        r is Err,
        c1@ == c0@,
        forall|k: u64| #[trigger] status_of(c1.lookup(k)) == status_of(c0.lookup(k)),
{
}

/// A query on an ID that no creation has returned yields the placeholder
/// record and the placeholder status.
pub proof fn lemma_unknown_id_not_found(c: DecentralizedEscrowContract, id: u64)
    requires
        c.wf(),
        id == 0 || id > c@.len(),
    ensures
        c.lookup(id) == not_found_model(),
        status_of(c.lookup(id)) == not_found_status(),
{
}

} // verus!
