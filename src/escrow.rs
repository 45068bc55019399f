//! The escrow record and the state machine that governs it.
use vstd::prelude::*;

verus! {

/// The mathematical value of an escrow record.
pub struct EscrowModel {
    pub escrow_id: u64,
    pub sender: Seq<char>,
    pub receiver: Seq<char>,
    pub amount: u64,
    pub is_active: bool,
    pub released: bool,
    pub release_condition: Seq<char>,
}

/// Why a release or a cancellation was rejected.
#[derive(Clone, Copy, Debug, PartialEq, Eq, Structural)]
pub enum EscrowError {
    /// The escrow was cancelled, or never existed.
    Inactive,
    /// The funds were released already.
    AlreadyReleased,
    /// The caller did not attest that the release condition holds.
    ConditionNotMet,
}

/// The amount and the state of an escrow, without the parties.
#[derive(Clone, Copy, Debug, PartialEq, Eq, Structural)]
pub struct EscrowStatus {
    pub amount: u64,
    pub is_active: bool,
    pub released: bool,
}

/// Key of an escrow record in the book.
#[derive(Clone, Copy, Debug, PartialEq, Eq, Structural)]
pub enum EscrowBook {
    Escrow(u64),
}

/// An escrow between a sender and a receiver.
#[derive(Clone, Debug, PartialEq, Eq)]
pub struct Escrow {
    pub escrow_id: u64,
    pub sender: String,
    pub receiver: String,
    pub amount: u64,
    pub is_active: bool,
    pub released: bool,
    pub release_condition: String,
}

impl View for Escrow {
    type V = EscrowModel;

    open spec fn view(&self) -> EscrowModel {
        EscrowModel {
            escrow_id: self.escrow_id,
            sender: self.sender@,
            receiver: self.receiver@,
            amount: self.amount,
            is_active: self.is_active,
            released: self.released,
            release_condition: self.release_condition@,
        }
    }
}

/// A fresh escrow: active and not released.
pub open spec fn created_model(
    escrow_id: u64,
    sender: Seq<char>,
    receiver: Seq<char>,
    amount: u64,
    release_condition: Seq<char>,
) -> EscrowModel {
    EscrowModel {
        escrow_id,
        sender,
        receiver,
        amount,
        is_active: true,
        released: false,
        release_condition,
    }
}

/// The record that a query on an unknown ID yields.
pub open spec fn not_found_model() -> EscrowModel {
    EscrowModel {
        escrow_id: 0,
        sender: "Not_Found"@,
        receiver: "Not_Found"@,
        amount: 0,
        is_active: false,
        released: false,
        release_condition: "None"@,
    }
}

/// The status that a query on an unknown ID yields.
pub open spec fn not_found_status() -> EscrowStatus {
    EscrowStatus { amount: 0, is_active: false, released: false }
}

/// The status projection of a record.
pub open spec fn status_of(e: EscrowModel) -> EscrowStatus {
    EscrowStatus { amount: e.amount, is_active: e.is_active, released: e.released }
}

/// Why releasing `e` is refused, if it is.
pub open spec fn release_error(e: EscrowModel, condition_met: bool) -> Option<EscrowError> {
    if !e.is_active {
        Some(EscrowError::Inactive)
    } else if e.released {
        Some(EscrowError::AlreadyReleased)
    } else if !condition_met {
        Some(EscrowError::ConditionNotMet)
    } else {
        None
    }
}

/// Why cancelling `e` is refused, if it is.
pub open spec fn cancel_error(e: EscrowModel) -> Option<EscrowError> {
    if !e.is_active {
        Some(EscrowError::Inactive)
    } else if e.released {
        Some(EscrowError::AlreadyReleased)
    } else {
        None
    }
}

/// The outcome of a release request on `e`: the new record, or the rejection.
pub open spec fn release_step(e: EscrowModel, condition_met: bool) -> Result<EscrowModel, EscrowError> {
    match release_error(e, condition_met) {
        Some(err) => Err(err),
        None => Ok(EscrowModel { released: true, ..e }),
    }
}

/// The outcome of a cancel request on `e`: the new record, or the rejection.
pub open spec fn cancel_step(e: EscrowModel) -> Result<EscrowModel, EscrowError> {
    match cancel_error(e) {
        Some(err) => Err(err),
        None => Ok(EscrowModel { is_active: false, ..e }),
    }
}

/// The record after a request that had `outcome`: changed on success, kept on rejection.
pub open spec fn after_step(e: EscrowModel, outcome: Result<EscrowModel, EscrowError>) -> EscrowModel {
    match outcome {
        Ok(next) => next,
        Err(_) => e,
    }
}

/// What a request with `outcome` reports to its caller.
pub open spec fn reported(outcome: Result<EscrowModel, EscrowError>) -> Result<(), EscrowError> {
    match outcome {
        Ok(_) => Ok(()),
        Err(err) => Err(err),
    }
}

impl Escrow {
    /// A new escrow, active and not released.
    pub fn new(
        escrow_id: u64,
        sender: String,
        receiver: String,
        amount: u64,
        release_condition: String,
    ) -> (r: Escrow)
        ensures
            r@ == created_model(escrow_id, sender@, receiver@, amount, release_condition@),
    {
        Escrow {
            escrow_id,
            sender,
            receiver,
            amount,
            is_active: true,
            released: false,
            release_condition,
        }
    }

    /// The placeholder record for an ID that the book does not hold.
    pub fn not_found() -> (r: Escrow)
        ensures
            r@ == not_found_model(),
    {
        Escrow {
            escrow_id: 0,
            sender: String::from_str("Not_Found"),
            receiver: String::from_str("Not_Found"),
            amount: 0,
            is_active: false,
            released: false,
            release_condition: String::from_str("None"),
        }
    }

    /// A copy of this record.
    pub fn duplicate(&self) -> (r: Escrow)
        ensures
            r@ == self@,
    {
        Escrow {
            escrow_id: self.escrow_id,
            sender: self.sender.clone(),
            receiver: self.receiver.clone(),
            amount: self.amount,
            is_active: self.is_active,
            released: self.released,
            release_condition: self.release_condition.clone(),
        }
    }

    /// The amount and state of this record.
    pub fn status(&self) -> (r: EscrowStatus)
        ensures
            r == status_of(self@),
    {
        EscrowStatus { amount: self.amount, is_active: self.is_active, released: self.released }
    }

    /// Marks the funds released, if the escrow is active, not yet released,
    /// and the caller attests that the release condition is met.
    /// A rejected request leaves the record as it was.
    pub fn release(&mut self, condition_met: bool) -> (r: Result<(), EscrowError>)
        ensures
            r == reported(release_step(old(self)@, condition_met)),
            final(self)@ == after_step(old(self)@, release_step(old(self)@, condition_met)),
    {
        if !self.is_active {
            Err(EscrowError::Inactive)
        } else if self.released {
            Err(EscrowError::AlreadyReleased)
        } else if !condition_met {
            Err(EscrowError::ConditionNotMet)
        } else {
            self.released = true;
            Ok(())
        }
    }

    /// Marks the escrow cancelled, if it is active and not yet released.
    /// A rejected request leaves the record as it was.
    pub fn cancel(&mut self) -> (r: Result<(), EscrowError>)
        ensures
            r == reported(cancel_step(old(self)@)),
            final(self)@ == after_step(old(self)@, cancel_step(old(self)@)),
    {
        if !self.is_active {
            Err(EscrowError::Inactive)
        } else if self.released {
            Err(EscrowError::AlreadyReleased)
        } else {
            self.is_active = false;
            Ok(())
        }
    }
}

impl EscrowStatus {
    /// The placeholder status for an ID that the book does not hold.
    pub fn not_found() -> (r: EscrowStatus)
        ensures
            r == not_found_status(),
    {
        EscrowStatus { amount: 0, is_active: false, released: false }
    }
}

} // verus!
