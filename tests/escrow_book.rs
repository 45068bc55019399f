use escrow_book::{DecentralizedEscrowContract, Escrow, EscrowError, EscrowStatus};

fn s(text: &str) -> String {
    text.to_string()
}

fn book_with_one() -> DecentralizedEscrowContract {
    let mut book = DecentralizedEscrowContract::new();
    let id = book.create_escrow(s("alice"), s("bob"), 500, s("delivery confirmed"));
    assert_eq!(id, 1);
    book
}

#[test]
fn ids_are_consecutive_from_one() {
    let mut book = DecentralizedEscrowContract::new();
    assert_eq!(book.escrow_count(), 0);
    assert_eq!(book.create_escrow(s("a"), s("b"), 1, s("c")), 1);
    assert_eq!(book.view_escrow(1).escrow_id, 1);
    assert_eq!(book.create_escrow(s("d"), s("e"), 2, s("f")), 2);
    assert_eq!(book.view_escrow_status(2), EscrowStatus { amount: 2, is_active: true, released: false });
    assert_eq!(book.create_escrow(s("g"), s("h"), 3, s("i")), 3);
    assert_eq!(book.escrow_count(), 3);
    assert_eq!(book.view_escrow(2).escrow_id, 2);
    assert_eq!(book.view_escrow(3).escrow_id, 3);
}

#[test]
fn view_after_create_holds_supplied_fields() {
    let book = book_with_one();
    let e = book.view_escrow(1);
    assert_eq!(
        e,
        Escrow {
            escrow_id: 1,
            sender: s("alice"),
            receiver: s("bob"),
            amount: 500,
            is_active: true,
            released: false,
            release_condition: s("delivery confirmed"),
        }
    );
}

#[test]
fn second_release_is_rejected() {
    let mut book = book_with_one();
    assert_eq!(book.release_funds(1, true), Ok(()));
    assert_eq!(book.release_funds(1, true), Err(EscrowError::AlreadyReleased));
    assert_eq!(book.view_escrow_status(1), EscrowStatus { amount: 500, is_active: true, released: true });
}

#[test]
fn release_after_cancel_is_rejected() {
    let mut book = book_with_one();
    assert_eq!(book.cancel_escrow(1), Ok(()));
    assert_eq!(book.view_escrow_status(1), EscrowStatus { amount: 500, is_active: false, released: false });
    assert_eq!(book.release_funds(1, true), Err(EscrowError::Inactive));
    assert_eq!(book.view_escrow_status(1), EscrowStatus { amount: 500, is_active: false, released: false });
}

#[test]
fn cancel_after_release_is_rejected() {
    let mut book = book_with_one();
    assert_eq!(book.release_funds(1, true), Ok(()));
    assert_eq!(book.cancel_escrow(1), Err(EscrowError::AlreadyReleased));
    assert!(book.view_escrow(1).is_active);
}

#[test]
fn second_cancel_is_rejected() {
    let mut book = book_with_one();
    assert_eq!(book.cancel_escrow(1), Ok(()));
    assert_eq!(book.cancel_escrow(1), Err(EscrowError::Inactive));
}

#[test]
fn release_without_condition_changes_nothing() {
    let mut book = book_with_one();
    let before = book.view_escrow(1);
    assert_eq!(book.release_funds(1, false), Err(EscrowError::ConditionNotMet));
    assert_eq!(book.view_escrow_status(1), EscrowStatus { amount: 500, is_active: true, released: false });
    assert_eq!(book.view_escrow(1), before);
}

#[test]
fn unknown_id_gives_placeholder() {
    let book = book_with_one();
    let e = book.view_escrow(9999);
    assert_eq!(
        e,
        Escrow {
            escrow_id: 0,
            sender: s("Not_Found"),
            receiver: s("Not_Found"),
            amount: 0,
            is_active: false,
            released: false,
            release_condition: s("None"),
        }
    );
    assert_eq!(book.view_escrow(0).escrow_id, 0);
    assert_eq!(book.view_escrow_status(9999), EscrowStatus { amount: 0, is_active: false, released: false });
}

#[test]
fn requests_on_unknown_id_are_rejected() {
    let mut book = book_with_one();
    assert_eq!(book.release_funds(2, true), Err(EscrowError::Inactive));
    assert_eq!(book.cancel_escrow(0), Err(EscrowError::Inactive));
    assert_eq!(book.escrow_count(), 1);
}

#[test]
fn alice_bob_scenario() {
    let mut book = DecentralizedEscrowContract::new();
    let id = book.create_escrow(s("alice"), s("bob"), 500, s("delivery confirmed"));
    assert_eq!(id, 1);
    assert_eq!(book.view_escrow_status(1), EscrowStatus { amount: 500, is_active: true, released: false });
    assert!(book.release_funds(1, true).is_ok());
    assert_eq!(book.view_escrow_status(1), EscrowStatus { amount: 500, is_active: true, released: true });
    assert!(book.cancel_escrow(1).is_err());
}

#[test]
fn zero_amount_and_empty_parties_are_accepted() {
    let mut book = DecentralizedEscrowContract::new();
    assert_eq!(book.create_escrow(s(""), s(""), 0, s("")), 1);
    assert_eq!(book.view_escrow_status(1), EscrowStatus { amount: 0, is_active: true, released: false });
}

#[test]
fn record_state_machine() {
    let mut e = Escrow::new(7, s("x"), s("y"), 9, s("z"));
    assert_eq!(e.status(), EscrowStatus { amount: 9, is_active: true, released: false });
    assert_eq!(e.release(false), Err(EscrowError::ConditionNotMet));
    assert_eq!(e.release(true), Ok(()));
    assert!(e.released);
    let copy = e.duplicate();
    assert_eq!(copy, e);
    assert_eq!(EscrowStatus::not_found(), Escrow::not_found().status());
}
