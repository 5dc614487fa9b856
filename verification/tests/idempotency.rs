use upi_switch::idempotency::{finalize, get_state, new_store, try_begin};
use upi_switch::types::TxnState;
use uuid::Uuid;

#[test]
fn allows_single_begin() {
    let mut store = new_store();
    let txn_id = Uuid::new_v4().as_u128();

    assert!(try_begin(&mut store, txn_id));
    assert!(!try_begin(&mut store, txn_id));
}

#[test]
fn finalizes_and_reads_state() {
    let mut store = new_store();
    let txn_id = Uuid::new_v4().as_u128();

    finalize(
        &mut store,
        txn_id,
        TxnState::Settled {
            rrn: "RRN-test".to_string(),
        },
    );

    assert_eq!(
        get_state(&store, &txn_id),
        Some(TxnState::Settled {
            rrn: "RRN-test".to_string()
        })
    );
}

#[test]
fn begin_records_processing() {
    let mut store = new_store();
    assert_eq!(get_state(&store, &7), None);
    assert!(try_begin(&mut store, 7));
    assert_eq!(get_state(&store, &7), Some(TxnState::Processing));
    assert_eq!(get_state(&store, &8), None);
}

#[test]
fn finalize_overwrites_and_keeps_id_claimed() {
    let mut store = new_store();
    assert!(try_begin(&mut store, 1));
    assert!(try_begin(&mut store, 2));
    finalize(&mut store, 1, TxnState::TimedOut);
    finalize(
        &mut store,
        1,
        TxnState::Failed {
            reason: "CREDIT_FAILED_BANK_UNAVAILABLE".to_string(),
        },
    );
    assert_eq!(
        get_state(&store, &1),
        Some(TxnState::Failed {
            reason: "CREDIT_FAILED_BANK_UNAVAILABLE".to_string()
        })
    );
    assert_eq!(get_state(&store, &2), Some(TxnState::Processing));
    assert!(!try_begin(&mut store, 1));
    assert_eq!(
        get_state(&store, &1),
        Some(TxnState::Failed {
            reason: "CREDIT_FAILED_BANK_UNAVAILABLE".to_string()
        })
    );
}

#[test]
fn clone_of_state_is_equal() {
    let s = TxnState::Settled { rrn: "RRN-x".to_string() };
    assert_eq!(s.clone(), s);
}
