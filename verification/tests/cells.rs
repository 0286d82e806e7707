//! The single-writer cell: unrestricted reads, writer-tag discipline, and
//! explicit ownership transfer.

use onmi::{ThreadCell, WriteError};

#[test]
fn first_writer_claims_the_cell() {
    let mut cell: ThreadCell<u32> = ThreadCell::new(5);
    assert_eq!(*cell.read(), 5);
    assert_eq!(cell.write(1, 7), Ok(()));
    assert_eq!(*cell.read(), 7);
    assert_eq!(cell.write(1, 8), Ok(()));
    assert_eq!(*cell.read(), 8);
}

#[test]
fn second_thread_write_is_a_contract_violation() {
    let mut cell: ThreadCell<u32> = ThreadCell::new(0);
    assert_eq!(cell.write(1, 10), Ok(()));
    assert_eq!(cell.write(2, 20), Err(WriteError));
    // The rejected write leaves the value alone.
    assert_eq!(*cell.read(), 10);
}

#[test]
fn reset_transfers_write_ownership() {
    let mut cell: ThreadCell<u32> = ThreadCell::new(0);
    assert_eq!(cell.write(1, 10), Ok(()));
    cell.reset_thread();
    assert_eq!(cell.write(2, 20), Ok(()));
    assert_eq!(*cell.read(), 20);
    assert_eq!(cell.write(1, 30), Err(WriteError));
}
