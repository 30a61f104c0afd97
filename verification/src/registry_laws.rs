//! What holds of every machine, whatever the registry holds.

use crate::error::ErrorView;
use crate::machine::{
    after_add_machine, after_give_back, after_session_use, after_set_blocked, after_use, gate, session_use_outcome,
    set_blocked_outcome, use_outcome, with_machine_status, MachineError, MachineView, RegistryView,
    Status,
};
use vstd::prelude::*;

verus! {

/// Putting a machine into a status touches nothing else: the same machines
/// are on file, every other machine is as it was, and the machine keeps its
/// name, location and policy object.
pub proof fn lemma_status_change_keeps_records(db: RegistryView, key: u128, status: Status)
    ensures
        with_machine_status(db, key, status).dom() == db.dom(),
        forall|other: u128|
            other != key && db.contains_key(other) ==> #[trigger] with_machine_status(
                db,
                key,
                status,
            )[other] == db[other],
        db.contains_key(key) ==> with_machine_status(db, key, status)[key] == db[key].with_status(
            status,
        ),
{
    assert(with_machine_status(db, key, status).dom() =~= db.dom());
}

/// Of two uses of a free machine, one after the other, the first succeeds
/// and the second fails because the machine is occupied; the machine ends
/// occupied.
pub proof fn lemma_second_use_finds_occupied(db: RegistryView, key: u128)
    requires
        db.contains_key(key),
        db[key].status == Status::Free,
    ensures
        use_outcome(db, key) == Ok::<(), MachineError>(()),
        use_outcome(after_use(db, key), key) == Err::<(), MachineError>(MachineError::Occupied),
        after_use(after_use(db, key), key) == after_use(db, key),
        after_use(db, key)[key].status == Status::Occupied,
{
}

/// Whatever state a registry is in, two uses of one machine, one after the
/// other, never both succeed.
pub proof fn lemma_uses_exclude_each_other(db: RegistryView, key: u128)
    ensures
        !(use_outcome(db, key) is Ok && use_outcome(after_use(db, key), key) is Ok),
{
}

/// Two connections that were both allowed to use a free machine: whichever
/// comes to the registry first gets the machine, the other is told that it
/// is occupied.
pub proof fn lemma_allowed_uses_exclude_each_other(db: RegistryView, key: u128)
    requires
        db.contains_key(key),
        db[key].status == Status::Free,
    ensures
        session_use_outcome(db, key, Ok(true)) == Ok::<(), ErrorView>(()),
        session_use_outcome(after_session_use(db, key, Ok(true)), key, Ok(true)) == Err::<
            (),
            ErrorView,
        >(ErrorView::Machine(MachineError::Occupied)),
        after_session_use(after_session_use(db, key, Ok(true)), key, Ok(true))[key].status
            == Status::Occupied,
{
}

/// A use that the policy does not allow, or for which the policy engine
/// failed, leaves the registry as it was and does not succeed.
pub proof fn lemma_refused_use_changes_nothing(
    db: RegistryView,
    key: u128,
    decision: Result<bool, ErrorView>,
)
    requires
        decision != Ok::<bool, ErrorView>(true),
    ensures
        after_session_use(db, key, decision) == db,
        session_use_outcome(db, key, decision) is Err,
        db.contains_key(key) && decision == Ok::<bool, ErrorView>(false) ==> session_use_outcome(
            db,
            key,
            decision,
        ) == Err::<(), ErrorView>(ErrorView::Denied),
        db.contains_key(key) && decision is Err ==> session_use_outcome(db, key, decision)
            == Err::<(), ErrorView>(decision->Err_0),
{
}

/// An operation on a machine that is not on file fails as such, whatever
/// the policy says, and changes nothing.
pub proof fn lemma_unknown_machine(db: RegistryView, key: u128, decision: Result<bool, ErrorView>)
    requires
        !db.contains_key(key),
    ensures
        use_outcome(db, key) == Err::<(), MachineError>(MachineError::NoSuchMachine),
        set_blocked_outcome(db, key) == Err::<(), MachineError>(MachineError::NoSuchMachine),
        gate(db, key, decision) == Err::<(), ErrorView>(
            ErrorView::Machine(MachineError::NoSuchMachine),
        ),
        after_use(db, key) == db,
        after_give_back(db, key) == db,
        after_set_blocked(db, key, true) == db,
        after_set_blocked(db, key, false) == db,
        after_session_use(db, key, decision) == db,
{
}

/// Giving back an occupied machine frees it, and a machine that was taken
/// into use and given back is as it was before.
pub proof fn lemma_give_back_frees(db: RegistryView, key: u128)
    requires
        db.contains_key(key),
        db[key].status == Status::Occupied,
    ensures
        after_give_back(db, key)[key].status == Status::Free,
        after_give_back(db, key) == with_machine_status(db, key, Status::Free),
        use_outcome(after_give_back(db, key), key) == Ok::<(), MachineError>(()),
{
}

/// A machine that was free, taken into use and given back is as it was
/// before, and so is every other machine.
pub proof fn lemma_use_then_give_back(db: RegistryView, key: u128)
    requires
        db.contains_key(key),
        db[key].status == Status::Free,
    ensures
        after_give_back(after_use(db, key), key) == db,
{
    assert(after_give_back(after_use(db, key), key) =~= db);
}

/// Giving back a machine that is not occupied changes nothing: a blocked
/// machine stays blocked until it is unblocked, and a free one stays free.
pub proof fn lemma_give_back_needs_occupied(db: RegistryView, key: u128)
    requires
        !db.contains_key(key) || db[key].status != Status::Occupied,
    ensures
        after_give_back(db, key) == db,
{
}

/// Blocking puts a machine into `Blocked` whatever state it was in, and a
/// blocked machine cannot be used. Unblocking puts it into `Free` whatever
/// state it was in, and a machine just unblocked can be used.
pub proof fn lemma_block_and_unblock(db: RegistryView, key: u128)
    requires
        db.contains_key(key),
    ensures
        set_blocked_outcome(db, key) == Ok::<(), MachineError>(()),
        after_set_blocked(db, key, true)[key].status == Status::Blocked,
        use_outcome(after_set_blocked(db, key, true), key) == Err::<(), MachineError>(
            MachineError::Blocked,
        ),
        after_use(after_set_blocked(db, key, true), key) == after_set_blocked(db, key, true),
        after_set_blocked(db, key, false)[key].status == Status::Free,
        use_outcome(after_set_blocked(db, key, false), key) == Ok::<(), MachineError>(()),
        after_use(after_set_blocked(db, key, false), key)[key].status == Status::Occupied,
{
}

/// A machine that was just filed under an identifier that was free can be
/// used, and every other machine is as it was.
pub proof fn lemma_added_machine_is_free(db: RegistryView, key: u128, machine: MachineView)
    requires
        !db.contains_key(key),
        machine.status == Status::Free,
    ensures
        after_add_machine(db, key, machine)[key] == machine,
        use_outcome(after_add_machine(db, key, machine), key) == Ok::<(), MachineError>(()),
        forall|other: u128|
            db.contains_key(other) ==> #[trigger] after_add_machine(db, key, machine)[other]
                == db[other],
{
}

} // verus!
