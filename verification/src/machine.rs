//! The machines and the state each one is in.

use crate::access::{answer_view, check_answer, check_request, Permissions};
use casbin::Enforcer;
use crate::error::{Error, ErrorView};
use crate::ident::{uuid_as_u128, uuid_key};
use std::collections::HashMap;
use uuid::Uuid;
use vstd::prelude::*;

verus! {

broadcast use vstd::std_specs::hash::group_hash_axioms;

/// Status of a machine.
#[derive(Clone, Copy, Debug, PartialEq, Eq, Structural)]
pub enum Status {
    /// Not currently used by anybody.
    Free,
    /// Used by somebody.
    Occupied,
    /// Not used by anybody but also can not be used, e.g. down for maintenance.
    Blocked,
}

/// Why an operation on a machine was turned down.
#[derive(Clone, Copy, Debug, PartialEq, Eq, Structural)]
pub enum MachineError {
    /// Somebody else is using the machine.
    Occupied,
    /// The machine is blocked.
    Blocked,
    /// No machine is filed under the identifier.
    NoSuchMachine,
}

impl MachineError {
    /// The text that such a failure carries.
    pub open spec fn spec_reason(self) -> Seq<char> {
        match self {
            MachineError::Occupied => "Machine is occupied"@,
            MachineError::Blocked => "Machine is blocked"@,
            MachineError::NoSuchMachine => "No such machine"@,
        }
    }

    /// A human-readable reason for the failure.
    pub fn reason(&self) -> (text: String)
        ensures
            text@ == self.spec_reason(),
    {
        match self {
            MachineError::Occupied => "Machine is occupied".to_owned(),
            MachineError::Blocked => "Machine is blocked".to_owned(),
            MachineError::NoSuchMachine => "No such machine".to_owned(),
        }
    }
}

/// A machine as a plain value.
pub struct MachineView {
    pub name: Seq<char>,
    pub location: Seq<char>,
    pub status: Status,
    pub perm: Seq<char>,
}

impl MachineView {
    /// The same machine in another status.
    pub open spec fn with_status(self, status: Status) -> MachineView {
        MachineView { status, ..self }
    }
}

/// A shared machine: what it is called, where it stands, whether it can be
/// used, and the policy object that gates it.
#[derive(Clone, Debug, PartialEq, Eq)]
pub struct Machine {
    pub name: String,
    pub location: String,
    pub status: Status,
    pub perm: String,
}

impl View for Machine {
    type V = MachineView;

    open spec fn view(&self) -> MachineView {
        MachineView {
            name: self.name@,
            location: self.location@,
            status: self.status,
            perm: self.perm@,
        }
    }
}

/// The status that blocking or unblocking leaves a machine in.
pub open spec fn blocked_status(blocked: bool) -> Status {
    if blocked {
        Status::Blocked
    } else {
        Status::Free
    }
}

impl Machine {
    /// A new machine, free to use.
    pub fn new(name: String, location: String, perm: String) -> (machine: Machine)
        ensures
            machine@ == (MachineView {
                name: name@,
                location: location@,
                status: Status::Free,
                perm: perm@,
            }),
    {
        Machine { name: name, location: location, status: Status::Free, perm: perm }
    }

    /// Blocks the machine, or frees it, whatever state it was in.
    pub fn set_blocked(&mut self, blocked: bool)
        ensures
            final(self)@ == old(self)@.with_status(blocked_status(blocked)),
    {
        if blocked {
            self.status = Status::Blocked;
        } else {
            self.status = Status::Free;
        }
    }
}

/// The machines, each filed under the number of its identifier.
pub type MachineDB = HashMap<u128, Machine>;

/// A registry as a plain value.
pub type RegistryView = Map<u128, MachineView>;

/// What `use` answers for the machine filed under `key`.
pub open spec fn use_outcome(db: RegistryView, key: u128) -> Result<(), MachineError> {
    if !db.contains_key(key) {
        Err(MachineError::NoSuchMachine)
    } else {
        match db[key].status {
            Status::Free => Ok(()),
            Status::Occupied => Err(MachineError::Occupied),
            Status::Blocked => Err(MachineError::Blocked),
        }
    }
}

/// The registry with the machine under `key` put into `status`; unchanged
/// where there is no such machine.
pub open spec fn with_machine_status(db: RegistryView, key: u128, status: Status) -> RegistryView {
    if db.contains_key(key) {
        db.insert(key, db[key].with_status(status))
    } else {
        db
    }
}

/// The registry after `use` of the machine under `key`.
pub open spec fn after_use(db: RegistryView, key: u128) -> RegistryView {
    if use_outcome(db, key) is Ok {
        with_machine_status(db, key, Status::Occupied)
    } else {
        db
    }
}

/// The registry after the machine under `key` was given back: an occupied
/// machine is free again, and nothing else changes. A blocked machine stays
/// blocked.
pub open spec fn after_give_back(db: RegistryView, key: u128) -> RegistryView {
    if db.contains_key(key) && db[key].status == Status::Occupied {
        with_machine_status(db, key, Status::Free)
    } else {
        db
    }
}

/// What blocking or unblocking answers for the machine under `key`.
pub open spec fn set_blocked_outcome(db: RegistryView, key: u128) -> Result<(), MachineError> {
    if db.contains_key(key) {
        Ok(())
    } else {
        Err(MachineError::NoSuchMachine)
    }
}

/// The registry after the machine under `key` was blocked or unblocked.
pub open spec fn after_set_blocked(db: RegistryView, key: u128, blocked: bool) -> RegistryView {
    with_machine_status(db, key, blocked_status(blocked))
}

/// The registry after `machine` was filed under `key`: a machine that is
/// on file already is not replaced.
pub open spec fn after_add_machine(db: RegistryView, key: u128, machine: MachineView) -> RegistryView {
    if db.contains_key(key) {
        db
    } else {
        db.insert(key, machine)
    }
}

/// The policy object that gates the machine under `key`, if there is one.
pub open spec fn perm_req(db: RegistryView, key: u128) -> Option<Seq<char>> {
    if db.contains_key(key) {
        Some(db[key].perm)
    } else {
        None
    }
}

/// The registry that a store of machines stands for.
pub open spec fn registry_of(mdb: Map<u128, Machine>) -> RegistryView {
    Map::new(|key: u128| mdb.contains_key(key), |key: u128| mdb[key]@)
}

/// Owns every machine record and moves each through its states. A record
/// changes by the operations below and in no other way.
pub struct MachinesProvider {
    mdb: MachineDB,
}

impl View for MachinesProvider {
    type V = RegistryView;

    closed spec fn view(&self) -> RegistryView {
        registry_of(self.mdb@)
    }
}

impl MachinesProvider {
    pub fn new(mdb: MachineDB) -> (provider: MachinesProvider)
        ensures
            provider@ == registry_of(mdb@),
    {
        MachinesProvider { mdb }
    }

    /// The machines on file, to read.
    pub fn machines(&self) -> (mdb: &MachineDB)
        ensures
            registry_of(mdb@) == self@,
    {
        &self.mdb
    }

    /// Puts the machine under `key` into `status`, if there is one.
    fn set_status(&mut self, key: u128, status: Status)
        ensures
            final(self)@ == with_machine_status(old(self)@, key, status),
    {
        match self.mdb.remove(&key) {
            Some(machine) => {
                let mut machine = machine;
                machine.status = status;
                self.mdb.insert(key, machine);
                assert(final(self)@ =~= with_machine_status(old(self)@, key, status));
            },
            None => {
                assert(final(self)@ =~= old(self)@);
            },
        }
    }

    /// The status of the machine under `key`, if there is one.
    fn status_of(&self, key: u128) -> (status: Option<Status>)
        ensures
            status == if self@.contains_key(key) {
                Some(self@[key].status)
            } else {
                None
            },
    {
        match self.mdb.get(&key) {
            Some(machine) => Some(machine.status),
            None => None,
        }
    }

    /// Takes the machine into use. Only a free machine can be taken; every
    /// other case leaves the registry as it was.
    pub fn use_(&mut self, uuid: &Uuid) -> (result: Result<(), MachineError>)
        ensures
            result == use_outcome(old(self)@, uuid_key(*uuid)),
            final(self)@ == after_use(old(self)@, uuid_key(*uuid)),
    {
        let key = uuid_as_u128(uuid);
        match self.status_of(key) {
            Some(Status::Free) => {
                self.set_status(key, Status::Occupied);
                Ok(())
            },
            Some(Status::Occupied) => Err(MachineError::Occupied),
            Some(Status::Blocked) => Err(MachineError::Blocked),
            None => Err(MachineError::NoSuchMachine),
        }
    }

    /// Frees the machine where it is occupied. Giving back a machine that
    /// is free, blocked or not on file changes nothing and is no failure.
    pub fn give_back(&mut self, uuid: &Uuid) -> (result: Result<(), MachineError>)
        ensures
            result is Ok,
            final(self)@ == after_give_back(old(self)@, uuid_key(*uuid)),
    {
        let key = uuid_as_u128(uuid);
        match self.status_of(key) {
            Some(Status::Occupied) => {
                self.set_status(key, Status::Free);
            },
            _ => {},
        }
        Ok(())
    }

    /// The policy object that an identity needs a permission on to touch the
    /// machine.
    pub fn get_perm_req(&self, uuid: &Uuid) -> (perm: Option<String>)
        ensures
            perm.is_some() == perm_req(self@, uuid_key(*uuid)).is_some(),
            perm matches Some(p) ==> perm_req(self@, uuid_key(*uuid)) == Some(p@),
    {
        let key = uuid_as_u128(uuid);
        match self.mdb.get(&key) {
            Some(machine) => Some(machine.perm.clone()),
            None => None,
        }
    }

    /// Blocks or unblocks the machine; fails where it is not on file.
    pub fn set_blocked(&mut self, uuid: &Uuid, blocked: bool) -> (result: Result<(), MachineError>)
        ensures
            result == set_blocked_outcome(old(self)@, uuid_key(*uuid)),
            final(self)@ == after_set_blocked(old(self)@, uuid_key(*uuid), blocked),
    {
        let key = uuid_as_u128(uuid);
        match self.mdb.remove(&key) {
            Some(machine) => {
                let mut machine = machine;
                machine.set_blocked(blocked);
                self.mdb.insert(key, machine);
                assert(final(self)@ =~= after_set_blocked(old(self)@, uuid_key(*uuid), blocked));
                Ok(())
            },
            None => {
                assert(final(self)@ =~= old(self)@);
                Err(MachineError::NoSuchMachine)
            },
        }
    }

    /// Files a new machine, free to use, under the identifier. Where a
    /// machine is on file under it already, that machine stays as it is
    /// and the answer is `false`.
    pub fn add_machine(&mut self, uuid: &Uuid, name: String, location: String, perm: String) -> (added:
        bool)
        ensures
            added == !old(self)@.contains_key(uuid_key(*uuid)),
            final(self)@ == after_add_machine(
                old(self)@,
                uuid_key(*uuid),
                MachineView { name: name@, location: location@, status: Status::Free, perm: perm@ },
            ),
    {
        let key = uuid_as_u128(uuid);
        if self.mdb.contains_key(&key) {
            false
        } else {
            let ghost machine = MachineView {
                name: name@,
                location: location@,
                status: Status::Free,
                perm: perm@,
            };
            self.mdb.insert(key, Machine::new(name, location, perm));
            assert(final(self)@ =~= old(self)@.insert(key, machine));
            true
        }
    }
}

/// The answer to the permission check for an operation on the machine
/// under `key`: whether the connection's identity may do `action` on the
/// machine's policy object. A machine that is not on file has none, and
/// there the engine is not asked.
pub open spec fn machine_decision(
    engine: Enforcer,
    identity: Option<Seq<char>>,
    db: RegistryView,
    key: u128,
    action: Seq<char>,
) -> Result<bool, ErrorView> {
    match perm_req(db, key) {
        Some(perm) => check_answer(engine, identity, perm, action),
        None => Ok(false),
    }
}

/// Whether an operation on the machine under `key` may go ahead, given the
/// answer to the permission check: the machine must be on file, and the
/// answer must be yes. A failed check stays a failure.
pub open spec fn gate(db: RegistryView, key: u128, decision: Result<bool, ErrorView>) -> Result<
    (),
    ErrorView,
> {
    if !db.contains_key(key) {
        Err(ErrorView::Machine(MachineError::NoSuchMachine))
    } else {
        match decision {
            Err(e) => Err(e),
            Ok(false) => Err(ErrorView::Denied),
            Ok(true) => Ok(()),
        }
    }
}

/// What a connection's `use` of the machine under `key` comes to, given the
/// answer to the permission check.
pub open spec fn session_use_outcome(
    db: RegistryView,
    key: u128,
    decision: Result<bool, ErrorView>,
) -> Result<(), ErrorView> {
    match gate(db, key, decision) {
        Err(e) => Err(e),
        Ok(()) => match use_outcome(db, key) {
            Ok(()) => Ok(()),
            Err(e) => Err(ErrorView::Machine(e)),
        },
    }
}

/// The registry after a connection's `use` of the machine under `key`.
pub open spec fn after_session_use(
    db: RegistryView,
    key: u128,
    decision: Result<bool, ErrorView>,
) -> RegistryView {
    if gate(db, key, decision) is Ok {
        after_use(db, key)
    } else {
        db
    }
}

/// The right to give back one machine, handed out when it was taken into
/// use.
#[derive(Clone, Debug)]
pub struct GiveBack {
    uuid: Uuid,
}

impl GiveBack {
    pub fn new(uuid: Uuid) -> (handle: GiveBack)
        ensures
            handle.key() == uuid_key(uuid),
    {
        GiveBack { uuid }
    }

    /// The number of the machine that the handle is bound to.
    pub closed spec fn key(&self) -> u128 {
        uuid_key(self.uuid)
    }

    /// Frees the machine that the handle is bound to, where it is
    /// occupied. No further check is made: the handle is the permission.
    pub fn giveback(&self, mdb: &mut MachinesProvider) -> (result: Result<(), MachineError>)
        ensures
            result is Ok,
            final(mdb)@ == after_give_back(old(mdb)@, self.key()),
    {
        mdb.give_back(&self.uuid)
    }
}

/// The right to block and unblock one machine.
#[derive(Clone, Debug)]
pub struct MachineManager {
    uuid: Uuid,
}

impl MachineManager {
    pub fn new(uuid: Uuid) -> (handle: MachineManager)
        ensures
            handle.key() == uuid_key(uuid),
    {
        MachineManager { uuid }
    }

    /// The number of the machine that the handle is bound to.
    pub closed spec fn key(&self) -> u128 {
        uuid_key(self.uuid)
    }

    /// Blocks or unblocks the machine that the handle is bound to. No
    /// further check is made: the handle is the permission.
    pub fn set_blocked(&self, mdb: &mut MachinesProvider, blocked: bool) -> (result: Result<
        (),
        MachineError,
    >)
        ensures
            result == set_blocked_outcome(old(mdb)@, self.key()),
            final(mdb)@ == after_set_blocked(old(mdb)@, self.key(), blocked),
    {
        mdb.set_blocked(&self.uuid, blocked)
    }
}

/// The result of `use` as a plain value: the number of the machine that
/// the handle is bound to, or the failure.
pub open spec fn give_back_view(result: Result<GiveBack, Error>) -> Result<u128, ErrorView> {
    match result {
        Ok(handle) => Ok(handle.key()),
        Err(e) => Err(e@),
    }
}

/// The result of `manage` as a plain value: the number of the machine that
/// the handle is bound to, or the failure.
pub open spec fn manager_view(result: Result<MachineManager, Error>) -> Result<u128, ErrorView> {
    match result {
        Ok(handle) => Ok(handle.key()),
        Err(e) => Err(e@),
    }
}

/// A handle on the machine under `key` where `outcome` is a success, and
/// its failure where it is none.
pub open spec fn handle_for(key: u128, outcome: Result<(), ErrorView>) -> Result<u128, ErrorView> {
    match outcome {
        Ok(()) => Ok(key),
        Err(e) => Err(e),
    }
}

/// The machines as one connection sees them: every operation is checked
/// against what the connection's identity may do.
pub struct Machines<'a> {
    perm: Permissions<'a>,
}

impl<'a> Machines<'a> {
    pub fn new(perm: Permissions<'a>) -> (machines: Machines<'a>)
        ensures
            machines.identity() == perm.identity(),
            machines.engine() == perm.engine(),
    {
        Machines { perm }
    }

    /// The identity in whose name the connection acts.
    pub closed spec fn identity(&self) -> Option<Seq<char>> {
        self.perm.identity()
    }

    /// The engine that decides what that identity may do.
    pub closed spec fn engine(&self) -> Enforcer {
        self.perm.engine()
    }

    /// Whether the connection may use a machine gated by `perm`.
    pub fn use_permission(&self, perm: &str) -> (answer: Result<bool, Error>)
        ensures
            answer_view(answer) == check_answer(self.engine(), self.identity(), perm@, "write"@),
    {
        self.answer_to(self.use_request(perm))
    }

    /// Whether the connection may manage a machine gated by `perm`.
    pub fn manage_permission(&self, perm: &str) -> (answer: Result<bool, Error>)
        ensures
            answer_view(answer) == check_answer(self.engine(), self.identity(), perm@, "manage"@),
    {
        self.answer_to(self.manage_request(perm))
    }

    /// The request that using a machine gated by `perm` puts to the policy
    /// engine: whether the connection's identity may `write` on `perm`. A
    /// connection on which nobody has logged in puts none.
    pub fn use_request<'b>(&'b self, perm: &'b str) -> (request: Option<
        (&'b str, &'b str, &'b str),
    >)
        ensures
            crate::auth::request_view(request) == check_request(
                self.identity(),
                perm@,
                "write"@,
            ),
    {
        self.perm.request(perm, "write")
    }

    /// The request that managing a machine gated by `perm` puts to the
    /// policy engine: whether the connection's identity may `manage` on
    /// `perm`. A connection on which nobody has logged in puts none.
    pub fn manage_request<'b>(&'b self, perm: &'b str) -> (request: Option<
        (&'b str, &'b str, &'b str),
    >)
        ensures
            crate::auth::request_view(request) == check_request(
                self.identity(),
                perm@,
                "manage"@,
            ),
    {
        self.perm.request(perm, "manage")
    }

    /// The answer to a request, asked in the name of the connection's
    /// identity whatever actor the request names; no request is refused.
    fn answer_to(&self, request: Option<(&str, &str, &str)>) -> (answer: Result<bool, Error>)
        ensures
            answer_view(answer) == match request {
                Some((_, object, action)) => check_answer(
                    self.engine(),
                    self.identity(),
                    object@,
                    action@,
                ),
                None => Ok::<bool, ErrorView>(false),
            },
    {
        match request {
            Some((_, object, action)) => self.perm.enforce(object, action),
            None => Ok(false),
        }
    }

    /// Takes the machine into use, given the answer to the permission
    /// check, and hands out the right to give it back.
    ///
    /// The machine's state is read here and now, whatever it was when the
    /// check was made: of two such calls on a free machine the second
    /// finds it occupied.
    pub fn use_decided(inner: &mut MachinesProvider, uuid: &Uuid, decision: Result<bool, Error>) -> (result:
        Result<GiveBack, Error>)
        ensures
            give_back_view(result) == handle_for(
                uuid_key(*uuid),
                session_use_outcome(old(inner)@, uuid_key(*uuid), answer_view(decision)),
            ),
            final(inner)@ == after_session_use(
                old(inner)@,
                uuid_key(*uuid),
                answer_view(decision),
            ),
    {
        if inner.get_perm_req(uuid).is_none() {
            return Err(Error::Machine(MachineError::NoSuchMachine));
        }
        match decision {
            Err(e) => Err(e),
            Ok(false) => Err(Error::Denied),
            Ok(true) => match inner.use_(uuid) {
                Ok(()) => Ok(GiveBack::new(*uuid)),
                Err(e) => Err(Error::Machine(e)),
            },
        }
    }

    /// Hands out the right to block and unblock the machine, given the
    /// answer to the permission check.
    pub fn manage_decided(inner: &MachinesProvider, uuid: &Uuid, decision: Result<bool, Error>) -> (result:
        Result<MachineManager, Error>)
        ensures
            manager_view(result) == handle_for(
                uuid_key(*uuid),
                gate(inner@, uuid_key(*uuid), answer_view(decision)),
            ),
    {
        if inner.get_perm_req(uuid).is_none() {
            return Err(Error::Machine(MachineError::NoSuchMachine));
        }
        match decision {
            Err(e) => Err(e),
            Ok(false) => Err(Error::Denied),
            Ok(true) => Ok(MachineManager::new(*uuid)),
        }
    }

    /// Takes the machine into use in the name of the connection's identity:
    /// asks whether that identity may `write` on the machine's policy
    /// object, and goes by the answer as `use_decided` does.
    ///
    /// A connection without an identity is refused. The registry is held
    /// for the whole call; where it is shared, ask with `get_perm_req` and
    /// `use_permission` first and hold it for `use_decided` alone.
    pub fn use_(&self, inner: &mut MachinesProvider, uuid: &Uuid) -> (result: Result<GiveBack, Error>)
        ensures
            give_back_view(result) == handle_for(
                uuid_key(*uuid),
                session_use_outcome(
                    old(inner)@,
                    uuid_key(*uuid),
                    machine_decision(
                        self.engine(),
                        self.identity(),
                        old(inner)@,
                        uuid_key(*uuid),
                        "write"@,
                    ),
                ),
            ),
            final(inner)@ == after_session_use(
                old(inner)@,
                uuid_key(*uuid),
                machine_decision(
                    self.engine(),
                    self.identity(),
                    old(inner)@,
                    uuid_key(*uuid),
                    "write"@,
                ),
            ),
    {
        let decision = match inner.get_perm_req(uuid) {
            Some(perm) => self.use_permission(perm.as_str()),
            None => Ok(false),
        };
        Machines::use_decided(inner, uuid, decision)
    }

    /// Hands out the right to block and unblock the machine in the name of
    /// the connection's identity: asks whether that identity may `manage`
    /// on the machine's policy object, and goes by the answer as
    /// `manage_decided` does.
    ///
    /// A connection without an identity is refused.
    pub fn manage(&self, inner: &MachinesProvider, uuid: &Uuid) -> (result: Result<
        MachineManager,
        Error,
    >)
        ensures
            manager_view(result) == handle_for(
                uuid_key(*uuid),
                gate(
                    inner@,
                    uuid_key(*uuid),
                    machine_decision(
                        self.engine(),
                        self.identity(),
                        inner@,
                        uuid_key(*uuid),
                        "manage"@,
                    ),
                ),
            ),
    {
        let decision = match inner.get_perm_req(uuid) {
            Some(perm) => self.manage_permission(perm.as_str()),
            None => Ok(false),
        };
        Machines::manage_decided(inner, uuid, decision)
    }
}

} // verus!
