use vstd::prelude::*;

use crate::text::{decimal, decimal_string};

verus! {

/// Lowest console port handed out.
pub const MIN_PORT: u16 = 5554;

/// Highest console port handed out (inclusive).
pub const MAX_PORT: u16 = 5584;

/// Distance between two consecutive console ports; the bridge port sits
/// right after its console port.
pub const PORT_INCREMENT: u16 = 2;

/// Number of console ports in the range.
pub const SLOT_COUNT: usize = ((MAX_PORT - MIN_PORT) / PORT_INCREMENT + 1) as usize;

/// A console port that can be allocated: even and within the range.
pub open spec fn valid_console_port(p: int) -> bool {
    MIN_PORT <= p <= MAX_PORT && p % 2 == 0
}

/// The console port of the `k`-th slot of the range.
pub open spec fn slot_port(k: int) -> int {
    MIN_PORT + PORT_INCREMENT * k
}

/// The slot that a valid console port occupies.
pub open spec fn slot_index(p: int) -> int {
    (p - MIN_PORT) / (PORT_INCREMENT as int)
}

/// Some name holds console port `p` in the allocation map `m`.
pub open spec fn port_used(m: Map<Seq<char>, u16>, p: int) -> bool {
    exists|n: Seq<char>| #[trigger] m.contains_key(n) && m[n] == p
}

/// What every allocation map satisfies: valid console ports, no port held twice.
pub open spec fn allocation_ok(m: Map<Seq<char>, u16>) -> bool {
    &&& forall|n: Seq<char>| #[trigger] m.contains_key(n) ==> valid_console_port(m[n] as int)
    &&& forall|a: Seq<char>, b: Seq<char>|
        #[trigger] m.contains_key(a) && #[trigger] m.contains_key(b) && a != b ==> m[a] != m[b]
}

/// The console port that first-fit hands out on `m`: the lowest valid port that no
/// name holds.
pub open spec fn is_first_free(m: Map<Seq<char>, u16>, p: int) -> bool {
    &&& valid_console_port(p)
    &&& !port_used(m, p)
    &&& forall|q: int| valid_console_port(q) && q < p ==> port_used(m, q)
}

/// Every valid console port is held by some name.
pub open spec fn range_full(m: Map<Seq<char>, u16>) -> bool {
    forall|q: int| valid_console_port(q) ==> port_used(m, q)
}

/// What allocating for `name` on the map `before` returns, and the map it leaves.
/// A name that holds a pair gets it again and nothing changes; a new name gets the
/// first free console port, or `NoAvailablePorts` when every port is held.
pub open spec fn allocate_outcome(
    before: Map<Seq<char>, u16>,
    name: Seq<char>,
    after: Map<Seq<char>, u16>,
    r: Result<(u16, u16), PortError>,
) -> bool {
    if before.contains_key(name) {
        &&& r == Ok::<(u16, u16), PortError>((before[name], (before[name] + 1) as u16))
        &&& after == before
    } else {
        match r {
            Ok((console, bridge)) => {
                &&& is_first_free(before, console as int)
                &&& bridge == console + 1
                &&& after == before.insert(name, console)
            },
            Err(e) => {
                &&& e == PortError::NoAvailablePorts
                &&& range_full(before)
                &&& after == before
            },
        }
    }
}

#[derive(Debug, Clone, Copy, PartialEq, Eq, Structural)]
pub enum PortError {
    NoAvailablePorts,
    PortInUse(u16),
    InvalidPort(u16),
}

/// The text that describes a port error.
pub open spec fn port_error_text(e: PortError) -> Seq<char> {
    match e {
        PortError::NoAvailablePorts => "No available ports in the valid range"@,
        PortError::PortInUse(p) => "Port "@ + decimal(p as nat) + " is already in use"@,
        PortError::InvalidPort(p) => "Invalid port "@ + decimal(p as nat)
            + ": must be even and between "@ + decimal(MIN_PORT as nat) + " and "@ + decimal(
            MAX_PORT as nat,
        ),
    }
}

impl PortError {
    pub fn message(&self) -> (r: String)
        ensures
            r@ == port_error_text(*self),
    {
        match self {
            PortError::NoAvailablePorts => "No available ports in the valid range".to_owned(),
            PortError::PortInUse(p) => "Port ".to_owned().concat(decimal_string(*p).as_str()).concat(
                " is already in use",
            ),
            PortError::InvalidPort(p) => "Invalid port ".to_owned().concat(
                decimal_string(*p).as_str(),
            ).concat(": must be even and between ").concat(
                decimal_string(MIN_PORT).as_str(),
            ).concat(" and ").concat(decimal_string(MAX_PORT).as_str()),
        }
    }
}

/// Reserves console ports for named instances; the bridge port of an instance is
/// always its console port plus one.
///
/// Slot `k` of `slots` holds the name that owns console port `slot_port(k)`.
pub struct PortManager {
    slots: Vec<Option<String>>,
    names: Ghost<Map<Seq<char>, u16>>,
}

impl View for PortManager {
    type V = Map<Seq<char>, u16>;

    /// Instance name to console port.
    closed spec fn view(&self) -> Map<Seq<char>, u16> {
        self.names@
    }
}

impl PortManager {
    pub closed spec fn wf(&self) -> bool {
        &&& self.slots@.len() == SLOT_COUNT
        &&& forall|k: int|
            0 <= k < SLOT_COUNT && #[trigger] self.slots@[k] is Some ==> {
                &&& self.names@.contains_key(self.slots@[k]->0@)
                &&& self.names@[self.slots@[k]->0@] == slot_port(k)
            }
        &&& forall|n: Seq<char>| #[trigger]
            self.names@.contains_key(n) ==> {
                &&& valid_console_port(self.names@[n] as int)
                &&& self.slots@[slot_index(self.names@[n] as int)] is Some
                &&& self.slots@[slot_index(self.names@[n] as int)]->0@ == n
            }
    }

    proof fn lemma_slots(&self)
        requires
            self.wf(),
        ensures
            allocation_ok(self@),
            forall|p: int|
                valid_console_port(p) ==> (port_used(self@, p) <==> self.slots@[slot_index(
                    p,
                )] is Some),
    {
        assert forall|p: int| valid_console_port(p) implies (port_used(self@, p)
            <==> self.slots@[slot_index(p)] is Some) by {
            let k = slot_index(p);
            assert(slot_port(k) == p);
            if self.slots@[k] is Some {
                assert(self.names@.contains_key(self.slots@[k]->0@));
            }
        }
    }

    /// A well-formed manager holds only valid console ports, none of them twice.
    pub proof fn lemma_allocation_ok(&self)
        requires
            self.wf(),
        ensures
            allocation_ok(self@),
    {
        self.lemma_slots();
    }

    /// An empty allocation map.
    pub fn new() -> (r: Self)
        ensures
            r.wf(),
            r@ == Map::<Seq<char>, u16>::empty(),
    {
        let mut slots: Vec<Option<String>> = Vec::new();
        while slots.len() < SLOT_COUNT
            invariant
                slots@.len() <= SLOT_COUNT,
                forall|k: int| 0 <= k < slots@.len() ==> #[trigger] slots@[k] is None,
            decreases SLOT_COUNT - slots@.len(),
        {
            slots.push(None);
        }
        PortManager { slots, names: Ghost(Map::empty()) }
    }

    /// Whether some instance holds console port `port`.
    pub fn is_port_in_use(&self, port: u16) -> (r: bool)
        requires
            self.wf(),
        ensures
            r == port_used(self@, port as int),
    {
        proof {
            self.lemma_slots();
        }
        if port < MIN_PORT || port > MAX_PORT || port % 2 != 0 {
            return false;
        }
        let k = ((port - MIN_PORT) / PORT_INCREMENT) as usize;
        self.slots[k].is_some()
    }

    /// The slot holding `name`, if any.
    fn find(&self, name: &String) -> (r: Option<usize>)
        requires
            self.wf(),
        ensures
            match r {
                Some(k) => k < SLOT_COUNT && self@.contains_key(name@) && self@[name@] == slot_port(
                    k as int,
                ),
                None => !self@.contains_key(name@),
            },
    {
        let mut k: usize = 0;
        while k < SLOT_COUNT
            invariant
                self.wf(),
                0 <= k <= SLOT_COUNT,
                forall|j: int| 0 <= j < k ==> !(self.slots@[j] is Some && self.slots@[j]->0@ == name@),
            decreases SLOT_COUNT - k,
        {
            match &self.slots[k] {
                Some(s) => {
                    if *s == *name {
                        return Some(k);
                    }
                },
                None => {},
            }
            k += 1;
        }
        proof {
            if self@.contains_key(name@) {
                let j = slot_index(self@[name@] as int);
                assert(self.slots@[j] is Some && self.slots@[j]->0@ == name@);
            }
        }
        None
    }

    /// Reserves a port pair for `name`, or returns the pair it already holds.
    /// A new pair takes the lowest free console port of the range.
    pub fn allocate_ports(&mut self, emulator_name: &str) -> (r: Result<(u16, u16), PortError>)
        requires
            old(self).wf(),
        ensures
            final(self).wf(),
            allocate_outcome(old(self)@, emulator_name@, final(self)@, r),
    {
        let name = emulator_name.to_owned();
        if let Some(k) = self.find(&name) {
            let console = MIN_PORT + PORT_INCREMENT * (k as u16);
            return Ok((console, console + 1));
        }
        proof {
            self.lemma_slots();
        }
        let mut port: u16 = MIN_PORT;
        while port <= MAX_PORT
            invariant
                self.wf(),
                self@ == old(self)@,
                !self@.contains_key(name@),
                name@ == emulator_name@,
                MIN_PORT <= port <= MAX_PORT + PORT_INCREMENT,
                port % 2 == 0,
                forall|q: int| valid_console_port(q) && q < port ==> port_used(self@, q),
            decreases MAX_PORT + PORT_INCREMENT - port,
        {
            if !self.is_port_in_use(port) {
                let k = ((port - MIN_PORT) / PORT_INCREMENT) as usize;
                let ghost before = *self;
                self.slots.set(k, Some(name));
                proof {
                    let n = emulator_name@;
                    self.names@ = before.names@.insert(n, port);
                    before.lemma_slots();
                    assert(slot_port(k as int) == port);
                    assert forall|j: int|
                        0 <= j < SLOT_COUNT && #[trigger] self.slots@[j] is Some implies {
                        &&& self.names@.contains_key(self.slots@[j]->0@)
                        &&& self.names@[self.slots@[j]->0@] == slot_port(j)
                    } by {
                        if j != k {
                            assert(before.slots@[j] is Some);
                            assert(before.names@.contains_key(before.slots@[j]->0@));
                            assert(before.slots@[j]->0@ != n);
                        }
                    }
                    assert forall|m: Seq<char>| #[trigger] self.names@.contains_key(m) implies {
                        &&& valid_console_port(self.names@[m] as int)
                        &&& self.slots@[slot_index(self.names@[m] as int)] is Some
                        &&& self.slots@[slot_index(self.names@[m] as int)]->0@ == m
                    } by {
                        if m != n {
                            assert(before.names@.contains_key(m));
                            let pm = before.names@[m] as int;
                            assert(slot_index(pm) != k) by {
                                assert(port_used(before@, pm));
                            }
                        }
                    }
                }
                return Ok((port, port + 1));
            }
            port = port + PORT_INCREMENT;
        }
        Err(PortError::NoAvailablePorts)
    }

    /// Gives up the port pair held by `name`; nothing happens when it holds none.
    pub fn release_ports(&mut self, emulator_name: &str)
        requires
            old(self).wf(),
        ensures
            final(self).wf(),
            final(self)@ == old(self)@.remove(emulator_name@),
    {
        let name = emulator_name.to_owned();
        if let Some(k) = self.find(&name) {
            let ghost before = *self;
            self.slots.set(k, None);
            proof {
                let n = emulator_name@;
                self.names@ = before.names@.remove(n);
                assert forall|j: int|
                    0 <= j < SLOT_COUNT && #[trigger] self.slots@[j] is Some implies {
                    &&& self.names@.contains_key(self.slots@[j]->0@)
                    &&& self.names@[self.slots@[j]->0@] == slot_port(j)
                } by {
                    assert(before.slots@[j] is Some);
                    assert(before.names@.contains_key(before.slots@[j]->0@));
                    assert(before.slots@[j]->0@ != n);
                }
                assert forall|m: Seq<char>| #[trigger] self.names@.contains_key(m) implies {
                    &&& valid_console_port(self.names@[m] as int)
                    &&& self.slots@[slot_index(self.names@[m] as int)] is Some
                    &&& self.slots@[slot_index(self.names@[m] as int)]->0@ == m
                } by {
                    assert(before.names@.contains_key(m));
                    assert(slot_index(before.names@[m] as int) != k);
                }
            }
        } else {
            assert(self@.remove(emulator_name@) =~= self@);
        }
    }

    /// The port pair held by `name`, if any; nothing changes.
    pub fn get_ports(&self, emulator_name: &str) -> (r: Option<(u16, u16)>)
        requires
            self.wf(),
        ensures
            r == (if self@.contains_key(emulator_name@) {
                Some(((self@[emulator_name@]), (self@[emulator_name@] + 1) as u16))
            } else {
                None::<(u16, u16)>
            }),
    {
        let name = emulator_name.to_owned();
        match self.find(&name) {
            Some(k) => {
                let console = MIN_PORT + PORT_INCREMENT * (k as u16);
                Some((console, console + 1))
            },
            None => None,
        }
    }

    /// Accepts exactly the even ports of the range.
    pub fn validate_port(&self, port: u16) -> (r: Result<(), PortError>)
        ensures
            r == (if valid_console_port(port as int) {
                Ok::<(), PortError>(())
            } else {
                Err(PortError::InvalidPort(port))
            }),
    {
        if port < MIN_PORT || port > MAX_PORT || port % 2 != 0 {
            return Err(PortError::InvalidPort(port));
        }
        Ok(())
    }
}

} // verus!
