use vstd::prelude::*;

use crate::ports::{
    allocate_outcome, allocation_ok, is_first_free, port_used, range_full, slot_port,
    valid_console_port, PortError, SLOT_COUNT,
};

verus! {

/// Allocation keeps the map free of invalid and doubly held ports.
pub proof fn lemma_allocate_keeps_ok(
    before: Map<Seq<char>, u16>,
    name: Seq<char>,
    after: Map<Seq<char>, u16>,
    r: Result<(u16, u16), PortError>,
)
    requires
        allocation_ok(before),
        allocate_outcome(before, name, after, r),
    ensures
        allocation_ok(after),
{
    if !before.contains_key(name) {
        if let Ok((c, b)) = r {
            assert forall|x: Seq<char>, y: Seq<char>|
                #[trigger] after.contains_key(x) && #[trigger] after.contains_key(y) && x
                    != y implies after[x] != after[y] by {
                if x == name {
                    assert(before.contains_key(y));
                    assert(port_used(before, before[y] as int));
                } else if y == name {
                    assert(before.contains_key(x));
                    assert(port_used(before, before[x] as int));
                }
            }
        }
    }
}

/// Two different names, allocated one after the other, get disjoint port pairs;
/// each console port is even and within the range, each bridge port is the
/// console port plus one.
pub proof fn lemma_distinct_names_disjoint(
    m0: Map<Seq<char>, u16>,
    n1: Seq<char>,
    m1: Map<Seq<char>, u16>,
    pair1: (u16, u16),
    n2: Seq<char>,
    m2: Map<Seq<char>, u16>,
    pair2: (u16, u16),
)
    requires
        allocation_ok(m0),
        n1 != n2,
        allocate_outcome(m0, n1, m1, Ok(pair1)),
        allocate_outcome(m1, n2, m2, Ok(pair2)),
    ensures
        valid_console_port(pair1.0 as int),
        valid_console_port(pair2.0 as int),
        pair1.1 == pair1.0 + 1,
        pair2.1 == pair2.0 + 1,
        pair1.0 != pair2.0,
        pair1.0 != pair2.1,
        pair1.1 != pair2.0,
        pair1.1 != pair2.1,
{
    lemma_allocate_keeps_ok(m0, n1, m1, Ok(pair1));
    lemma_allocate_keeps_ok(m1, n2, m2, Ok(pair2));
    assert(m1.contains_key(n1) && m1[n1] == pair1.0);
    assert(m2.contains_key(n2) && m2[n2] == pair2.0);
    assert(m2.contains_key(n1) && m2[n1] == pair1.0);
}

/// Allocating twice for the same name gives the same answer, and the second call
/// changes nothing.
pub proof fn lemma_allocate_idempotent(
    m0: Map<Seq<char>, u16>,
    name: Seq<char>,
    m1: Map<Seq<char>, u16>,
    r1: Result<(u16, u16), PortError>,
    m2: Map<Seq<char>, u16>,
    r2: Result<(u16, u16), PortError>,
)
    requires
        allocate_outcome(m0, name, m1, r1),
        allocate_outcome(m1, name, m2, r2),
    ensures
        r2 == r1,
        m2 == m1,
{
    if !m0.contains_key(name) {
        match r1 {
            Ok((c, b)) => {
                assert(m1.contains_key(name) && m1[name] == c);
            },
            Err(_) => {
                assert(!m1.contains_key(name));
                if let Ok((c, b)) = r2 {
                    assert(is_first_free(m1, c as int));
                    assert(port_used(m1, c as int));
                }
            },
        }
    }
}

/// Once a name is released, a new name takes over its console port whenever that
/// port is the lowest free one.
pub proof fn lemma_release_then_reuse(
    m0: Map<Seq<char>, u16>,
    old_name: Seq<char>,
    new_name: Seq<char>,
    m2: Map<Seq<char>, u16>,
    r: Result<(u16, u16), PortError>,
)
    requires
        allocation_ok(m0),
        m0.contains_key(old_name),
        !m0.remove(old_name).contains_key(new_name),
        forall|q: int|
            valid_console_port(q) && q < m0[old_name] ==> port_used(m0.remove(old_name), q),
        allocate_outcome(m0.remove(old_name), new_name, m2, r),
    ensures
        r == Ok::<(u16, u16), PortError>((m0[old_name], (m0[old_name] + 1) as u16)),
{
    let m1 = m0.remove(old_name);
    let p = m0[old_name];
    assert(!port_used(m1, p as int)) by {
        if port_used(m1, p as int) {
            let w = choose|w: Seq<char>| #[trigger] m1.contains_key(w) && m1[w] == p;
            assert(m0.contains_key(w) && w != old_name);
        }
    }
    match r {
        Ok((c, b)) => {
            assert(is_first_free(m1, c as int));
            if c < p {
                assert(port_used(m1, c as int));
            }
            if p < c {
                assert(port_used(m1, p as int));
            }
        },
        Err(_) => {
            assert(range_full(m1));
            assert(port_used(m1, p as int));
        },
    }
}

/// When exactly the first `k` console ports of the range are held, a new name
/// gets port number `k`; when all of them are held, allocation fails.
pub proof fn lemma_fill_in_order(
    m0: Map<Seq<char>, u16>,
    k: int,
    name: Seq<char>,
    m1: Map<Seq<char>, u16>,
    r: Result<(u16, u16), PortError>,
)
    requires
        0 <= k <= SLOT_COUNT,
        !m0.contains_key(name),
        forall|q: int| port_used(m0, q) <==> exists|i: int| 0 <= i < k && q == slot_port(i),
        allocate_outcome(m0, name, m1, r),
    ensures
        k < SLOT_COUNT ==> r == Ok::<(u16, u16), PortError>(
            (slot_port(k) as u16, (slot_port(k) + 1) as u16),
        ),
        k == SLOT_COUNT ==> r == Err::<(u16, u16), PortError>(PortError::NoAvailablePorts),
{
    if k < SLOT_COUNT {
        let p = slot_port(k);
        assert(valid_console_port(p));
        assert(!port_used(m0, p)) by {
            if port_used(m0, p) {
                let i = choose|i: int| 0 <= i < k && p == slot_port(i);
            }
        }
        match r {
            Ok((c, b)) => {
                assert(is_first_free(m0, c as int));
                if c < p {
                    let i = (c - slot_port(0)) / 2;
                    assert(c == slot_port(i) && 0 <= i < k);
                    assert(port_used(m0, c as int));
                }
                if p < c {
                    assert(port_used(m0, p));
                }
            },
            Err(_) => {
                assert(port_used(m0, p));
            },
        }
    } else {
        if let Ok((c, b)) = r {
            let c = c as int;
            assert(is_first_free(m0, c));
            let i = (c - slot_port(0)) / 2;
            assert(c == slot_port(i));
            assert(0 <= i < k);
            assert(port_used(m0, c));
        }
    }
}

} // verus!
