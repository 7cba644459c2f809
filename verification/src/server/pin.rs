//! The PIN that senders must present, and the limit on wrong attempts.

use crate::protocol::PeerIp;
use crate::text::{opt_text, opt_view, same_text};
use vstd::prelude::*;

verus! {

/// Wrong attempts after which an address is locked out.
pub const MAX_PIN_ATTEMPTS: u8 = 3;

/// What a request is told of its PIN.
#[derive(Debug, Clone, Copy, PartialEq, Eq, Structural)]
pub enum PinVerdict {
    /// The request may go on.
    Granted,
    /// A PIN is missing or wrong.
    Unauthorized,
    /// Too many wrong attempts came from the address.
    LockedOut,
}

/// The expected PIN and the wrong attempts of each address.
#[derive(Debug)]
pub struct PinGate {
    pin: Option<String>,
    failures: Vec<(PeerIp, u8)>,
}

/// The number that the first entry of `ip` holds.
spec fn count_of(s: Seq<(PeerIp, u8)>, ip: PeerIp) -> nat
    decreases s.len(),
{
    if s.len() == 0 {
        0
    } else if s[0].0 == ip {
        s[0].1 as nat
    } else {
        count_of(s.drop_first(), ip)
    }
}

proof fn lemma_count_at(s: Seq<(PeerIp, u8)>, ip: PeerIp, i: int)
    requires
        0 <= i < s.len(),
        s[i].0 == ip,
        forall|j: int| 0 <= j < i ==> (#[trigger] s[j]).0 != ip,
    ensures
        count_of(s, ip) == s[i].1 as nat,
    decreases s.len(),
{
    if i > 0 {
        assert(s[0].0 != ip);
        assert(s.drop_first()[i - 1] == s[i]);
        assert forall|j: int| 0 <= j < i - 1 implies (#[trigger] s.drop_first()[j]).0 != ip by {
            assert(s[j + 1].0 != ip);
        }
        lemma_count_at(s.drop_first(), ip, i - 1);
    }
}

proof fn lemma_count_none(s: Seq<(PeerIp, u8)>, ip: PeerIp)
    requires
        forall|j: int| 0 <= j < s.len() ==> (#[trigger] s[j]).0 != ip,
    ensures
        count_of(s, ip) == 0,
    decreases s.len(),
{
    if s.len() > 0 {
        assert(s[0].0 != ip);
        assert forall|j: int| 0 <= j < s.drop_first().len() implies (#[trigger] s.drop_first()[j]).0
            != ip by {
            assert(s[j + 1].0 != ip);
        }
        lemma_count_none(s.drop_first(), ip);
    }
}

proof fn lemma_count_update(s: Seq<(PeerIp, u8)>, i: int, n: u8, ip: PeerIp)
    requires
        0 <= i < s.len(),
        s[i].0 != ip,
    ensures
        count_of(s.update(i, (s[i].0, n)), ip) == count_of(s, ip),
    decreases s.len(),
{
    let t = s.update(i, (s[i].0, n));
    if i == 0 {
        assert(t.drop_first() =~= s.drop_first());
    } else {
        assert(t[0] == s[0]);
        assert(t.drop_first() =~= s.drop_first().update(i - 1, (s.drop_first()[i - 1].0, n)));
        if s[0].0 != ip {
            lemma_count_update(s.drop_first(), i - 1, n, ip);
        }
    }
}

proof fn lemma_count_push(s: Seq<(PeerIp, u8)>, entry: (PeerIp, u8), ip: PeerIp)
    requires
        entry.0 != ip,
    ensures
        count_of(s.push(entry), ip) == count_of(s, ip),
    decreases s.len(),
{
    if s.len() == 0 {
        assert(s.push(entry).drop_first() =~= s);
    } else {
        assert(s.push(entry)[0] == s[0]);
        assert(s.push(entry).drop_first() =~= s.drop_first().push(entry));
        if s[0].0 != ip {
            lemma_count_push(s.drop_first(), entry, ip);
        }
    }
}

impl PinGate {
    /// The PIN that is asked for.
    pub closed spec fn expected(self) -> Option<Seq<char>> {
        opt_text(self.pin)
    }

    /// The wrong attempts that came from `ip`.
    pub closed spec fn failures_of(self, ip: PeerIp) -> nat {
        count_of(self.failures@, ip)
    }

    /// What a request with this PIN from this address is told. Without an
    /// expected PIN every request may go on; with one, an address with too many
    /// wrong attempts is locked out, whatever it presents.
    pub open spec fn verdict(self, provided: Option<Seq<char>>, ip: PeerIp) -> PinVerdict {
        match self.expected() {
            None => PinVerdict::Granted,
            Some(pin) => if self.failures_of(ip) >= MAX_PIN_ATTEMPTS {
                PinVerdict::LockedOut
            } else if provided == Some(pin) {
                PinVerdict::Granted
            } else {
                PinVerdict::Unauthorized
            },
        }
    }

    /// True when the attempt counts: a PIN was presented, and it is wrong.
    pub open spec fn counts(self, provided: Option<Seq<char>>, ip: PeerIp) -> bool {
        &&& self.verdict(provided, ip) == PinVerdict::Unauthorized
        &&& provided matches Some(p) && p.len() > 0
    }

    /// What a check changes: only a wrong PIN is counted, for its address.
    pub open spec fn checked(
        self,
        provided: Option<Seq<char>>,
        ip: PeerIp,
        after: PinGate,
    ) -> bool {
        &&& after.expected() == self.expected()
        &&& forall|other: PeerIp| #[trigger]
            after.failures_of(other) == self.failures_of(other) + (if other == ip && self.counts(
                provided,
                ip,
            ) {
                1nat
            } else {
                0nat
            })
    }

    /// Asks for `pin`, or lets every request pass.
    pub fn new(pin: Option<String>) -> (res: Self)
        ensures
            res.expected() == opt_text(pin),
            forall|ip: PeerIp| #[trigger] res.failures_of(ip) == 0,
    {
        PinGate { pin, failures: Vec::new() }
    }

    /// Checks the PIN of a request and counts a wrong one.
    pub fn check(&mut self, provided: Option<&str>, ip: PeerIp) -> (res: PinVerdict)
        ensures
            res == old(self).verdict(opt_view(provided), ip),
            old(self).checked(opt_view(provided), ip, *final(self)),
    {
        let right: bool;
        match &self.pin {
            None => {
                return PinVerdict::Granted;
            },
            Some(pin) => {
                right = match provided {
                    Some(p) => same_text(p, pin.as_str()),
                    None => false,
                };
            },
        }
        let given = match provided {
            Some(p) => !p.is_empty(),
            None => false,
        };
        let ghost before = self.failures@;
        let mut i: usize = 0;
        while i < self.failures.len() && self.failures[i].0 != ip
            invariant
                i <= self.failures.len(),
                self.failures@ == before,
                self.pin == old(self).pin,
                forall|j: int| 0 <= j < i ==> (#[trigger] before[j]).0 != ip,
            decreases self.failures.len() - i,
        {
            i = i + 1;
        }
        let count: u8 = if i < self.failures.len() {
            self.failures[i].1
        } else {
            0
        };
        proof {
            if i < before.len() {
                lemma_count_at(before, ip, i as int);
            } else {
                lemma_count_none(before, ip);
            }
        }
        if count >= MAX_PIN_ATTEMPTS {
            return PinVerdict::LockedOut;
        }
        if right {
            return PinVerdict::Granted;
        }
        if given {
            if i < self.failures.len() {
                self.failures.set(i, (ip, count + 1));
                proof {
                    let after = self.failures@;
                    assert(after =~= before.update(i as int, (before[i as int].0, (count + 1) as u8)));
                    lemma_count_at(after, ip, i as int);
                    assert forall|other: PeerIp| other != ip implies #[trigger] count_of(after, other)
                        == count_of(before, other) by {
                        lemma_count_update(before, i as int, (count + 1) as u8, other);
                    }
                }
            } else {
                self.failures.push((ip, 1));
                proof {
                    let after = self.failures@;
                    lemma_count_at(after, ip, i as int);
                    assert forall|other: PeerIp| other != ip implies #[trigger] count_of(after, other)
                        == count_of(before, other) by {
                        lemma_count_push(before, (ip, 1u8), other);
                    }
                }
            }
        }
        PinVerdict::Unauthorized
    }
}

/// Three wrong PINs from an address lock it out: the three are answered
/// `Unauthorized`, and from then on even the right PIN is answered `LockedOut`.
/// Other addresses notice nothing.
pub proof fn law_three_wrong_pins_lock_out(
    gates: Seq<PinGate>,
    tries: Seq<Seq<char>>,
    ip: PeerIp,
    later: Option<Seq<char>>,
    other: PeerIp,
)
    requires
        gates.len() == 4,
        tries.len() == 3,
        gates[0].expected() is Some,
        gates[0].failures_of(ip) == 0,
        forall|i: int|
            0 <= i < 3 ==> (#[trigger] tries[i]).len() > 0 && tries[i] != gates[0].expected()->0,
        forall|i: int|
            0 <= i < 3 ==> (#[trigger] gates[i]).checked(Some(tries[i]), ip, gates[i + 1]),
        other != ip,
    ensures
        forall|i: int|
            0 <= i < 3 ==> #[trigger] gates[i].verdict(Some(tries[i]), ip)
                == PinVerdict::Unauthorized,
        gates[3].verdict(later, ip) == PinVerdict::LockedOut,
        gates[3].verdict(later, other) == gates[0].verdict(later, other),
{
    assert(gates[0].checked(Some(tries[0]), ip, gates[1]));
    assert(gates[1].checked(Some(tries[1]), ip, gates[2]));
    assert(gates[2].checked(Some(tries[2]), ip, gates[3]));
    assert(gates[1].failures_of(ip) == 1);
    assert(gates[2].failures_of(ip) == 2);
    assert(gates[3].failures_of(ip) == 3);
    assert(gates[1].failures_of(other) == gates[0].failures_of(other));
    assert(gates[2].failures_of(other) == gates[0].failures_of(other));
    assert(gates[3].failures_of(other) == gates[0].failures_of(other));
    assert forall|i: int| 0 <= i < 3 implies #[trigger] gates[i].verdict(Some(tries[i]), ip)
        == PinVerdict::Unauthorized by {
        assert(tries[i] != gates[0].expected()->0);
    }
}

/// An address that is locked out stays locked out, whatever it or any other
/// address presents afterwards.
pub proof fn law_lock_out_is_permanent(
    gate: PinGate,
    provided: Option<Seq<char>>,
    from: PeerIp,
    after: PinGate,
    ip: PeerIp,
    first: Option<Seq<char>>,
    later: Option<Seq<char>>,
)
    requires
        gate.verdict(first, ip) == PinVerdict::LockedOut,
        gate.checked(provided, from, after),
    ensures
        after.verdict(later, ip) == PinVerdict::LockedOut,
{
    assert(after.failures_of(ip) >= gate.failures_of(ip));
}

/// Without an expected PIN no request is ever stopped, and no check changes
/// that.
pub proof fn law_no_pin_grants_all(
    gate: PinGate,
    provided: Option<Seq<char>>,
    ip: PeerIp,
    after: PinGate,
)
    requires
        gate.expected() is None,
        gate.checked(provided, ip, after),
    ensures
        gate.verdict(provided, ip) == PinVerdict::Granted,
        after.expected() is None,
        after.failures_of(ip) == gate.failures_of(ip),
{
}

} // verus!
