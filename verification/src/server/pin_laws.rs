//! What a PIN does, over every sequence of attempts.

use crate::error::LocalSendError;
use crate::protocol::{PeerIp, PrepareUploadRequest, SessionId, Status};
use crate::server::handlers::PrepareUploadStep;
use crate::server::pin::{PinGate, PinVerdict};
use crate::server::server::LocalSendServer;
use crate::server::state::ServerState;
use crate::server::web_share::{PrepareDownloadStep, WebShareFile};
use crate::text::{opt_text, opt_view};
use vstd::prelude::*;

verus! {

/// The wrong PINs among the first `n` attempts that came from `ip`. No PIN and an
/// empty one are no attempt.
pub open spec fn wrong_pins(
    given: Seq<Option<&str>>,
    from: Seq<PeerIp>,
    n: int,
    pin: Seq<char>,
    ip: PeerIp,
) -> int
    decreases n,
{
    if n <= 0 {
        0
    } else {
        let wrong = from[n - 1] == ip && given[n - 1] is Some && given[n - 1]->0@.len() > 0
            && given[n - 1]->0@ != pin;
        wrong_pins(given, from, n - 1, pin, ip) + (if wrong {
            1int
        } else {
            0
        })
    }
}

/// True when the counts are as `n` attempts leave them.
spec fn left_by(
    gate: PinGate,
    pin: Option<Seq<char>>,
    given: Seq<Option<&str>>,
    from: Seq<PeerIp>,
    n: int,
) -> bool {
    &&& gate.expected() == pin
    &&& pin is Some ==> forall|ip: PeerIp| #[trigger]
        gate.failures_of(ip) == (if wrong_pins(given, from, n, pin->0, ip) < 3 {
            wrong_pins(given, from, n, pin->0, ip)
        } else {
            3
        })
}

proof fn lemma_wrong_pins_grow(
    given: Seq<Option<&str>>,
    from: Seq<PeerIp>,
    n: int,
    pin: Seq<char>,
    ip: PeerIp,
)
    ensures
        wrong_pins(given, from, n, pin, ip) >= 0,
    decreases n,
{
    if n > 0 {
        lemma_wrong_pins_grow(given, from, n - 1, pin, ip);
    }
}

proof fn lemma_one_more(
    gate: PinGate,
    pin: Option<Seq<char>>,
    given: Seq<Option<&str>>,
    from: Seq<PeerIp>,
    n: int,
    after: PinGate,
)
    requires
        n >= 0,
        left_by(gate, pin, given, from, n),
        gate.checked(opt_view(given[n]), from[n], after),
    ensures
        left_by(after, pin, given, from, n + 1),
{
    if pin is Some {
        assert forall|ip: PeerIp| #[trigger] after.failures_of(ip) == (if wrong_pins(
            given,
            from,
            n + 1,
            pin->0,
            ip,
        ) < 3 {
            wrong_pins(given, from, n + 1, pin->0, ip)
        } else {
            3
        }) by {
            lemma_wrong_pins_grow(given, from, n, pin->0, ip);
            assert(gate.failures_of(ip) >= 0);
            assert(gate.failures_of(from[n]) >= 0);
        }
    }
}

/// What an attempt is told follows from the PIN and the attempts before:
/// without a PIN everybody passes; with one, an address passes with that PIN
/// unless three wrong ones came from it before, and then it is locked out for
/// good. No other address matters.
pub proof fn law_verdicts_follow_from_the_attempts(
    pin: Option<String>,
    gate: PinGate,
    calls: Seq<&mut PinGate>,
    given: Seq<Option<&str>>,
    from: Seq<PeerIp>,
    verdicts: Seq<PinVerdict>,
    i: int,
)
    requires
        call_ensures(PinGate::new, (pin,), gate),
        forall|j: int|
            0 <= j < calls.len() ==> call_ensures(
                PinGate::check,
                (#[trigger] calls[j], given[j], from[j]),
                verdicts[j],
            ),
        0 <= i < calls.len(),
        *calls[0] == gate,
        forall|j: int, k: int|
            #![trigger calls[j], calls[k]]
            0 <= j && k == j + 1 && k < calls.len() ==> *calls[k] == *final(calls[j]),
    ensures
        pin is None ==> verdicts[i] == PinVerdict::Granted,
        pin matches Some(right) ==> verdicts[i] == (if wrong_pins(given, from, i, right@, from[i])
            >= 3 {
            PinVerdict::LockedOut
        } else if given[i] is Some && given[i]->0@ == right@ {
            PinVerdict::Granted
        } else {
            PinVerdict::Unauthorized
        }),
{
    lemma_gate_after(pin, gate, calls, given, from, verdicts, i);
    assert(call_ensures(PinGate::check, (calls[i], given[i], from[i]), verdicts[i]));
    if pin is Some {
        assert(calls[i].failures_of(from[i]) >= 0);
    }
}

proof fn lemma_gate_after(
    pin: Option<String>,
    gate: PinGate,
    calls: Seq<&mut PinGate>,
    given: Seq<Option<&str>>,
    from: Seq<PeerIp>,
    verdicts: Seq<PinVerdict>,
    i: int,
)
    requires
        call_ensures(PinGate::new, (pin,), gate),
        forall|j: int|
            0 <= j < calls.len() ==> call_ensures(
                PinGate::check,
                (#[trigger] calls[j], given[j], from[j]),
                verdicts[j],
            ),
        0 <= i < calls.len(),
        *calls[0] == gate,
        forall|j: int, k: int|
            #![trigger calls[j], calls[k]]
            0 <= j && k == j + 1 && k < calls.len() ==> *calls[k] == *final(calls[j]),
    ensures
        left_by(*calls[i], opt_text(pin), given, from, i),
    decreases i,
{
    if i > 0 {
        lemma_gate_after(pin, gate, calls, given, from, verdicts, i - 1);
        assert(call_ensures(
            PinGate::check,
            (calls[i - 1], given[i - 1], from[i - 1]),
            verdicts[i - 1],
        ));
        assert(*calls[i] == *final(calls[i - 1]));
        lemma_one_more(*calls[i - 1], opt_text(pin), given, from, i - 1, *calls[i]);
    }
}

/// The PIN of a server guards its uploads: an offer is answered 429 exactly
/// where three wrong PINs came from its address before, 401 exactly where it
/// brings no PIN or a wrong one otherwise, and goes on in any other case.
/// The PIN is the one that the server was set up with. Whatever else happens in
/// between does not matter while it leaves the count alone.
pub proof fn law_offers_need_the_pin(
    server: &mut LocalSendServer,
    port: u16,
    calls: Seq<&mut ServerState>,
    given: Seq<Option<&str>>,
    from: Seq<PeerIp>,
    offers: Seq<PrepareUploadRequest>,
    times: Seq<u64>,
    steps: Seq<PrepareUploadStep>,
    i: int,
)
    requires
        call_ensures(LocalSendServer::started, (server, port), ()),
        forall|j: int|
            0 <= j < calls.len() ==> call_ensures(
                ServerState::begin_prepare_upload,
                (#[trigger] calls[j], given[j], from[j], &offers[j], times[j]),
                steps[j],
            ),
        0 <= i < calls.len(),
        calls[0].pin_gate == final(server).state->0.pin_gate,
        forall|j: int, k: int|
            #![trigger calls[j], calls[k]]
            0 <= j && k == j + 1 && k < calls.len() ==> calls[k].pin_gate == final(calls[j]).pin_gate,
    ensures
        ({
            let pin = old(server).pin;
            let locked = pin is Some && wrong_pins(given, from, i, pin->0@, from[i]) >= 3;
            let right = pin is None || given[i] is Some && given[i]->0@ == pin->0@;
            &&& (steps[i] matches PrepareUploadStep::Reply(status) && status
                == Status::TooManyRequests) <==> locked
            &&& (steps[i] matches PrepareUploadStep::Reply(status) && status
                == Status::Unauthorized) <==> !locked && !right
        }),
{
    lemma_offers_after(server, port, calls, given, from, offers, times, steps, i);
    assert(call_ensures(
        ServerState::begin_prepare_upload,
        (calls[i], given[i], from[i], &offers[i], times[i]),
        steps[i],
    ));
    if old(server).pin is Some {
        assert(calls[i].pin_gate.failures_of(from[i]) >= 0);
    }
}

proof fn lemma_offers_after(
    server: &mut LocalSendServer,
    port: u16,
    calls: Seq<&mut ServerState>,
    given: Seq<Option<&str>>,
    from: Seq<PeerIp>,
    offers: Seq<PrepareUploadRequest>,
    times: Seq<u64>,
    steps: Seq<PrepareUploadStep>,
    i: int,
)
    requires
        call_ensures(LocalSendServer::started, (server, port), ()),
        forall|j: int|
            0 <= j < calls.len() ==> call_ensures(
                ServerState::begin_prepare_upload,
                (#[trigger] calls[j], given[j], from[j], &offers[j], times[j]),
                steps[j],
            ),
        0 <= i < calls.len(),
        calls[0].pin_gate == final(server).state->0.pin_gate,
        forall|j: int, k: int|
            #![trigger calls[j], calls[k]]
            0 <= j && k == j + 1 && k < calls.len() ==> calls[k].pin_gate == final(calls[j]).pin_gate,
    ensures
        left_by(calls[i].pin_gate, opt_text(old(server).pin), given, from, i),
    decreases i,
{
    if i > 0 {
        lemma_offers_after(server, port, calls, given, from, offers, times, steps, i - 1);
        assert(call_ensures(
            ServerState::begin_prepare_upload,
            (calls[i - 1], given[i - 1], from[i - 1], &offers[i - 1], times[i - 1]),
            steps[i - 1],
        ));
        assert(calls[i].pin_gate == final(calls[i - 1]).pin_gate);
        lemma_one_more(
            calls[i - 1].pin_gate,
            opt_text(old(server).pin),
            given,
            from,
            i - 1,
            calls[i].pin_gate,
        );
    }
}

/// The PIN of a share guards it in the same way: a browser without an approved
/// session of its own is answered 429 exactly where three wrong PINs came from its address before, 401
/// exactly where it brings no PIN or a wrong one otherwise, and is let in or
/// asked about in any other case.
pub proof fn law_shares_need_the_pin(
    server: &mut LocalSendServer,
    files: Vec<WebShareFile>,
    pin: Option<String>,
    auto_accept: bool,
    calls: Seq<&mut ServerState>,
    known: Seq<Option<&SessionId>>,
    given: Seq<Option<&str>>,
    from: Seq<PeerIp>,
    steps: Seq<PrepareDownloadStep>,
    i: int,
)
    requires
        call_ensures(
            LocalSendServer::start_web_share,
            (server, files, pin, auto_accept),
            Ok::<(), LocalSendError>(()),
        ),
        forall|j: int|
            0 <= j < calls.len() ==> call_ensures(
                ServerState::begin_prepare_download,
                (#[trigger] calls[j], known[j], given[j], from[j]),
                steps[j],
            ),
        0 <= i < calls.len(),
        forall|j: int|
            #![trigger calls[j]]
            0 <= j < calls.len() ==> {
                let sessions = calls[j].web_share->0.sessions@;
                &&& calls[j].web_share is Some
                &&& known[j] is None || !sessions.contains_key(known[j]->0.text@)
                    || !sessions[known[j]->0.text@].approved || sessions[known[j]->0.text@].ip
                    != from[j]
            },
        calls[0].web_share->0.pin_gate == final(server).state->0.web_share->0.pin_gate,
        forall|j: int, k: int|
            #![trigger calls[j], calls[k]]
            0 <= j && k == j + 1 && k < calls.len() ==> calls[k].web_share->0.pin_gate
                == final(calls[j]).web_share->0.pin_gate,
    ensures
        ({
            let locked = pin is Some && wrong_pins(given, from, i, pin->0@, from[i]) >= 3;
            let right = pin is None || given[i] is Some && given[i]->0@ == pin->0@;
            &&& locked ==> steps[i] is Refuse && steps[i]->Refuse_0.status
                == Status::TooManyRequests
            &&& !locked && !right ==> steps[i] is Refuse && steps[i]->Refuse_0.status
                == Status::Unauthorized
            &&& !locked && right ==> if calls[i].web_share->0.auto_accept {
                steps[i] is Files
            } else {
                steps[i] is Ask
            }
        }),
{
    lemma_shares_after(server, files, pin, auto_accept, calls, known, given, from, steps, i);
    assert(calls[i].web_share is Some);
    assert(call_ensures(
        ServerState::begin_prepare_download,
        (calls[i], known[i], given[i], from[i]),
        steps[i],
    ));
    if pin is Some {
        assert(calls[i].web_share->0.pin_gate.failures_of(from[i]) >= 0);
    }
}

proof fn lemma_shares_after(
    server: &mut LocalSendServer,
    files: Vec<WebShareFile>,
    pin: Option<String>,
    auto_accept: bool,
    calls: Seq<&mut ServerState>,
    known: Seq<Option<&SessionId>>,
    given: Seq<Option<&str>>,
    from: Seq<PeerIp>,
    steps: Seq<PrepareDownloadStep>,
    i: int,
)
    requires
        call_ensures(
            LocalSendServer::start_web_share,
            (server, files, pin, auto_accept),
            Ok::<(), LocalSendError>(()),
        ),
        forall|j: int|
            0 <= j < calls.len() ==> call_ensures(
                ServerState::begin_prepare_download,
                (#[trigger] calls[j], known[j], given[j], from[j]),
                steps[j],
            ),
        0 <= i < calls.len(),
        forall|j: int|
            #![trigger calls[j]]
            0 <= j < calls.len() ==> {
                let sessions = calls[j].web_share->0.sessions@;
                &&& calls[j].web_share is Some
                &&& known[j] is None || !sessions.contains_key(known[j]->0.text@)
                    || !sessions[known[j]->0.text@].approved || sessions[known[j]->0.text@].ip
                    != from[j]
            },
        calls[0].web_share->0.pin_gate == final(server).state->0.web_share->0.pin_gate,
        forall|j: int, k: int|
            #![trigger calls[j], calls[k]]
            0 <= j && k == j + 1 && k < calls.len() ==> calls[k].web_share->0.pin_gate
                == final(calls[j]).web_share->0.pin_gate,
    ensures
        left_by(calls[i].web_share->0.pin_gate, opt_text(pin), given, from, i),
    decreases i,
{
    if i > 0 {
        lemma_shares_after(server, files, pin, auto_accept, calls, known, given, from, steps, i - 1);
        assert(calls[i - 1].web_share is Some);
        assert(call_ensures(
            ServerState::begin_prepare_download,
            (calls[i - 1], known[i - 1], given[i - 1], from[i - 1]),
            steps[i - 1],
        ));
        assert(calls[i].web_share->0.pin_gate == final(calls[i - 1]).web_share->0.pin_gate);
        lemma_one_more(
            calls[i - 1].web_share->0.pin_gate,
            opt_text(pin),
            given,
            from,
            i - 1,
            calls[i].web_share->0.pin_gate,
        );
    }
}

} // verus!
