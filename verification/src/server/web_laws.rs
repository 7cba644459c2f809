//! What holds of browser shares as a whole.

use crate::protocol::{PeerIp, Status};
use crate::server::pin::{law_three_wrong_pins_lock_out, PinGate};
use crate::server::state::ServerState;
use crate::server::web_share::{
    disposition, quotable, without_slash, PrepareDownloadResponse, PrepareDownloadStep, WebRefusal,
    WebShareFile,
};
use vstd::prelude::*;

verus! {

/// A download succeeds exactly for a file of the running share, asked for from
/// the address of an approved session; everything else is answered 403.
pub proof fn law_download_needs_approval(
    state: ServerState,
    session_id: Seq<char>,
    file_id: Seq<char>,
    peer: PeerIp,
    res: Result<WebShareFile, Status>,
)
    requires
        state.admits_download(session_id, file_id, peer, res),
    ensures
        res is Ok <==> (state.web_share matches Some(web) && web.sessions@.contains_key(session_id)
            && web.sessions@[session_id].approved && web.sessions@[session_id].ip == peer
            && web.files@.contains_key(file_id)),
        res is Err ==> res->Err_0 == Status::Forbidden,
{
}

/// A browser that is answered with the files can download each of them with
/// the session of the answer, from its own address and from no other.
pub proof fn law_listed_files_download(
    before: ServerState,
    known: Option<Seq<char>>,
    pin: Option<Seq<char>>,
    peer: PeerIp,
    response: PrepareDownloadResponse,
    after: ServerState,
    file_id: Seq<char>,
    from: PeerIp,
    res: Result<WebShareFile, Status>,
)
    requires
        before.begins_download(known, pin, peer, PrepareDownloadStep::Files(response), after),
        response.files@.contains_key(file_id),
        after.admits_download(response.session_id@, file_id, from, res),
    ensures
        from == peer ==> res is Ok && res->Ok_0.metadata == response.files@[file_id]
            && before.web_share->0.files@[file_id] == res->Ok_0,
        from != peer ==> res == Err::<WebShareFile, Status>(Status::Forbidden),
{
}

/// While a browser waits for its approval it can download nothing, and the
/// sessions of other browsers are what they were.
pub proof fn law_waiting_browser_gets_nothing(
    before: ServerState,
    known: Option<Seq<char>>,
    pin: Option<Seq<char>>,
    peer: PeerIp,
    step: PrepareDownloadStep,
    after: ServerState,
    file_id: Seq<char>,
    from: PeerIp,
    res: Result<WebShareFile, Status>,
    other: Seq<char>,
)
    requires
        before.begins_download(known, pin, peer, step, after),
        step is Ask,
        after.admits_download(step->Ask_0.session()@, file_id, from, res),
        other != step->Ask_0.session()@,
    ensures
        res == Err::<WebShareFile, Status>(Status::Forbidden),
        after.web_share->0.grants(other, from) == before.web_share->0.grants(other, from),
{
}

/// The approval of a waiting browser opens the share for it: it is answered
/// with the files, and each of them downloads from its address.
pub proof fn law_approval_opens_the_share(
    start: ServerState,
    known: Option<Seq<char>>,
    pin: Option<Seq<char>>,
    peer: PeerIp,
    step: PrepareDownloadStep,
    waiting: ServerState,
    answered: ServerState,
    res: Result<PrepareDownloadResponse, WebRefusal>,
    open: ServerState,
    file_id: Seq<char>,
    download: Result<WebShareFile, Status>,
)
    requires
        start.begins_download(known, pin, peer, step, waiting),
        step is Ask,
        answered.same_but_share(waiting),
        answered.web_share is Some,
        waiting.web_share->0.answered(step->Ask_0.session()@, answered.web_share->0),
        answered.finishes_download(step->Ask_0.session()@, Some(true), res, open),
        open.admits_download(step->Ask_0.session()@, file_id, peer, download),
        start.web_share->0.files@.contains_key(file_id),
    ensures
        res is Ok,
        res->Ok_0.session_id@ == step->Ask_0.session()@,
        res->Ok_0.info.download,
        res->Ok_0.files@.contains_key(file_id),
        download is Ok,
        download->Ok_0.metadata == res->Ok_0.files@[file_id],
{
}

/// A refused browser, and one whose time ran out, is answered 403, and its
/// session downloads nothing from then on.
pub proof fn law_refused_browser_gets_nothing(
    before: ServerState,
    session_id: Seq<char>,
    res: Result<PrepareDownloadResponse, WebRefusal>,
    after: ServerState,
    file_id: Seq<char>,
    from: PeerIp,
    download: Result<WebShareFile, Status>,
)
    requires
        before.finishes_download(session_id, Some(false), res, after),
        after.admits_download(session_id, file_id, from, download),
    ensures
        res is Err,
        res->Err_0.status == Status::Forbidden,
        download == Err::<WebShareFile, Status>(Status::Forbidden),
{
}

/// Without a share everything is forbidden: the request for the files, the
/// answer to a browser that was waiting, and every download.
pub proof fn law_no_share_forbids_all(
    state: ServerState,
    known: Option<Seq<char>>,
    pin: Option<Seq<char>>,
    peer: PeerIp,
    step: PrepareDownloadStep,
    after: ServerState,
    session_id: Seq<char>,
    answer: Option<bool>,
    late: Result<PrepareDownloadResponse, WebRefusal>,
    last: ServerState,
    file_id: Seq<char>,
    download: Result<WebShareFile, Status>,
)
    requires
        state.web_share is None,
        state.begins_download(known, pin, peer, step, after),
        state.finishes_download(session_id, answer, late, last),
        state.admits_download(session_id, file_id, peer, download),
    ensures
        step is Refuse,
        step->Refuse_0.status == Status::Forbidden,
        late is Err,
        late->Err_0.status == Status::Forbidden,
        download == Err::<WebShareFile, Status>(Status::Forbidden),
{
}

/// Wrong PINs for a share run into the same limit as those for uploads: three
/// of them from an address are answered 401, and then even the right one 429.
/// The files stay where they are, and no session comes of it.
pub proof fn law_share_pin_locks_out(
    states: Seq<ServerState>,
    tries: Seq<Seq<char>>,
    peer: PeerIp,
    steps: Seq<PrepareDownloadStep>,
    later: Option<Seq<char>>,
    last: PrepareDownloadStep,
    end: ServerState,
)
    requires
        states.len() == 4,
        tries.len() == 3,
        steps.len() == 3,
        states[0].web_share is Some,
        states[0].web_share->0.pin_gate.expected() is Some,
        states[0].web_share->0.pin_gate.failures_of(peer) == 0,
        forall|i: int|
            0 <= i < 3 ==> (#[trigger] tries[i]).len() > 0 && tries[i]
                != states[0].web_share->0.pin_gate.expected()->0,
        forall|i: int|
            0 <= i < 3 ==> (#[trigger] states[i]).begins_download(
                None,
                Some(tries[i]),
                peer,
                steps[i],
                states[i + 1],
            ),
        states[3].begins_download(None, later, peer, last, end),
    ensures
        forall|i: int|
            0 <= i < 3 ==> (#[trigger] steps[i]) is Refuse && steps[i]->Refuse_0.status
                == Status::Unauthorized,
        last is Refuse,
        last->Refuse_0.status == Status::TooManyRequests,
        end.web_share is Some,
        end.web_share->0.sessions@ == states[0].web_share->0.sessions@,
        end.web_share->0.files == states[0].web_share->0.files,
{
    assert(states[0].begins_download(None, Some(tries[0]), peer, steps[0], states[1]));
    assert(states[1].begins_download(None, Some(tries[1]), peer, steps[1], states[2]));
    assert(states[2].begins_download(None, Some(tries[2]), peer, steps[2], states[3]));
    let gates: Seq<PinGate> = Seq::new(4, |i: int| states[i].web_share->0.pin_gate);
    assert forall|i: int| 0 <= i < 3 implies (#[trigger] gates[i]).checked(
        Some(tries[i]),
        peer,
        gates[i + 1],
    ) by {
        assert(states[i].begins_download(None, Some(tries[i]), peer, steps[i], states[i + 1]));
    }
    let other = if peer == PeerIp::V4(0) {
        PeerIp::V4(1)
    } else {
        PeerIp::V4(0)
    };
    law_three_wrong_pins_lock_out(gates, tries, peer, later, other);
    assert(gates[0].verdict(Some(tries[0]), peer) == crate::server::pin::PinVerdict::Unauthorized);
    assert(gates[1].verdict(Some(tries[1]), peer) == crate::server::pin::PinVerdict::Unauthorized);
    assert(gates[2].verdict(Some(tries[2]), peer) == crate::server::pin::PinVerdict::Unauthorized);
}

/// The name in a `Content-Disposition` header leads out of no directory and
/// out of no quotes: it holds no slash, no backslash and no quote.
pub proof fn law_disposition_is_safe(name: Seq<char>)
    ensures
        disposition(name) == "attachment; filename=\""@ + quotable(name) + "\""@,
        forall|i: int|
            0 <= i < quotable(name).len() ==> (#[trigger] quotable(name)[i]) != '/'
                && quotable(name)[i] != '\\' && quotable(name)[i] != '"',
{
    let keep = |c: char| c != '"';
    let mapped = name.map_values(|c: char| without_slash(c));
    let kept = mapped.filter(keep);
    assert forall|i: int| 0 <= i < kept.len() implies (#[trigger] kept[i]) != '/' && kept[i] != '\\'
        && kept[i] != '"' by {
        broadcast use Seq::lemma_filter_contains_rev;

        mapped.lemma_filter_pred(keep, i);
        let c = kept[i];
        assert(kept.contains(c));
        assert(mapped.contains(c));
        let j = choose|j: int| 0 <= j < mapped.len() && mapped[j] == c;
        assert(c == without_slash(name[j]));
    }
}

/// A name without slashes, backslashes and quotes is left as it is.
pub proof fn law_plain_names_are_kept(name: Seq<char>)
    requires
        forall|i: int|
            0 <= i < name.len() ==> (#[trigger] name[i]) != '/' && name[i] != '\\' && name[i] != '"',
    ensures
        quotable(name) == name,
    decreases name.len(),
{
    let keep = |c: char| c != '"';
    let f = |c: char| without_slash(c);
    let mapped = name.map_values(f);
    reveal(Seq::filter);
    if name.len() > 0 {
        let short = name.drop_last();
        assert forall|i: int| 0 <= i < short.len() implies (#[trigger] short[i]) != '/' && short[i]
            != '\\' && short[i] != '"' by {
            assert(name[i] == short[i]);
        }
        law_plain_names_are_kept(short);
        assert(mapped.drop_last() =~= short.map_values(f));
        assert(mapped.last() == name.last());
        assert(name =~= short.push(name.last()));
    } else {
        assert(mapped =~= name);
    }
}

} // verus!
