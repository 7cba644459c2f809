//! Which certificates of peers are trusted.

use crate::text::{blank, is_blank, same_text};
use vstd::prelude::*;

verus! {

/// The fingerprints that are trusted, or everybody.
///
/// `new` accepts the listed SHA-256 fingerprints and rejects everything else.
/// `insecure` accepts everything; it is meant for development and for looking
/// into a local network.
#[derive(Debug)]
pub struct TlsTrustPolicy {
    trusted: Option<Vec<String>>,
}

/// The texts of `list` as a set.
pub open spec fn texts(list: Seq<String>) -> Set<Seq<char>> {
    Set::new(|t: Seq<char>| exists|i: int| 0 <= i < list.len() && (#[trigger] list[i])@ == t)
}

impl TlsTrustPolicy {
    /// The trusted fingerprints; `None` where everything is accepted.
    pub closed spec fn fingerprints(self) -> Option<Set<Seq<char>>> {
        match self.trusted {
            Some(list) => Some(texts(list@)),
            None => None,
        }
    }

    /// True when a peer with this fingerprint is accepted: everybody without a
    /// list; with one, whoever is on it, but never a blank fingerprint.
    pub open spec fn accepts(self, fingerprint: Seq<char>) -> bool {
        match self.fingerprints() {
            None => true,
            Some(set) => !blank(fingerprint) && set.contains(fingerprint),
        }
    }

    /// Trusts the listed fingerprints.
    pub fn new(trusted: Vec<String>) -> (res: Self)
        ensures
            res.fingerprints() == Some(texts(trusted@)),
    {
        TlsTrustPolicy { trusted: Some(trusted) }
    }

    /// Trusts everybody.
    pub fn insecure() -> (res: Self)
        ensures
            res.fingerprints() is None,
    {
        TlsTrustPolicy { trusted: None }
    }

    /// True when a peer with this fingerprint is accepted.
    pub fn allows(&self, fingerprint: &str) -> (res: bool)
        ensures
            res == self.accepts(fingerprint@),
    {
        match &self.trusted {
            None => true,
            Some(list) => {
                if is_blank(fingerprint) {
                    return false;
                }
                let mut i: usize = 0;
                while i < list.len()
                    invariant
                        i <= list.len(),
                        self.trusted == Some(*list),
                        !blank(fingerprint@),
                        forall|j: int| 0 <= j < i ==> (#[trigger] list@[j])@ != fingerprint@,
                    decreases list.len() - i,
                {
                    if same_text(list[i].as_str(), fingerprint) {
                        assert(texts(list@).contains(fingerprint@)) by {
                            assert(list@[i as int]@ == fingerprint@);
                        }
                        return true;
                    }
                    i = i + 1;
                }
                false
            },
        }
    }

    /// True when certificates that cannot be verified, such as self-signed
    /// ones, are accepted.
    pub fn allows_insecure(&self) -> (res: bool)
        ensures
            res == (self.fingerprints() is None),
    {
        self.trusted.is_none()
    }
}

impl Clone for TlsTrustPolicy {
    fn clone(&self) -> (res: Self)
        ensures
            res.fingerprints() == self.fingerprints(),
    {
        match &self.trusted {
            None => TlsTrustPolicy { trusted: None },
            Some(list) => {
                let mut copy: Vec<String> = Vec::new();
                let mut i: usize = 0;
                while i < list.len()
                    invariant
                        i <= list.len(),
                        copy@ == list@.take(i as int),
                    decreases list.len() - i,
                {
                    copy.push(list[i].clone());
                    i = i + 1;
                    assert(copy@ =~= list@.take(i as int));
                }
                assert(copy@ =~= list@);
                TlsTrustPolicy { trusted: Some(copy) }
            },
        }
    }
}

} // verus!
