//! One transfer: the accepted files, their tokens and what has arrived.

use crate::id_map::IdMap;
use crate::outside::{drawn, uuid_shape};
use crate::protocol::{FileId, FileMetadata, SessionId, Token};
use crate::text::same_text;
use vstd::prelude::*;

verus! {

/// A session. The times are seconds on a clock that only moves forward.
#[derive(Debug)]
pub struct Session {
    pub id: SessionId,
    pub sender_alias: String,
    pub files: IdMap<FileMetadata>,
    pub tokens: IdMap<Token>,
    pub received: IdMap<bool>,
    pub last_activity: u64,
}

/// True when every token is a random draw.
pub open spec fn all_drawn(draws: Seq<Token>) -> bool {
    forall|i: int| 0 <= i < draws.len() ==> drawn((#[trigger] draws[i]).text)
}

/// True when the files have tokens, nothing else has one, and the file at each
/// place has the draw at that place.
pub open spec fn assigns(
    files: IdMap<FileMetadata>,
    draws: Seq<Token>,
    tokens: Map<Seq<char>, Token>,
) -> bool {
    &&& draws.len() == files.keys().len()
    &&& tokens.dom() == files@.dom()
    &&& forall|i: int|
        0 <= i < draws.len() ==> tokens[#[trigger] files.keys()[i]] == draws[i]
}

/// Draws `n` random tokens.
fn draw_tokens(n: usize) -> (res: Vec<Token>)
    ensures
        res@.len() == n,
        all_drawn(res@),
        forall|i: int| 0 <= i < n ==> uuid_shape((#[trigger] res@[i])@),
{
    let mut draws: Vec<Token> = Vec::new();
    while draws.len() < n
        invariant
            draws@.len() <= n,
            all_drawn(draws@),
            forall|i: int| 0 <= i < draws@.len() ==> uuid_shape((#[trigger] draws@[i])@),
        decreases n - draws.len(),
    {
        draws.push(Token::new());
    }
    draws
}

/// Gives each file the draw at its place.
pub fn assign_tokens(files: &IdMap<FileMetadata>, draws: Vec<Token>) -> (res: IdMap<Token>)
    requires
        draws@.len() == files.keys().len(),
    ensures
        assigns(*files, draws@, res@),
{
    let mut tokens: IdMap<Token> = IdMap::new();
    let n = files.len();
    let mut i: usize = 0;
    while i < n
        invariant
            i <= n,
            n == files.keys().len(),
            n == draws@.len(),
            files.keys().no_duplicates(),
            files.keys().to_set() == files@.dom(),
            forall|k: Seq<char>| #[trigger] tokens@.contains_key(k) ==> files@.contains_key(k),
            forall|j: int|
                0 <= j < i ==> tokens@.contains_key(#[trigger] files.keys()[j])
                    && tokens@[files.keys()[j]] == draws@[j],
        decreases n - i,
    {
        tokens.insert(files.key_at(i).clone(), draws[i].clone());
        i = i + 1;
    }
    proof {
        assert forall|k: Seq<char>| files@.contains_key(k) implies tokens@.contains_key(k) by {
            assert(files.keys().to_set().contains(k));
            let j = choose|j: int| 0 <= j < files.keys().len() && files.keys()[j] == k;
            assert(tokens@.contains_key(files.keys()[j]));
        }
        assert(tokens@.dom() =~= files@.dom());
    }
    tokens
}

impl Session {
    /// Every file has a token, and nothing else has one.
    pub open spec fn wf(self) -> bool {
        self.tokens@.dom() == self.files@.dom()
    }

    /// True for a session over `files` of which nothing has arrived, with a
    /// random token for each of them.
    pub open spec fn fresh(
        self,
        sender_alias: String,
        files: Map<Seq<char>, FileMetadata>,
        now: u64,
    ) -> bool {
        &&& self.wf()
        &&& drawn(self.id.text)
        &&& uuid_shape(self.id@)
        &&& self.sender_alias == sender_alias
        &&& self.files@ == files
        &&& forall|k: Seq<char>| #[trigger]
            self.tokens@.contains_key(k) ==> drawn(self.tokens@[k].text) && uuid_shape(
                self.tokens@[k]@,
            )
        &&& self.received@ == Map::<Seq<char>, bool>::empty()
        &&& self.last_activity == now
    }

    /// True when every accepted file has arrived.
    pub open spec fn complete(self) -> bool {
        forall|k: Seq<char>| #[trigger]
            self.files@.contains_key(k) ==> self.received@.contains_key(k)
    }

    /// True when the session has been idle for more than `ttl` seconds.
    pub open spec fn timed_out(self, ttl: u64, now: u64) -> bool {
        now - self.last_activity > ttl
    }

    /// True when `token` is the one that was issued for the file.
    pub open spec fn token_matches(self, file_id: Seq<char>, token: Seq<char>) -> bool {
        self.tokens@.contains_key(file_id) && self.tokens@[file_id]@ == token
    }

    /// A session over `files` with this identifier, in which each file has the
    /// draw at its place.
    pub fn with_draws(
        id: SessionId,
        sender_alias: String,
        files: IdMap<FileMetadata>,
        draws: Vec<Token>,
        now: u64,
    ) -> (res: Self)
        requires
            draws@.len() == files.keys().len(),
        ensures
            res.id == id,
            res.sender_alias == sender_alias,
            res.files == files,
            assigns(files, draws@, res.tokens@),
            res.received@ == Map::<Seq<char>, bool>::empty(),
            res.last_activity == now,
    {
        let tokens = assign_tokens(&files, draws);
        Session { id, sender_alias, files, tokens, received: IdMap::new(), last_activity: now }
    }

    /// A session with a random identifier and a random token for each file.
    pub fn new(sender_alias: String, files: IdMap<FileMetadata>, now: u64) -> (res: Self)
        ensures
            res.fresh(sender_alias, files@, now),
            res.files == files,
            exists|draws: Seq<Token>| #[trigger]
                all_drawn(draws) && assigns(files, draws, res.tokens@),
    {
        let n = files.len();
        let draws = draw_tokens(n);
        let ghost drawn_tokens = draws@;
        let res = Self::with_draws(SessionId::new(), sender_alias, files, draws, now);
        proof {
            assert(all_drawn(drawn_tokens) && assigns(files, drawn_tokens, res.tokens@));
            assert forall|k: Seq<char>| #[trigger] res.tokens@.contains_key(k) implies drawn(
                res.tokens@[k].text,
            ) && uuid_shape(res.tokens@[k]@) by {
                assert(files@.dom().contains(k));
                assert(files.keys().to_set().contains(k));
                let j = choose|j: int| 0 <= j < files.keys().len() && files.keys()[j] == k;
                assert(res.tokens@[files.keys()[j]] == drawn_tokens[j]);
            }
        }
        res
    }

    /// Checks the token of an upload against the one that was issued.
    pub fn verify_token(&self, file_id: &FileId, token: &Token) -> (res: bool)
        ensures
            res == self.token_matches(file_id@, token@),
    {
        match self.tokens.get(file_id.as_str()) {
            Some(issued) => same_text(issued.as_str(), token.as_str()),
            None => false,
        }
    }

    /// True when the session has been idle for more than `ttl` seconds.
    pub fn is_timed_out(&self, ttl: u64, now: u64) -> (res: bool)
        ensures
            res == self.timed_out(ttl, now),
    {
        now > self.last_activity && now - self.last_activity > ttl
    }

    fn is_complete(&self) -> (res: bool)
        ensures
            res == self.complete(),
    {
        let n = self.files.len();
        let mut i: usize = 0;
        while i < n
            invariant
                i <= n,
                n == self.files.keys().len(),
                self.files.keys().to_set() == self.files@.dom(),
                forall|j: int|
                    0 <= j < i ==> self.received@.contains_key(#[trigger] self.files.keys()[j]),
            decreases n - i,
        {
            let key = self.files.key_at(i);
            if !self.received.contains_key(key.as_str()) {
                assert(self.files@.contains_key(key@));
                return false;
            }
            i = i + 1;
        }
        proof {
            assert forall|k: Seq<char>| #[trigger] self.files@.contains_key(k) implies self.received@.contains_key(
                k,
            ) by {
                assert(self.files.keys().to_set().contains(k));
                let j = choose|j: int|
                    0 <= j < self.files.keys().len() && self.files.keys()[j] == k;
                assert(self.received@.contains_key(self.files.keys()[j]));
            }
        }
        true
    }

    /// Notes that a file has arrived; true when it was the last one missing,
    /// or none was missing any more.
    pub fn mark_received(&mut self, file_id: &FileId, now: u64) -> (res: bool)
        ensures
            final(self).id == old(self).id,
            final(self).sender_alias == old(self).sender_alias,
            final(self).files == old(self).files,
            final(self).tokens == old(self).tokens,
            final(self).received@ == old(self).received@.insert(file_id@, true),
            final(self).last_activity == now,
            res == final(self).complete(),
    {
        self.received.insert(file_id.text.clone(), true);
        self.last_activity = now;
        self.is_complete()
    }
}

} // verus!
