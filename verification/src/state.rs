//! The shared state of the manager: live terminals and running engine streams.

use crate::registry::Registry;
use vstd::prelude::*;

verus! {

/// The entry that stands under `id`, if one does.
pub open spec fn lookup<T>(entries: Map<Seq<char>, T>, id: Seq<char>) -> Option<T> {
    if entries.contains_key(id) {
        Some(entries[id])
    } else {
        None
    }
}

/// A registered terminal: the caller's handles and the token it was
/// registered with.
struct Session<S> {
    token: u64,
    handle: S,
}

/// The two registries of the manager. `S` is what the caller keeps for a
/// live terminal (its handles), `E` what it keeps for a running engine
/// stream (its cancellation signal). At most one entry of each kind stands
/// under a session id. Each registered terminal has a token that no terminal
/// registered before it had, by which a worker of one session tells it from
/// a later session under the same id.
pub struct TerminalState<S, E> {
    terminals: Registry<Session<S>>,
    engines: Registry<E>,
    issued: u64,
}

impl<S, E> TerminalState<S, E> {
    /// The live terminals, by session id.
    pub closed spec fn terminals(&self) -> Map<Seq<char>, S> {
        Map::new(
            |id: Seq<char>| self.terminals@.contains_key(id),
            |id: Seq<char>| self.terminals@[id].handle,
        )
    }

    /// The tokens of the live terminals, by session id.
    pub closed spec fn tokens(&self) -> Map<Seq<char>, u64> {
        Map::new(
            |id: Seq<char>| self.terminals@.contains_key(id),
            |id: Seq<char>| self.terminals@[id].token,
        )
    }

    /// The number of tokens handed out so far; the next terminal gets this
    /// number as its token.
    pub closed spec fn issued(&self) -> nat {
        self.issued as nat
    }

    /// The running engine streams, by session id.
    pub closed spec fn engines(&self) -> Map<Seq<char>, E> {
        self.engines@
    }

    /// A state without terminals or engine streams.
    pub fn new() -> (state: Self)
        ensures
            state.terminals() == Map::<Seq<char>, S>::empty(),
            state.tokens() == Map::<Seq<char>, u64>::empty(),
            state.issued() == 0,
            state.engines() == Map::<Seq<char>, E>::empty(),
    {
        let state = TerminalState { terminals: Registry::new(), engines: Registry::new(), issued: 0 };
        assert(state.terminals() =~= Map::<Seq<char>, S>::empty());
        assert(state.tokens() =~= Map::<Seq<char>, u64>::empty());
        state
    }

    /// The number of tokens handed out so far.
    pub fn tokens_issued(&self) -> (count: u64)
        ensures
            count == self.issued(),
    {
        self.issued
    }

    /// Removes the terminal registered under `id` and hands it out.
    pub fn take_terminal(&mut self, id: &str) -> (entry: Option<S>)
        ensures
            final(self).terminals() == old(self).terminals().remove(id@),
            final(self).tokens() == old(self).tokens().remove(id@),
            final(self).issued() == old(self).issued(),
            final(self).engines() == old(self).engines(),
            entry == lookup(old(self).terminals(), id@),
    {
        let taken = self.terminals.take(id);
        assert(self.terminals() =~= old(self).terminals().remove(id@));
        assert(self.tokens() =~= old(self).tokens().remove(id@));
        match taken {
            Some(session) => Some(session.handle),
            None => None,
        }
    }

    /// Removes the terminal registered under `id` if `token` is the one it
    /// was registered with, and hands it out. A terminal registered under
    /// the id with another token stays.
    pub fn take_session(&mut self, id: &str, token: u64) -> (entry: Option<S>)
        ensures
            final(self).issued() == old(self).issued(),
            final(self).engines() == old(self).engines(),
            lookup(old(self).tokens(), id@) == Some(token) ==> {
                &&& final(self).terminals() == old(self).terminals().remove(id@)
                &&& final(self).tokens() == old(self).tokens().remove(id@)
                &&& entry == lookup(old(self).terminals(), id@)
                &&& entry is Some
            },
            lookup(old(self).tokens(), id@) != Some(token) ==> {
                &&& final(self).terminals() == old(self).terminals()
                &&& final(self).tokens() == old(self).tokens()
                &&& entry is None
            },
    {
        let registered = match self.terminals.get(id) {
            Some(session) => session.token == token,
            None => false,
        };
        if registered {
            self.take_terminal(id)
        } else {
            None
        }
    }

    /// Registers `entry` under `id`, in place of any terminal that stood
    /// there, and hands out its token.
    pub fn insert_terminal(&mut self, id: String, entry: S) -> (token: u64)
        requires
            old(self).issued() < u64::MAX,
        ensures
            token == old(self).issued(),
            final(self).issued() == old(self).issued() + 1,
            final(self).terminals() == old(self).terminals().insert(id@, entry),
            final(self).tokens() == old(self).tokens().insert(id@, token),
            final(self).engines() == old(self).engines(),
    {
        let token = self.issued;
        self.issued = self.issued + 1;
        let _ = self.terminals.insert(id, Session { token, handle: entry });
        assert(self.terminals() =~= old(self).terminals().insert(id@, entry));
        assert(self.tokens() =~= old(self).tokens().insert(id@, token));
        token
    }

    /// The terminal registered under `id`, if there is one.
    pub fn get_terminal(&self, id: &str) -> (entry: Option<&S>)
        ensures
            match entry {
                Some(session) => self.terminals().contains_key(id@) && *session
                    == self.terminals()[id@],
                None => !self.terminals().contains_key(id@),
            },
    {
        match self.terminals.get(id) {
            Some(session) => Some(&session.handle),
            None => None,
        }
    }

    /// The token of the terminal registered under `id`, if there is one.
    pub fn token_of(&self, id: &str) -> (token: Option<u64>)
        ensures
            token == lookup(self.tokens(), id@),
    {
        match self.terminals.get(id) {
            Some(session) => Some(session.token),
            None => None,
        }
    }

    /// Registers `handle` as the engine stream of `id`, in place of any that
    /// stood there.
    pub fn insert_engine(&mut self, id: String, handle: E)
        ensures
            final(self).engines() == old(self).engines().insert(id@, handle),
            final(self).terminals() == old(self).terminals(),
            final(self).tokens() == old(self).tokens(),
            final(self).issued() == old(self).issued(),
    {
        let _ = self.engines.insert(id, handle);
    }

    /// Whether an engine stream is registered under `id`.
    pub fn has_engine(&self, id: &str) -> (present: bool)
        ensures
            present == self.engines().contains_key(id@),
    {
        self.engines.contains(id)
    }

    /// The engine stream registered under `id`, if there is one.
    pub fn get_engine(&self, id: &str) -> (entry: Option<&E>)
        ensures
            match entry {
                Some(handle) => self.engines().contains_key(id@) && *handle == self.engines()[id@],
                None => !self.engines().contains_key(id@),
            },
    {
        self.engines.get(id)
    }

    /// Removes the engine stream registered under `id` and hands it out.
    pub fn take_engine(&mut self, id: &str) -> (entry: Option<E>)
        ensures
            final(self).engines() == old(self).engines().remove(id@),
            final(self).terminals() == old(self).terminals(),
            final(self).tokens() == old(self).tokens(),
            final(self).issued() == old(self).issued(),
            entry == lookup(old(self).engines(), id@),
    {
        self.engines.take(id)
    }
}

impl<S, E> Default for TerminalState<S, E> {
    fn default() -> (state: Self)
        ensures
            state.terminals() == Map::<Seq<char>, S>::empty(),
            state.tokens() == Map::<Seq<char>, u64>::empty(),
            state.issued() == 0,
            state.engines() == Map::<Seq<char>, E>::empty(),
    {
        TerminalState::new()
    }
}

} // verus!
