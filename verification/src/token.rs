//! The session-token holder: passive read, push update, and the decision
//! logic of the bounded wait.
//!
//! The control channel delivers tokens asynchronously and arbitrarily
//! late, so readers must never assume a token is present. The bounded
//! wait polls at a fixed interval; the polling itself suspends and lives
//! with the runtime, while the per-poll decision and the outcome of a
//! whole run are specified and verified here.
use vstd::prelude::*;

verus! {

/// How `obtain` retrieves a token: immediately, or waiting up to a
/// timeout in milliseconds for one to be pushed.
#[derive(Clone, Copy, Debug, PartialEq, Eq, Structural)]
pub enum RetrievalStrategy {
    Immediate,
    Await(u64),
}

/// Holds the current session token. The view is the token as pushed, or
/// nothing before the first update.
pub struct TokenProvider {
    token: Option<String>,
}

impl View for TokenProvider {
    type V = Option<Seq<char>>;

    closed spec fn view(&self) -> Option<Seq<char>> {
        match self.token {
            Some(ref t) => Some(t@),
            None => None,
        }
    }
}

/// True when a poll observation ends the wait: a token is present and
/// non-empty.
pub open spec fn poll_done(observed: Option<Seq<char>>) -> bool {
    observed matches Some(t) && t.len() > 0
}

impl TokenProvider {
    /// A provider holding no token yet.
    pub fn new() -> (p: Self)
        ensures
            p@ is None,
    {
        TokenProvider { token: None }
    }

    /// Replaces the current token unconditionally; every later read
    /// observes the new token.
    pub fn update(&mut self, token: String)
        ensures
            final(self)@ == Some(token@),
    {
        self.token = Some(token);
    }

    /// The current token, or nothing, without blocking.
    pub fn get(&self) -> (r: Option<String>)
        ensures
            match r {
                Some(t) => self@ == Some(t@),
                None => self@ is None,
            },
    {
        match &self.token {
            Some(t) => Some(t.clone()),
            None => None,
        }
    }
}

/// The outcome of one poll of the bounded wait: the non-empty token that
/// ends the wait, or the instruction to keep polling.
pub enum PollStep {
    Done(String),
    Retry,
}

/// Decides one poll of the bounded wait: a non-empty observed token ends
/// the wait and is returned; anything else means keep polling.
pub fn poll_step(observed: Option<String>) -> (r: PollStep)
    ensures
        match r {
            PollStep::Done(t) => observed matches Some(o) && o@ == t@ && poll_done(
                Some(t@),
            ),
            PollStep::Retry => !poll_done(
                match observed {
                    Some(ref o) => Some(o@),
                    None => None,
                },
            ),
        },
{
    match observed {
        Some(t) => if !t.as_str().is_empty() {
            PollStep::Done(t)
        } else {
            PollStep::Retry
        },
        None => PollStep::Retry,
    }
}

/// The sequence of observations, one per poll tick.
pub open spec fn observations_view(polls: Seq<Option<String>>) -> Seq<Option<Seq<char>>> {
    polls.map_values(
        |o: Option<String>|
            match o {
                Some(t) => Some(t@),
                None => None,
            },
    )
}

/// What a whole bounded wait returns, given what each poll tick observed
/// before the timeout elapsed: the first non-empty token, or nothing if
/// no tick observed one.
pub fn obtain_from_polls(polls: Vec<Option<String>>) -> (r: Option<String>)
    ensures
        match r {
            Some(t) => exists|i: int|
                0 <= i < polls@.len() && poll_done(#[trigger] observations_view(polls@)[i])
                    && observations_view(polls@)[i] == Some(t@) && forall|j: int|
                    0 <= j < i ==> !poll_done(#[trigger] observations_view(polls@)[j]),
            None => forall|i: int|
                0 <= i < polls@.len() ==> !poll_done(#[trigger] observations_view(polls@)[i]),
        },
{
    let n = polls.len();
    let mut idx: usize = 0;
    while idx < n
        invariant
            n == polls@.len(),
            idx <= n,
            forall|j: int| 0 <= j < idx ==> !poll_done(#[trigger] observations_view(polls@)[j]),
        decreases n - idx,
    {
        let observed = match &polls[idx] {
            Some(t) => Some(t.clone()),
            None => None,
        };
        match poll_step(observed) {
            PollStep::Done(t) => {
                proof {
                    let i = idx as int;
                    assert(observations_view(polls@)[i] == Some(t@));
                    assert(0 <= i < polls@.len() && poll_done(observations_view(polls@)[i])
                        && observations_view(polls@)[i] == Some(t@) && (forall|j: int|
                        0 <= j < i ==> !poll_done(#[trigger] observations_view(polls@)[j])));
                }
                return Some(t);
            },
            PollStep::Retry => {
                proof {
                    assert(!poll_done(observations_view(polls@)[idx as int]));
                }
            },
        }
        idx += 1;
    }
    None
}

/// The bounded wait returns nothing exactly when no poll before the
/// timeout observed a non-empty token, and otherwise returns the token
/// of the first poll that did, however the pushes interleaved with the
/// polls.
pub proof fn lemma_obtain_outcome(polls: Seq<Option<String>>, r: Option<String>)
    requires
        match r {
            Some(t) => exists|i: int|
                0 <= i < polls.len() && poll_done(#[trigger] observations_view(polls)[i])
                    && observations_view(polls)[i] == Some(t@) && forall|j: int|
                    0 <= j < i ==> !poll_done(#[trigger] observations_view(polls)[j]),
            None => forall|i: int|
                0 <= i < polls.len() ==> !poll_done(#[trigger] observations_view(polls)[i]),
        },
    ensures
        (r is None) <==> (forall|i: int|
            0 <= i < polls.len() ==> !poll_done(#[trigger] observations_view(polls)[i])),
        (exists|i: int| 0 <= i < polls.len() && poll_done(#[trigger] observations_view(polls)[i]))
            ==> (r matches Some(t) && poll_done(Some(t@))),
{
    match r {
        Some(tok) => {
            let tv = tok@;
            let i = choose|i: int|
                0 <= i < polls.len() && poll_done(#[trigger] observations_view(polls)[i])
                    && observations_view(polls)[i] == Some(tv) && forall|j: int|
                    0 <= j < i ==> !poll_done(#[trigger] observations_view(polls)[j]);
            assert(poll_done(observations_view(polls)[i]));
        },
        None => {},
    }
}

} // verus!
