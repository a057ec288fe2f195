use vstd::prelude::*;
use crate::github::Repository;
use crate::storage::file_after_store;
use crate::storage::read_at;

verus! {

/// Where a refresh stands: what it is waiting for.
pub enum RefreshState<T> {
    /// Waiting for what the cache holds.
    Reading,
    /// Waiting for the upstream's answer.
    Fetching,
    /// Waiting for the fetched value, held here, to be stored.
    Storing(T),
    /// Nothing is left to do.
    Done,
}

/// What the outside did since the last step.
pub enum RefreshEvent<T> {
    /// The cache was read: a fresh value, or nothing.
    Cached(Option<T>),
    /// The upstream was asked: a value, or nothing where the fetch failed.
    Fetched(Option<T>),
    /// The fetched value was handed to the cache: whether it was stored.
    Stored(bool),
}

/// What the outside is to do next.
pub enum RefreshAction<T> {
    /// Ask the upstream.
    Fetch,
    /// Store the value that the state holds.
    Store,
    /// Hand this to the caller: the value, or nothing where the cache had
    /// none and the fetch failed.
    Finish(Option<T>),
    /// The fetched value could not be stored: give up for good.
    Abort,
}

/// Whether `event` is what `state` waits for.
pub open spec fn awaits<T>(state: RefreshState<T>, event: RefreshEvent<T>) -> bool {
    match (state, event) {
        (RefreshState::Reading, RefreshEvent::Cached(_)) => true,
        (RefreshState::Fetching, RefreshEvent::Fetched(_)) => true,
        (RefreshState::Storing(_), RefreshEvent::Stored(_)) => true,
        _ => false,
    }
}

/// The next state and the next action. A cached value ends the refresh at
/// once; without one the upstream is asked; a failed fetch ends it with
/// nothing; a fetched value is stored first and handed out after.
pub open spec fn spec_refresh_step<T>(state: RefreshState<T>, event: RefreshEvent<T>) -> (
    RefreshState<T>,
    RefreshAction<T>,
) {
    match (state, event) {
        (RefreshState::Reading, RefreshEvent::Cached(Some(value))) => (
            RefreshState::Done,
            RefreshAction::Finish(Some(value)),
        ),
        (RefreshState::Reading, RefreshEvent::Cached(None)) => (
            RefreshState::Fetching,
            RefreshAction::Fetch,
        ),
        (RefreshState::Fetching, RefreshEvent::Fetched(Some(value))) => (
            RefreshState::Storing(value),
            RefreshAction::Store,
        ),
        (RefreshState::Fetching, RefreshEvent::Fetched(None)) => (
            RefreshState::Done,
            RefreshAction::Finish(None),
        ),
        (RefreshState::Storing(value), RefreshEvent::Stored(true)) => (
            RefreshState::Done,
            RefreshAction::Finish(Some(value)),
        ),
        _ => (RefreshState::Done, RefreshAction::Abort),
    }
}

/// How often the upstream is asked in a refresh that finds `cached`.
pub open spec fn upstream_calls<T>(cached: Option<T>) -> nat {
    match spec_refresh_step(RefreshState::Reading, RefreshEvent::Cached(cached)).1 {
        RefreshAction::Fetch => 1,
        _ => 0,
    }
}

impl<T> RefreshState<T> {
    /// The state in which every refresh starts.
    pub fn start() -> (state: Self)
        ensures
            state == RefreshState::<T>::Reading,
    {
        RefreshState::Reading
    }

    /// The value that waits to be stored.
    pub fn pending(&self) -> (value: Option<&T>)
        ensures
            match *self {
                RefreshState::Storing(held) => value == Some(&held),
                _ => value is None,
            },
    {
        match self {
            RefreshState::Storing(held) => Some(held),
            _ => None,
        }
    }
}

/// One step of a refresh.
pub fn refresh_step<T>(state: RefreshState<T>, event: RefreshEvent<T>) -> (next: (
    RefreshState<T>,
    RefreshAction<T>,
))
    requires
        awaits(state, event),
    ensures
        next == spec_refresh_step(state, event),
{
    match (state, event) {
        (RefreshState::Reading, RefreshEvent::Cached(Some(value))) => (
            RefreshState::Done,
            RefreshAction::Finish(Some(value)),
        ),
        (RefreshState::Reading, RefreshEvent::Cached(None)) => (
            RefreshState::Fetching,
            RefreshAction::Fetch,
        ),
        (RefreshState::Fetching, RefreshEvent::Fetched(Some(value))) => (
            RefreshState::Storing(value),
            RefreshAction::Store,
        ),
        (RefreshState::Fetching, RefreshEvent::Fetched(None)) => (
            RefreshState::Done,
            RefreshAction::Finish(None),
        ),
        (RefreshState::Storing(value), RefreshEvent::Stored(true)) => (
            RefreshState::Done,
            RefreshAction::Finish(Some(value)),
        ),
        _ => (RefreshState::Done, RefreshAction::Abort),
    }
}

/// The repository list that a finished refresh stands for: the list, or an
/// empty one where the refresh ended with nothing.
pub fn get_cached_repositories(outcome: Option<Vec<Repository>>) -> (repositories: Vec<
    Repository,
>)
    ensures
        repositories@ == (match outcome {
            Some(found) => found@,
            None => Seq::<Repository>::empty(),
        }),
{
    match outcome {
        Some(found) => found,
        None => Vec::new(),
    }
}

/// A refresh that finds a value in the cache hands it out at once and never
/// asks the upstream.
pub proof fn cached_value_asks_nothing<T>(value: T)
    ensures
        spec_refresh_step(RefreshState::Reading, RefreshEvent::Cached(Some(value))) == (
            RefreshState::<T>::Done,
            RefreshAction::Finish(Some(value)),
        ),
        upstream_calls(Some(value)) == 0,
{
}

/// A refresh in the hour after a store finds the stored text and asks the
/// upstream nothing.
pub proof fn fresh_cache_asks_nothing(text: Seq<char>, stored_at: int, now: int)
    requires
        text.len() > 0,
        0 <= stored_at <= now < stored_at + 3600,
    ensures
        upstream_calls(read_at(file_after_store(text, stored_at), now)) == 0,
{
    crate::storage::read_after_store(text, stored_at, now);
}

/// A refresh that finds no file, or one modified an hour ago or earlier,
/// asks the upstream once, whatever the file holds. Where the answer is
/// stored, it is read back in the hour after.
pub proof fn stale_cache_asks_once(
    file: Option<(int, Seq<u8>)>,
    now: int,
    fetched: Seq<char>,
    later: int,
)
    requires
        file is Some ==> 0 <= file.unwrap().0 && file.unwrap().0 + 3600 <= now <= file.unwrap().0
            + u64::MAX,
        fetched.len() > 0,
        0 <= now <= later < now + 3600,
    ensures
        upstream_calls(read_at(file, now)) == 1,
        read_at(file_after_store(fetched, now), later) == Some(fetched),
{
    crate::storage::read_after_store(fetched, now, later);
}

} // verus!
