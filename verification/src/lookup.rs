use vstd::prelude::*;

use crate::mention::{
    decimal_u64, mention_parse_would_panic, parse_decimal_u64, serenity_parse_username,
    user_mention_id, username_parse_panics,
};

verus! {

/// Where a lookup of a guild member from a command argument stands. The
/// argument is tried, in order, as a mention, as a numeric id of a member of the
/// guild, as a member's exact name, as the start of a name and as part of a name;
/// the first that finds someone decides.
#[derive(Clone, Copy, Debug, PartialEq, Eq, Structural)]
pub enum UserLookup {
    /// Waiting for the guild member with the id the argument spells.
    AwaitingMemberById,
    /// Waiting for a member whose name is exactly the argument.
    AwaitingExactName,
    /// Waiting for the first member whose name starts with the argument.
    AwaitingPrefix,
    /// Waiting for the first member whose name contains the argument.
    AwaitingSubstring,
    /// The lookup has ended.
    Finished,
}

/// What the caller is asked to do next.
#[derive(Clone, Copy, Debug, PartialEq, Eq, Structural)]
pub enum LookupAction {
    /// Fetch the member of the guild with this user id, and report its user id
    /// or that there is none.
    FetchMember(u64),
    /// Find a member of the guild named exactly as the argument.
    FindExactName,
    /// Find the members whose name starts with the argument (case-insensitively,
    /// sorted) and report the first.
    FindPrefix,
    /// Find the members whose name contains the argument (case-insensitively,
    /// sorted) and report the first.
    FindSubstring,
    /// The lookup is over, with this user, or nobody.
    Resolved(Option<u64>),
    /// The argument is one on which the mention parser panics; the lookup cannot go on.
    Abort,
}

/// The first step of a lookup of `name`.
pub open spec fn lookup_begin(name: Seq<char>) -> (UserLookup, LookupAction) {
    if username_parse_panics(name) {
        (UserLookup::Finished, LookupAction::Abort)
    } else if let Some(id) = user_mention_id(name) {
        (UserLookup::Finished, LookupAction::Resolved(Some(id)))
    } else if let Some(id) = decimal_u64(name) {
        (UserLookup::AwaitingMemberById, LookupAction::FetchMember(id))
    } else {
        (UserLookup::AwaitingExactName, LookupAction::FindExactName)
    }
}

/// The step of a lookup in `state` once the pending search reported `found`.
pub open spec fn lookup_advance(state: UserLookup, found: Option<u64>) -> (UserLookup, LookupAction) {
    match state {
        UserLookup::AwaitingMemberById => match found {
            Some(id) => (UserLookup::Finished, LookupAction::Resolved(Some(id))),
            None => (UserLookup::AwaitingExactName, LookupAction::FindExactName),
        },
        UserLookup::AwaitingExactName => match found {
            Some(id) => (UserLookup::Finished, LookupAction::Resolved(Some(id))),
            None => (UserLookup::AwaitingPrefix, LookupAction::FindPrefix),
        },
        UserLookup::AwaitingPrefix => match found {
            Some(id) => (UserLookup::Finished, LookupAction::Resolved(Some(id))),
            None => (UserLookup::AwaitingSubstring, LookupAction::FindSubstring),
        },
        UserLookup::AwaitingSubstring => (UserLookup::Finished, LookupAction::Resolved(found)),
        UserLookup::Finished => (UserLookup::Finished, LookupAction::Abort),
    }
}

/// How many searches a lookup in this state can still ask for.
pub open spec fn lookup_rank(state: UserLookup) -> nat {
    match state {
        UserLookup::AwaitingMemberById => 4,
        UserLookup::AwaitingExactName => 3,
        UserLookup::AwaitingPrefix => 2,
        UserLookup::AwaitingSubstring => 1,
        UserLookup::Finished => 0,
    }
}

impl UserLookup {
    /// Starts the lookup of a member from the command argument `name`.
    pub fn begin(name: &str) -> (r: (UserLookup, LookupAction))
        ensures
            r == lookup_begin(name@),
    {
        if mention_parse_would_panic(name) {
            return (UserLookup::Finished, LookupAction::Abort);
        }
        match serenity_parse_username(name) {
            Some(id) => (UserLookup::Finished, LookupAction::Resolved(Some(id))),
            None => match parse_decimal_u64(name) {
                Some(id) => (UserLookup::AwaitingMemberById, LookupAction::FetchMember(id)),
                None => (UserLookup::AwaitingExactName, LookupAction::FindExactName),
            },
        }
    }

    /// Goes on once the search that was asked for reported `found`.
    pub fn advance(self, found: Option<u64>) -> (r: (UserLookup, LookupAction))
        ensures
            r == lookup_advance(self, found),
    {
        match self {
            UserLookup::AwaitingMemberById => match found {
                Some(id) => (UserLookup::Finished, LookupAction::Resolved(Some(id))),
                None => (UserLookup::AwaitingExactName, LookupAction::FindExactName),
            },
            UserLookup::AwaitingExactName => match found {
                Some(id) => (UserLookup::Finished, LookupAction::Resolved(Some(id))),
                None => (UserLookup::AwaitingPrefix, LookupAction::FindPrefix),
            },
            UserLookup::AwaitingPrefix => match found {
                Some(id) => (UserLookup::Finished, LookupAction::Resolved(Some(id))),
                None => (UserLookup::AwaitingSubstring, LookupAction::FindSubstring),
            },
            UserLookup::AwaitingSubstring => (UserLookup::Finished, LookupAction::Resolved(found)),
            UserLookup::Finished => (UserLookup::Finished, LookupAction::Abort),
        }
    }

    /// Whether the lookup has ended.
    pub fn is_finished(&self) -> (b: bool)
        ensures
            b == (*self == UserLookup::Finished),
    {
        match self {
            UserLookup::Finished => true,
            _ => false,
        }
    }
}

/// A mention always wins: when the argument is a mention of a user, the lookup
/// ends at once with that user, and the guild is not searched.
pub proof fn lemma_mention_decides(name: Seq<char>)
    requires
        !username_parse_panics(name),
        user_mention_id(name) is Some,
    ensures
        lookup_begin(name) == (UserLookup::Finished, LookupAction::Resolved(user_mention_id(name))),
{
}

/// Every step of an unfinished lookup brings it closer to its end, so a lookup
/// asks for at most four searches after it starts.
pub proof fn lemma_lookup_progress(state: UserLookup, found: Option<u64>)
    requires
        state != UserLookup::Finished,
    ensures
        lookup_rank(lookup_advance(state, found).0) < lookup_rank(state),
{
}

/// A lookup only ends with someone a search reported: when an unfinished step
/// resolves to a user, that is the user just found.
pub proof fn lemma_resolved_is_found(state: UserLookup, found: Option<u64>, id: u64)
    requires
        state != UserLookup::Finished,
        lookup_advance(state, found).1 == LookupAction::Resolved(Some(id)),
    ensures
        found == Some(id),
{
}

/// Searches by name run in a fixed order: exact name, then prefix, then
/// substring, each only when the one before found nobody.
pub proof fn lemma_search_order(found: Option<u64>)
    ensures
        lookup_advance(UserLookup::AwaitingExactName, found).1 == LookupAction::FindPrefix
            <==> found is None,
        lookup_advance(UserLookup::AwaitingPrefix, found).1 == LookupAction::FindSubstring
            <==> found is None,
        lookup_advance(UserLookup::AwaitingMemberById, found).1 == LookupAction::FindExactName
            <==> found is None,
{
}

/// A search that finds someone ends the lookup with exactly that user, whichever
/// search it was.
pub proof fn lemma_found_ends_lookup(state: UserLookup, id: u64)
    requires
        state != UserLookup::Finished,
    ensures
        lookup_advance(state, Some(id)) == (UserLookup::Finished, LookupAction::Resolved(Some(id))),
{
}

/// A search that finds nobody moves on to the next kind of search: from the id to
/// the exact name, to the prefix, to the substring; after the substring the
/// lookup ends with nobody.
pub proof fn lemma_nobody_found_moves_on()
    ensures
        lookup_advance(UserLookup::AwaitingMemberById, None) == (
            UserLookup::AwaitingExactName,
            LookupAction::FindExactName,
        ),
        lookup_advance(UserLookup::AwaitingExactName, None) == (
            UserLookup::AwaitingPrefix,
            LookupAction::FindPrefix,
        ),
        lookup_advance(UserLookup::AwaitingPrefix, None) == (
            UserLookup::AwaitingSubstring,
            LookupAction::FindSubstring,
        ),
        lookup_advance(UserLookup::AwaitingSubstring, None) == (
            UserLookup::Finished,
            LookupAction::Resolved(None),
        ),
{
}

/// An argument that is not a mention but spells a number asks for the member
/// with that id; one that is neither starts with the search by exact name.
pub proof fn lemma_begin_without_mention(name: Seq<char>)
    requires
        !username_parse_panics(name),
        user_mention_id(name) is None,
    ensures
        decimal_u64(name) matches Some(id) ==> lookup_begin(name) == (
            UserLookup::AwaitingMemberById,
            LookupAction::FetchMember(id),
        ),
        decimal_u64(name) is None ==> lookup_begin(name) == (
            UserLookup::AwaitingExactName,
            LookupAction::FindExactName,
        ),
{
}

/// An argument on which the mention parser would panic ends the lookup at once
/// without an answer.
pub proof fn lemma_begin_aborts_on_panicking_input(name: Seq<char>)
    requires
        username_parse_panics(name),
    ensures
        lookup_begin(name) == (UserLookup::Finished, LookupAction::Abort),
{
}

} // verus!
