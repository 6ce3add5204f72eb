//! The runtime's own records: the agents it trusts, the link languages it
//! knows, its friends, and its outbox.
//!
//! The records are kept by the store. The service is an explicit context
//! object made once from the bootstrap seed: it says what to write to the
//! store, and it makes the lists that callers see out of what the store
//! returned. A read that the store failed counts as a read of nothing.

use crate::graphql_types::SentMessage;
use crate::lists::{insert_all_sorted, insert_sorted, spec_sorted};
use crate::text::views;
use vstd::prelude::*;
use vstd::string::*;

verus! {

/// What a fresh runtime starts from.
#[derive(Debug, PartialEq, Eq)]
pub struct BootstrapSeed {
    pub trusted_agents: Vec<String>,
    pub known_link_languages: Vec<String>,
    pub direct_message_language: String,
    pub agent_language: String,
    pub perspective_language: String,
    pub neighbourhood_language: String,
    pub language_language_bundle: String,
}

/// The runtime service: the seed it was made from.
#[derive(Debug, PartialEq, Eq)]
pub struct RuntimeService {
    pub seed: BootstrapSeed,
}

/// A write to the store of the runtime's records.
#[derive(Debug, PartialEq, Eq)]
pub enum RuntimeWrite {
    AddTrustedAgents(Vec<String>),
    RemoveTrustedAgents(Vec<String>),
    AddKnownLinkLanguages(Vec<String>),
    RemoveKnownLinkLanguages(Vec<String>),
    AddFriends(Vec<String>),
    RemoveFriends(Vec<String>),
    AddToOutbox(SentMessage),
}

/// Whether `out` is the sorted list, without duplicates, of the strings of
/// three sources.
pub open spec fn spec_sorted_union(
    out: Seq<Seq<char>>,
    first: Seq<Seq<char>>,
    second: Seq<Seq<char>>,
    third: Seq<Seq<char>>,
) -> bool {
    &&& spec_sorted(out)
    &&& forall|x: Seq<char>|
        #![trigger out.contains(x)]
        out.contains(x) <==> (first.contains(x) || second.contains(x) || third.contains(x))
}

/// The strings that a read of the store came to: what it returned, nothing
/// where it failed.
pub open spec fn spec_stored(stored: Result<Vec<String>, String>) -> Seq<Seq<char>> {
    match stored {
        Ok(items) => views(items@),
        Err(_) => Seq::empty(),
    }
}

fn sorted_union(seed: &Vec<String>, own: Option<&str>, stored: &Result<Vec<String>, String>) -> (out:
    Vec<String>)
    ensures
        spec_sorted_union(
            views(out@),
            views(seed@),
            match own {
                Some(did) => seq![did@],
                None => Seq::empty(),
            },
            spec_stored(*stored),
        ),
{
    let mut out: Vec<String> = Vec::new();
    let ghost none = views(out@);
    assert(none =~= Seq::<Seq<char>>::empty());
    insert_all_sorted(&mut out, seed);
    let ghost seeded = views(out@);
    let ghost second: Seq<Seq<char>> = match own {
        Some(did) => seq![did@],
        None => Seq::empty(),
    };
    match own {
        Some(did) => {
            insert_sorted(&mut out, String::from_str(did));
        },
        None => {},
    }
    let ghost with_own = views(out@);
    match stored {
        Ok(items) => {
            insert_all_sorted(&mut out, items);
        },
        Err(_) => {},
    }
    proof {
        let third = spec_stored(*stored);
        assert forall|x: Seq<char>|
            views(out@).contains(x) <==> (views(seed@).contains(x) || second.contains(x)
                || third.contains(x)) by {
            if own matches Some(did) && x == did@ {
                assert(second[0] == x);
            }
            assert(!none.contains(x));
            assert(seeded.contains(x) <==> (none.contains(x) || views(seed@).contains(x)));
            assert(with_own.contains(x) <==> (seeded.contains(x) || second.contains(x)));
            assert(views(out@).contains(x) <==> (with_own.contains(x) || third.contains(x)));
        }
    }
    out
}

impl RuntimeService {
    /// The runtime service of a runtime that starts from `seed`.
    pub fn new(seed: BootstrapSeed) -> (out: RuntimeService)
        ensures
            out.seed == seed,
    {
        RuntimeService { seed }
    }

    /// The agents that the runtime trusts: those of the seed, the local
    /// agent `did`, and those that the store returned, sorted and without
    /// duplicates.
    pub fn get_trusted_agents(&self, did: &str, stored: Result<Vec<String>, String>) -> (out: Vec<
        String,
    >)
        ensures
            spec_sorted_union(
                views(out@),
                views(self.seed.trusted_agents@),
                seq![did@],
                spec_stored(stored),
            ),
    {
        sorted_union(&self.seed.trusted_agents, Some(did), &stored)
    }

    /// The write that stores agents as trusted.
    pub fn add_trusted_agent(&self, new_agents: Vec<String>) -> (out: RuntimeWrite)
        ensures
            out == RuntimeWrite::AddTrustedAgents(new_agents),
    {
        RuntimeWrite::AddTrustedAgents(new_agents)
    }

    /// The write that takes agents out of the stored trusted ones. The
    /// agents of the seed and the local agent stay trusted.
    pub fn remove_trusted_agent(&self, agents_to_remove: Vec<String>) -> (out: RuntimeWrite)
        ensures
            out == RuntimeWrite::RemoveTrustedAgents(agents_to_remove),
    {
        RuntimeWrite::RemoveTrustedAgents(agents_to_remove)
    }

    /// The link languages that the runtime knows: those of the seed and
    /// those that the store returned, sorted and without duplicates.
    pub fn get_know_link_languages(&self, stored: Result<Vec<String>, String>) -> (out: Vec<String>)
        ensures
            spec_sorted_union(
                views(out@),
                views(self.seed.known_link_languages@),
                Seq::empty(),
                spec_stored(stored),
            ),
    {
        sorted_union(&self.seed.known_link_languages, None, &stored)
    }

    /// The write that stores link languages as known.
    pub fn add_know_link_language(&self, language: Vec<String>) -> (out: RuntimeWrite)
        ensures
            out == RuntimeWrite::AddKnownLinkLanguages(language),
    {
        RuntimeWrite::AddKnownLinkLanguages(language)
    }

    /// The write that takes link languages out of the stored known ones.
    pub fn remove_know_link_language(&self, language_to_remove: Vec<String>) -> (out: RuntimeWrite)
        ensures
            out == RuntimeWrite::RemoveKnownLinkLanguages(language_to_remove),
    {
        RuntimeWrite::RemoveKnownLinkLanguages(language_to_remove)
    }

    /// The friends of the local agent: what the store returned, as it
    /// returned it; none where the read failed.
    pub fn get_friends(&self, stored: Result<Vec<String>, String>) -> (out: Vec<String>)
        ensures
            stored matches Ok(friends) ==> out == friends,
            stored is Err ==> out@ == Seq::<String>::empty(),
    {
        match stored {
            Ok(friends) => friends,
            Err(_) => Vec::new(),
        }
    }

    /// The write that adds friends.
    pub fn add_friend(&self, friends: Vec<String>) -> (out: RuntimeWrite)
        ensures
            out == RuntimeWrite::AddFriends(friends),
    {
        RuntimeWrite::AddFriends(friends)
    }

    /// The write that removes friends.
    pub fn remove_friend(&self, friend_to_remove: Vec<String>) -> (out: RuntimeWrite)
        ensures
            out == RuntimeWrite::RemoveFriends(friend_to_remove),
    {
        RuntimeWrite::RemoveFriends(friend_to_remove)
    }

    /// The messages that were sent: what the store returned, as it returned
    /// it; none where the read failed.
    pub fn get_outbox(&self, stored: Result<Vec<SentMessage>, String>) -> (out: Vec<SentMessage>)
        ensures
            stored matches Ok(messages) ==> out == messages,
            stored is Err ==> out@ == Seq::<SentMessage>::empty(),
    {
        match stored {
            Ok(messages) => messages,
            Err(_) => Vec::new(),
        }
    }

    /// The write that records a message that was sent.
    pub fn add_message_to_outbox(&self, message: SentMessage) -> (out: RuntimeWrite)
        ensures
            out == RuntimeWrite::AddToOutbox(message),
    {
        RuntimeWrite::AddToOutbox(message)
    }
}

} // verus!
