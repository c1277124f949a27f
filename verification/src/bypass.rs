//! The bypass rule: members of configured local groups are accepted without
//! any factor. Finding out which groups a user is in is the host's part.

use vstd::prelude::*;

verus! {

/// What the bypass rule says of one attempt.
#[derive(Clone, Copy, Debug, PartialEq, Eq, Structural)]
pub enum BypassDecision {
    /// Nothing: the factors decide.
    NoDecision,
    /// The user is in a bypass group and is accepted at once.
    Accept,
    /// The groups had to be looked up and the system does not know the user.
    UserUnknown,
}

/// Whether some name occurs in both lists. Names are compared as they are:
/// no case folding, no trimming.
pub open spec fn share_a_name(groups: Seq<Seq<char>>, memberships: Seq<Seq<char>>) -> bool {
    exists|i: int, j: int|
        0 <= i < groups.len() && 0 <= j < memberships.len() && groups[i] == memberships[j]
}

/// The bypass rule. `memberships` is what the lookup of the user's groups
/// gave, `None` where the system does not know the user.
///
/// Without bypass groups nothing is decided, whatever the lookup would say.
pub open spec fn bypass_decision(
    groups: Seq<Seq<char>>,
    memberships: Option<Seq<Seq<char>>>,
) -> BypassDecision {
    if groups.len() == 0 {
        BypassDecision::NoDecision
    } else {
        match memberships {
            None => BypassDecision::UserUnknown,
            Some(m) => if share_a_name(groups, m) {
                BypassDecision::Accept
            } else {
                BypassDecision::NoDecision
            },
        }
    }
}

/// Whether the rule needs the user's groups at all: only where bypass groups
/// are configured.
pub fn bypass_needs_lookup(groups: &Vec<String>) -> (needed: bool)
    ensures
        needed == (groups.deep_view().len() > 0),
{
    groups.len() > 0
}

/// Whether `name` is one of `names`.
fn is_listed(names: &Vec<String>, name: &String) -> (listed: bool)
    ensures
        listed == (exists|j: int| 0 <= j < names.len() && names[j]@ == name@),
{
    let mut j: usize = 0;
    while j < names.len()
        invariant
            0 <= j <= names.len(),
            forall|k: int| 0 <= k < j ==> names[k]@ != name@,
        decreases names.len() - j,
    {
        if names[j] == *name {
            return true;
        }
        j += 1;
    }
    false
}

/// Whether the two lists share a name.
fn share_name(groups: &Vec<String>, memberships: &Vec<String>) -> (shared: bool)
    ensures
        shared == share_a_name(groups.deep_view(), memberships.deep_view()),
{
    let mut i: usize = 0;
    while i < groups.len()
        invariant
            0 <= i <= groups.len(),
            forall|k: int, j: int|
                0 <= k < i && 0 <= j < memberships.len() ==> groups[k]@ != memberships[j]@,
        decreases groups.len() - i,
    {
        if is_listed(memberships, &groups[i]) {
            proof {
                let j = choose|j: int| 0 <= j < memberships.len() && memberships[j]@ == groups[i as int]@;
                assert(groups.deep_view()[i as int] == memberships.deep_view()[j]);
            }
            return true;
        }
        i += 1;
    }
    proof {
        let g = groups.deep_view();
        let m = memberships.deep_view();
        assert forall|k: int, j: int| 0 <= k < g.len() && 0 <= j < m.len() implies g[k] != m[j] by {
            assert(groups[k]@ != memberships[j]@);
        }
    }
    false
}

/// Applies the bypass rule to what the lookup of the user's groups gave.
pub fn evaluate_bypass(groups: &Vec<String>, memberships: &Option<Vec<String>>) -> (decision:
    BypassDecision)
    ensures
        decision == bypass_decision(groups.deep_view(), memberships.deep_view()),
{
    if groups.len() == 0 {
        BypassDecision::NoDecision
    } else {
        match memberships {
            None => BypassDecision::UserUnknown,
            Some(m) => if share_name(groups, m) {
                BypassDecision::Accept
            } else {
                BypassDecision::NoDecision
            },
        }
    }
}

} // verus!
