//! The redirect policy of a session: which redirects the client follows, and where a
//! chain of redirects ends under it.

use crate::endpoints::CONSOLE_URL;
use crate::first::{first_index, is_first, lemma_first_index};
use crate::text::{has_prefix, starts_with};
use vstd::prelude::*;

verus! {

/// How many redirects a session follows at most.
pub const MAX_REDIRECTS: usize = 3;

/// What the client does with a redirect.
#[derive(Clone, Copy, Debug, PartialEq, Eq, Structural)]
pub enum RedirectAction {
    /// Request the target.
    Follow,
    /// Hand the redirecting answer to the caller as it is.
    Stop,
}

/// The redirect policy of a session. A redirect whose target starts with `capture_prefix`
/// is never followed: the caller reads the target from the answer.
#[derive(Clone, Debug)]
pub struct RedirectPolicy {
    pub max_redirects: usize,
    pub capture_prefix: String,
}

/// The mathematical content of a [`RedirectPolicy`].
pub ghost struct RedirectPolicyView {
    pub max_redirects: nat,
    pub capture_prefix: Seq<char>,
}

impl View for RedirectPolicy {
    type V = RedirectPolicyView;

    open spec fn view(&self) -> RedirectPolicyView {
        RedirectPolicyView {
            max_redirects: self.max_redirects as nat,
            capture_prefix: self.capture_prefix@,
        }
    }
}

impl RedirectPolicyView {
    /// Whether the policy stops at redirect number `number` of a chain, counted from 1,
    /// when it leads to `target`.
    pub open spec fn stops(self, number: int, target: Seq<char>) -> bool {
        number > self.max_redirects || has_prefix(target, self.capture_prefix)
    }

    /// The condition on an index of `targets`: the policy stops at the redirect there.
    pub open spec fn stops_at(self, targets: Seq<Seq<char>>) -> spec_fn(int) -> bool {
        |j: int| self.stops(j + 1, targets[j])
    }

    /// How many redirects of a chain the client follows.
    pub open spec fn followed(self, targets: Seq<Seq<char>>) -> int {
        match first_index(targets.len() as int, self.stops_at(targets)) {
            Some(j) => j,
            None => targets.len() as int,
        }
    }

    /// Where the chain that starts at `start` and redirects to each of `targets` in turn
    /// ends for the client.
    pub open spec fn landing(self, start: Seq<char>, targets: Seq<Seq<char>>) -> LandingView {
        let n = self.followed(targets);
        LandingView {
            url: if n == 0 {
                start
            } else {
                targets[n - 1]
            },
            pending: if n < targets.len() {
                Some(targets[n])
            } else {
                None
            },
            followed: n as nat,
        }
    }
}

/// Where a chain of redirects ended: the address of the last request that was made, the
/// target of the redirect that was not followed, if there is one, and the number of
/// redirects that were.
#[derive(Clone, Debug)]
pub struct Landing {
    pub url: String,
    pub pending: Option<String>,
    pub followed: usize,
}

/// The mathematical content of a [`Landing`].
pub ghost struct LandingView {
    pub url: Seq<char>,
    pub pending: Option<Seq<char>>,
    pub followed: nat,
}

impl View for Landing {
    type V = LandingView;

    open spec fn view(&self) -> LandingView {
        LandingView {
            url: self.url@,
            pending: self.pending.deep_view(),
            followed: self.followed as nat,
        }
    }
}

impl RedirectPolicy {
    /// The policy of a login session: at most three redirects, and none into the console.
    pub fn console() -> (policy: RedirectPolicy)
        ensures
            policy@ == (RedirectPolicyView {
                max_redirects: MAX_REDIRECTS as nat,
                capture_prefix: CONSOLE_URL@,
            }),
    {
        RedirectPolicy { max_redirects: MAX_REDIRECTS, capture_prefix: CONSOLE_URL.to_owned() }
    }

    /// Decides on one redirect. `previous` is the number of requests that the chain has
    /// made so far, so the number of this redirect in the chain.
    pub fn decide(&self, previous: usize, target: &str) -> (action: RedirectAction)
        ensures
            action == if self@.stops(previous as int, target@) {
                RedirectAction::Stop
            } else {
                RedirectAction::Follow
            },
    {
        if previous > self.max_redirects || starts_with(target, self.capture_prefix.as_str()) {
            RedirectAction::Stop
        } else {
            RedirectAction::Follow
        }
    }

    /// Walks the chain that starts at `start` and redirects to each of `targets` in turn,
    /// as a client with this policy does.
    pub fn walk(&self, start: &str, targets: &Vec<String>) -> (landing: Landing)
        ensures
            landing@ == self@.landing(start@, targets.deep_view()),
    {
        let ghost chain = targets.deep_view();
        let mut j: usize = 0;
        while j < targets.len()
            invariant
                j <= targets.len(),
                chain == targets.deep_view(),
                forall|k: int| 0 <= k < j ==> !#[trigger] self@.stops_at(chain)(k),
            decreases targets.len() - j,
        {
            match self.decide(j + 1, targets[j].as_str()) {
                RedirectAction::Stop => {
                    proof {
                        lemma_first_index(chain.len() as int, self@.stops_at(chain));
                        assert(is_first(chain.len() as int, self@.stops_at(chain), j as int));
                    }
                    let url = if j == 0 {
                        start.to_owned()
                    } else {
                        targets[j - 1].clone()
                    };
                    return Landing { url, pending: Some(targets[j].clone()), followed: j };
                },
                RedirectAction::Follow => {
                    j += 1;
                },
            }
        }
        proof {
            lemma_first_index(chain.len() as int, self@.stops_at(chain));
        }
        let url = if j == 0 {
            start.to_owned()
        } else {
            targets[j - 1].clone()
        };
        Landing { url, pending: None, followed: j }
    }
}

/// A client never follows more redirects than the policy allows, and a chain that holds
/// more than that is cut: it ends with a redirect that was not followed.
pub proof fn lemma_long_chain_is_cut(
    policy: RedirectPolicyView,
    start: Seq<char>,
    targets: Seq<Seq<char>>,
)
    ensures
        policy.landing(start, targets).followed <= policy.max_redirects,
        targets.len() > policy.max_redirects ==> policy.landing(start, targets).pending is Some,
{
    lemma_first_index(targets.len() as int, policy.stops_at(targets));
    let f = policy.followed(targets);
    if targets.len() > policy.max_redirects {
        let j = policy.max_redirects as int;
        assert(policy.stops_at(targets)(j));
        assert(is_first(targets.len() as int, policy.stops_at(targets), f));
        assert(!(j < f));
    } else if first_index(targets.len() as int, policy.stops_at(targets)) is Some {
        assert(is_first(targets.len() as int, policy.stops_at(targets), f));
    }
}

} // verus!
