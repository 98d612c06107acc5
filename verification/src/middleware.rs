//! What a web framework's adapter does with a request: the decisions,
//! without the framework.

use vstd::prelude::*;

use crate::client::bearer_token;
use crate::types::{User, UserView};

verus! {

/// The status of a rejected request.
pub const UNAUTHORIZED: u16 = 401;

/// What becomes of a request that carries no accepted token.
#[derive(Clone, Copy, Debug, PartialEq, Eq, Structural)]
pub enum MiddlewarePolicy {
    /// It is answered with 401.
    Reject,
    /// It goes on to the handler, without a user.
    PassThrough,
}

/// What the adapter does with a request.
#[derive(Debug)]
pub enum Decision {
    /// Hand it on, with the user attached for the handlers.
    Attach(User),
    /// Hand it on without a user.
    Anonymous,
    /// Answer it with 401.
    Deny,
}

/// The model of a [`Decision`].
pub enum DecisionView {
    Attach(UserView),
    Anonymous,
    Deny,
}

impl View for Decision {
    type V = DecisionView;

    open spec fn view(&self) -> DecisionView {
        match self {
            Decision::Attach(user) => DecisionView::Attach(user@),
            Decision::Anonymous => DecisionView::Anonymous,
            Decision::Deny => DecisionView::Deny,
        }
    }
}

/// The decision on a request: a verified user is always attached; without
/// one the policy decides.
pub open spec fn decided(policy: MiddlewarePolicy, verified: Option<UserView>) -> DecisionView {
    match verified {
        Some(user) => DecisionView::Attach(user),
        None => match policy {
            MiddlewarePolicy::Reject => DecisionView::Deny,
            MiddlewarePolicy::PassThrough => DecisionView::Anonymous,
        },
    }
}

/// The token of a request: what its `Authorization` header carries after
/// `Bearer `.
pub open spec fn carried_token(header: Option<Seq<char>>) -> Option<Seq<char>> {
    match header {
        Some(h) => {
            if "Bearer "@.is_prefix_of(h) {
                Some(h.subrange("Bearer "@.len() as int, h.len() as int))
            } else {
                None
            }
        },
        None => None,
    }
}

/// The decisions of an adapter, with its policy.
#[derive(Clone, Copy, Debug)]
pub struct AuthFlowMiddleware {
    policy: MiddlewarePolicy,
}

/// A handler wrapped by the middleware.
pub struct AuthFlowMiddlewareService<S> {
    service: S,
    policy: MiddlewarePolicy,
}

impl AuthFlowMiddleware {
    /// A middleware with this policy.
    pub fn new(policy: MiddlewarePolicy) -> (middleware: AuthFlowMiddleware)
        ensures
            middleware.policy() == policy,
    {
        AuthFlowMiddleware { policy }
    }

    /// The policy.
    pub closed spec fn policy(&self) -> MiddlewarePolicy {
        self.policy
    }

    /// The policy.
    #[verifier::when_used_as_spec(policy)]
    pub fn get_policy(&self) -> (policy: MiddlewarePolicy)
        ensures
            policy == self.policy(),
    {
        self.policy
    }

    /// Wraps a handler.
    pub fn new_transform<S>(&self, service: S) -> (wrapped: AuthFlowMiddlewareService<S>)
        ensures
            wrapped.policy() == self.policy(),
            *wrapped.inner() == service,
    {
        AuthFlowMiddlewareService { service, policy: self.policy }
    }
}

/// The token that a request carries, if its `Authorization` header is a
/// bearer's.
pub fn token_of<'a>(header: Option<&'a str>) -> (token: Option<&'a str>)
    ensures
        match token {
            Some(t) => carried_token(header_text(header)) == Some(t@),
            None => carried_token(header_text(header)) is None,
        },
{
    match header {
        Some(h) => {
            let token = bearer_token(h);
            proof {
                match token {
                    Some(t) => {
                        let p = "Bearer "@;
                        assert(p =~= h@.subrange(0, p.len() as int));
                        assert(t@ =~= h@.subrange(p.len() as int, h@.len() as int));
                    },
                    None => {},
                }
            }
            token
        },
        None => None,
    }
}

/// The text of an optional header.
pub open spec fn header_text(header: Option<&str>) -> Option<Seq<char>> {
    match header {
        Some(h) => Some(h@),
        None => None,
    }
}

/// The model of an optional user.
pub open spec fn verified_view(verified: Option<User>) -> Option<UserView> {
    match verified {
        Some(user) => Some(user@),
        None => None,
    }
}

/// The decision on a request, given the user that its token was verified
/// to stand for, if any.
pub fn decide(policy: MiddlewarePolicy, verified: Option<User>) -> (decision: Decision)
    ensures
        decision@ == decided(policy, verified_view(verified)),
{
    match verified {
        Some(user) => Decision::Attach(user),
        None => match policy {
            MiddlewarePolicy::Reject => Decision::Deny,
            MiddlewarePolicy::PassThrough => Decision::Anonymous,
        },
    }
}

impl<S> AuthFlowMiddlewareService<S> {
    /// The policy.
    pub closed spec fn policy(&self) -> MiddlewarePolicy {
        self.policy
    }

    /// The wrapped handler.
    pub closed spec fn inner(&self) -> &S {
        &self.service
    }

    /// The wrapped handler.
    pub fn service(&self) -> (service: &S)
        ensures
            service == self.inner(),
    {
        &self.service
    }

    /// The decision on a request, given the user that its token was
    /// verified to stand for, if any.
    pub fn decide(&self, verified: Option<User>) -> (decision: Decision)
        ensures
            decision@ == decided(self.policy(), verified_view(verified)),
    {
        decide(self.policy, verified)
    }
}

} // verus!
