//! The fallback resolver: tries providers strictly in list order until one succeeds.
//!
//! The resolver is a state machine driven by its caller, who sends each request it asks for
//! and reports what came of it:
//!
//! ```text
//! let mut run = FallbackLookup::new(providers, target);
//! loop {
//!     match run.next_action() {
//!         FallbackAction::Send(_, request) => run.record_outcome(send_and_decode(request)),
//!         FallbackAction::Done(result) => break result,
//!     }
//! }
//! ```

use vstd::prelude::*;
use vstd::string::*;
use crate::error::{Error, LookupError};
use crate::ip::IpAddress;
use crate::lookup::{plans, LookupProvider, LookupRequest, LookupService, Parameters};
use crate::lookup::providers::supports_target;
use crate::response::LookupResponse;

verus! {

/// One provider of a fallback list, with the credentials to use with it.
pub type ProviderEntry = (LookupProvider, Option<Parameters>);

/// A fallback lookup in progress.
pub struct FallbackLookup {
    /// The providers, in the order they are tried.
    pub providers: Vec<ProviderEntry>,
    /// The address to look up; `None` for the caller's own address.
    pub target: Option<IpAddress>,
    /// One error per provider tried so far, in list order.
    pub errors: Vec<LookupError>,
    /// The first successful response, once one came.
    pub response: Option<LookupResponse>,
}

/// What the caller of a fallback lookup does next.
pub enum FallbackAction {
    /// Send this request for the provider at this index, then report its outcome.
    Send(usize, LookupRequest),
    /// The lookup is over, with this result.
    Done(Result<LookupResponse, Error>),
}

/// The errors after the providers from `errors.len()` on that cannot look up `target` have
/// each been refused, up to the first one that can.
pub open spec fn settled(
    providers: Seq<ProviderEntry>,
    target: Option<IpAddress>,
    errors: Seq<LookupError>,
) -> Seq<LookupError>
    decreases providers.len() - errors.len(),
{
    if errors.len() < providers.len() && target is Some && !supports_target(
        providers[errors.len() as int].0,
    ) {
        settled(providers, target, errors.push(LookupError::TargetNotSupported))
    } else {
        errors
    }
}

/// Whether `e` is the configuration error for an empty provider list.
pub open spec fn is_no_providers_error(e: Error) -> bool {
    &&& e is LookupError
    &&& e->LookupError_0 is GenericError
    &&& e->LookupError_0->GenericError_0@ == "No providers given"@
}

/// Whether `next_action` takes `before` to `after` and answers `a`.
pub open spec fn acts(before: FallbackLookup, after: FallbackLookup, a: FallbackAction) -> bool {
    let providers = before.providers@;
    &&& after.providers == before.providers
    &&& after.target == before.target
    &&& after.response == before.response
    &&& match before.response {
        Some(r) => {
            &&& after.errors == before.errors
            &&& a == FallbackAction::Done(Ok(r))
        },
        None => {
            let i = after.errors@.len() as int;
            &&& after.errors@ == settled(providers, before.target, before.errors@)
            &&& if providers.len() == 0 {
                a is Done && a->Done_0 is Err && is_no_providers_error(a->Done_0->Err_0)
            } else if i >= providers.len() {
                &&& a is Done
                &&& a->Done_0 is Err
                &&& a->Done_0->Err_0 is ProvidersFailed
                &&& a->Done_0->Err_0->ProvidersFailed_0@ == after.errors@
            } else {
                &&& a is Send
                &&& a->Send_0 == i
                &&& plans(providers[i].0, providers[i].1, before.target, Ok(a->Send_1))
            }
        },
    }
}

/// Whether `record_outcome` takes `before` to `after` for `outcome`.
pub open spec fn records(
    before: FallbackLookup,
    after: FallbackLookup,
    outcome: Result<LookupResponse, LookupError>,
) -> bool {
    &&& after.providers == before.providers
    &&& after.target == before.target
    &&& match before.response {
        Some(_) => after.errors == before.errors && after.response == before.response,
        None => match outcome {
            Ok(r) => after.errors == before.errors && after.response == Some(r),
            Err(e) => after.errors@ == before.errors@.push(e) && after.response is None,
        },
    }
}

/// A copy of a list of errors.
fn duplicate_errors(errors: &Vec<LookupError>) -> (r: Vec<LookupError>)
    ensures
        r@ == errors@,
{
    let mut out: Vec<LookupError> = Vec::new();
    let mut i: usize = 0;
    while i < errors.len()
        invariant
            0 <= i <= errors@.len(),
            out@ == errors@.take(i as int),
        decreases errors@.len() - i,
    {
        out.push(errors[i].duplicate());
        assert(errors@.take(i + 1) =~= errors@.take(i as int).push(errors@[i as int]));
        i += 1;
    }
    assert(errors@.take(errors@.len() as int) =~= errors@);
    out
}

impl FallbackLookup {
    /// A fallback lookup of `target` over `providers`, nothing tried yet.
    pub fn new(providers: Vec<ProviderEntry>, target: Option<IpAddress>) -> (r: FallbackLookup)
        ensures
            r.providers == providers,
            r.target == target,
            r.errors@.len() == 0,
            r.response is None,
    {
        FallbackLookup { providers, target, errors: Vec::new(), response: None }
    }

    /// The next thing to do: send the request of the next provider that can look up the
    /// target (refusing, without a request, those before it that cannot), or finish with the
    /// first success, the error of an empty list, or every provider's error in list order.
    pub fn next_action(&mut self) -> (a: FallbackAction)
        ensures
            acts(*old(self), *final(self), a),
    {
        if let Some(r) = &self.response {
            return FallbackAction::Done(Ok(r.duplicate()));
        }
        if self.providers.len() == 0 {
            return FallbackAction::Done(
                Err(Error::LookupError(LookupError::GenericError(String::from_str("No providers given")))),
            );
        }
        let n = self.providers.len();
        while self.errors.len() < n
            invariant
                n == self.providers@.len(),
                self.providers == old(self).providers,
                self.target == old(self).target,
                self.response == old(self).response,
                self.response is None,
                settled(self.providers@, self.target, self.errors@) == settled(
                    self.providers@,
                    self.target,
                    old(self).errors@,
                ),
            decreases n - self.errors@.len(),
        {
            let i = self.errors.len();
            let (provider, parameters) = &self.providers[i];
            let service = LookupService::new(provider.duplicate(), match parameters {
                Some(p) => Some(p.duplicate()),
                None => None,
            });
            match service.request(&self.target) {
                Ok(request) => {
                    assert(settled(self.providers@, self.target, self.errors@) == self.errors@);
                    return FallbackAction::Send(i, request);
                },
                Err(e) => {
                    let ghost before = self.errors@;
                    self.errors.push(e);
                    assert(settled(self.providers@, self.target, before) == settled(
                        self.providers@,
                        self.target,
                        self.errors@,
                    ));
                },
            }
        }
        assert(settled(self.providers@, self.target, self.errors@) == self.errors@);
        FallbackAction::Done(Err(Error::ProvidersFailed(duplicate_errors(&self.errors))))
    }

    /// Reports the outcome of the request last asked for: a success ends the lookup, a failure
    /// is kept and the next provider is tried.
    pub fn record_outcome(&mut self, outcome: Result<LookupResponse, LookupError>)
        ensures
            records(*old(self), *final(self), outcome),
    {
        if self.response.is_some() {
            return;
        }
        match outcome {
            Ok(r) => {
                self.response = Some(r);
            },
            Err(e) => {
                self.errors.push(e);
            },
        }
    }
}

/// Providers are tried strictly in list order. With three providers that can each look up the
/// target, the first request goes to the first provider; the first failure does not stop the
/// lookup but sends the next request to the second provider, whose failure sends the next to
/// the third; the third provider's success is the result, and both failures are kept in order.
pub proof fn law_fallback_order(
    s0: FallbackLookup,
    s1: FallbackLookup,
    a1: FallbackAction,
    ea: LookupError,
    s2: FallbackLookup,
    s3: FallbackLookup,
    a3: FallbackAction,
    eb: LookupError,
    s4: FallbackLookup,
    s5: FallbackLookup,
    a5: FallbackAction,
    rc: LookupResponse,
    s6: FallbackLookup,
    s7: FallbackLookup,
    a7: FallbackAction,
)
    requires
        s0.providers@.len() == 3,
        forall|k: int|
            0 <= k < 3 ==> s0.target is None || supports_target(#[trigger] s0.providers@[k].0),
        s0.errors@.len() == 0,
        s0.response is None,
        acts(s0, s1, a1),
        records(s1, s2, Err(ea)),
        acts(s2, s3, a3),
        records(s3, s4, Err(eb)),
        acts(s4, s5, a5),
        records(s5, s6, Ok(rc)),
        acts(s6, s7, a7),
    ensures
        a1 is Send && a1->Send_0 == 0,
        a3 is Send && a3->Send_0 == 1,
        a5 is Send && a5->Send_0 == 2,
        a7 == FallbackAction::Done(Ok(rc)),
        s7.errors@ == seq![ea, eb],
{
    assert(s0.target is None || supports_target(s0.providers@[0].0));
    assert(s0.target is None || supports_target(s0.providers@[1].0));
    assert(s0.target is None || supports_target(s0.providers@[2].0));
    assert(s1.errors@ == s0.errors@);
    assert(s3.errors@ == s2.errors@);
    assert(s5.errors@ == s4.errors@);
    assert(s5.errors@ =~= seq![ea, eb]);
}

/// While no provider has succeeded and `k` providers have failed, a provider at index `k` that
/// can look up the target is the one asked next, with its own request.
pub proof fn law_next_request(s: FallbackLookup, s1: FallbackLookup, a: FallbackAction)
    requires
        s.response is None,
        s.errors@.len() < s.providers@.len(),
        s.target is None || supports_target(s.providers@[s.errors@.len() as int].0),
        acts(s, s1, a),
    ensures
        a is Send,
        a->Send_0 == s.errors@.len(),
        plans(
            s.providers@[s.errors@.len() as int].0,
            s.providers@[s.errors@.len() as int].1,
            s.target,
            Ok(a->Send_1),
        ),
        s1.errors@ == s.errors@,
{
}

/// A failure of any kind never ends the lookup while providers remain: after the provider at
/// index `k` fails, the provider at `k + 1`, if it can look up the target, is asked next.
pub proof fn law_failure_moves_on(
    s: FallbackLookup,
    e: LookupError,
    s1: FallbackLookup,
    s2: FallbackLookup,
    a: FallbackAction,
)
    requires
        s.response is None,
        s.errors@.len() + 1 < s.providers@.len(),
        s.target is None || supports_target(s.providers@[s.errors@.len() + 1int].0),
        records(s, s1, Err(e)),
        acts(s1, s2, a),
    ensures
        s1.errors@ == s.errors@.push(e),
        a is Send,
        a->Send_0 == s.errors@.len() + 1,
        plans(
            s.providers@[s.errors@.len() + 1int].0,
            s.providers@[s.errors@.len() + 1int].1,
            s.target,
            Ok(a->Send_1),
        ),
{
    law_next_request(s1, s2, a);
}

/// An empty provider list ends at once with the configuration error "No providers given";
/// no request is ever asked for, however often the lookup is stepped.
pub proof fn law_empty_list(s0: FallbackLookup, s1: FallbackLookup, a: FallbackAction)
    requires
        s0.providers@.len() == 0,
        s0.response is None,
        acts(s0, s1, a),
    ensures
        a is Done,
        a->Done_0 is Err,
        is_no_providers_error(a->Done_0->Err_0),
        s1.providers@.len() == 0,
        s1.response is None,
{
}

} // verus!
