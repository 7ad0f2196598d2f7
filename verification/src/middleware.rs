//! The decisions taken for each request: whether it is let through, and what
//! its response does to the bucket afterwards. Whoever serves the requests
//! carries the decisions out.

use crate::config::RateLimitConfig;
use crate::limiter::RateLimiter;
use crate::model::{blocked, check_outcome, checked, penalized, refunded, Entries};
use crate::screener::{ScreeningReason, ScreeningResult};
use crate::time::Timestamp;
use crate::types::{OnBlocked, SecurityContext};
use vstd::prelude::*;

verus! {

/// Status of a response to a request that came while its key was out of tokens or blocked.
pub const STATUS_TOO_MANY_REQUESTS: u16 = 429;

/// Status of a response to a request that was screened out.
pub const STATUS_SCREENED: u16 = 418;

/// Status of a response to a request that came without a security context.
pub const STATUS_MISSING_CONTEXT: u16 = 500;

/// Status of a response that was served from the client's own cache.
pub const STATUS_NOT_MODIFIED: u16 = 304;

/// What becomes of a request.
#[derive(Debug, Clone)]
pub enum Admission {
    /// It is let through; `tokens` units remain in the bucket of its key.
    Allowed { tokens: i64 },
    /// Its key is out of tokens or blocked; `newly_blocked` tells whether
    /// this request began the block.
    RateLimited { newly_blocked: bool },
    /// It was screened out, and its key is blocked from now on.
    Screened { reason: ScreeningReason },
    /// It came without a security context, so that nothing could be decided.
    MissingContext,
}

impl Admission {
    /// The status that refuses the request; none when it is let through.
    pub open spec fn refusal(&self) -> Option<u16> {
        match self {
            Admission::Allowed { .. } => None,
            Admission::RateLimited { .. } => Some(STATUS_TOO_MANY_REQUESTS),
            Admission::Screened { .. } => Some(STATUS_SCREENED),
            Admission::MissingContext => Some(STATUS_MISSING_CONTEXT),
        }
    }

    /// The status that refuses the request; none when it is let through.
    pub fn refusal_status(&self) -> (status: Option<u16>)
        ensures
            status == self.refusal(),
    {
        match self {
            Admission::Allowed { .. } => None,
            Admission::RateLimited { .. } => Some(STATUS_TOO_MANY_REQUESTS),
            Admission::Screened { .. } => Some(STATUS_SCREENED),
            Admission::MissingContext => Some(STATUS_MISSING_CONTEXT),
        }
    }
}

/// The status is one of a client error or of a server error.
pub open spec fn is_error_status(status: u16) -> bool {
    400 <= status < 600
}

/// The store after the response to a request of `key` is known: a refund for
/// a not-modified response, a penalty for an error, and else no change.
pub open spec fn settled(
    entries: Entries,
    key: Seq<char>,
    status: u16,
    config: RateLimitConfig,
) -> Entries {
    if status == STATUS_NOT_MODIFIED {
        refunded(entries, key, config.cache_refund_ratio, config)
    } else if is_error_status(status) {
        penalized(entries, key, config.error_penalty_tokens)
    } else {
        entries
    }
}

impl<B: OnBlocked> RateLimiter<B> {
    /// The request is screened out: the limiter has a screener, and it flags
    /// this path or this user agent.
    pub open spec fn screens_out(&self, path: Seq<char>, agent: Seq<char>) -> bool {
        self.screening() matches Some(screener) && screener.flags(path, agent)
    }

    /// `admission`, and `after` as the limiter that follows, are what deciding
    /// at `now` on a request with this context and path makes of this
    /// limiter. Without a context nothing is touched. Otherwise the key is
    /// the client's address: it is checked first, and a refusal ends the
    /// matter. A request that the check allows is then screened, if there is
    /// a screener; one that is flagged has its key blocked at once. What is
    /// left is let through.
    pub open spec fn decided(
        &self,
        after: Self,
        context: Option<&SecurityContext>,
        path: Seq<char>,
        now: Timestamp,
        admission: Admission,
    ) -> bool {
        &&& after.same_setup(self)
        &&& match context {
            None => admission is MissingContext && after.entries() == self.entries(),
            Some(who) => {
                let key = who.ip_address@;
                let outcome = check_outcome(self.entries(), key, now, self.settings());
                let checked_entries = checked(self.entries(), key, now, self.settings());
                if !outcome.0 {
                    &&& admission == (Admission::RateLimited { newly_blocked: outcome.1 })
                    &&& after.entries() == checked_entries
                } else if self.screens_out(path, who.user_agent@) {
                    &&& admission matches Admission::Screened { reason }
                    &&& self.screening()->0.verdict_fits(
                        path,
                        who.user_agent@,
                        Some(ScreeningResult { reason }),
                    )
                    &&& after.entries() == blocked(checked_entries, key, now, self.settings())
                } else {
                    &&& admission == (Admission::Allowed { tokens: outcome.2 })
                    &&& after.entries() == checked_entries
                }
            },
        }
    }

    /// Decides on one request at `now`, and blocks the key of a request that
    /// is screened out.
    pub fn decide_at(&mut self, context: Option<&SecurityContext>, path: &str, now: Timestamp) -> (admission:
        Admission)
        ensures
            old(self).decided(*final(self), context, path@, now, admission),
    {
        let who = match context {
            Some(who) => who,
            None => {
                return Admission::MissingContext;
            },
        };
        let outcome = self.check_at(who.ip_address.as_str(), who, path, now);
        if !outcome.0 {
            return Admission::RateLimited { newly_blocked: outcome.1 };
        }
        let flagged = match self.screener() {
            Some(screener) => screener.check(path, who.user_agent.as_str()),
            None => None,
        };
        match flagged {
            Some(found) => {
                self.block_at(who.ip_address.as_str(), now);
                Admission::Screened { reason: found.reason }
            },
            None => Admission::Allowed { tokens: outcome.2 },
        }
    }

    /// Decides on one request at the instant that the system clock shows.
    pub fn decide(&mut self, context: Option<&SecurityContext>, path: &str) -> (admission: Admission)
        ensures
            exists|now: Timestamp| #[trigger]
                old(self).decided(*final(self), context, path@, now, admission),
    {
        self.decide_at(context, path, Timestamp::now())
    }

    /// Applies the response's status to the bucket of `key`: a refund of the
    /// configured amount when the response was not modified, the configured
    /// penalty when it was an error, and nothing otherwise. Never both.
    pub fn settle(&mut self, key: &str, status: u16)
        ensures
            final(self).same_setup(old(self)),
            final(self).entries() == settled(
                old(self).entries(),
                key@,
                status,
                old(self).settings(),
            ),
    {
        if status == STATUS_NOT_MODIFIED {
            let amount: u64 = self.config().cache_refund_ratio;
            self.refund_tokens(key, amount);
        } else if status >= 400 && status < 600 {
            let amount: u64 = self.config().error_penalty_tokens;
            self.consume_additional_tokens(key, amount);
        }
    }
}

} // verus!
