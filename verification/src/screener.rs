//! Request screening: paths are tested against regular expressions,
//! user agents against plain pieces of text without regard to case.

use crate::patterns::{
    clone_set, compile_set, describe, first_match, pattern_matches, patterns_compile,
    regex_set_patterns,
};
use crate::text::{contains_ignoring_case, find, lowercase_of, lowered_chars, texts};
use vstd::prelude::*;

verus! {

/// The patterns that a screener is made from.
#[derive(Debug, Clone)]
pub struct ScreeningConfig {
    /// Regular expressions; a path that one of them matches is malicious.
    pub path_patterns: Vec<String>,
    /// Pieces of text; a user agent that holds one of them, in any case, is malicious.
    pub user_agent_patterns: Vec<String>,
}

impl ScreeningConfig {
    /// The path patterns as character sequences.
    pub open spec fn path_rules(&self) -> Seq<Seq<char>> {
        texts(self.path_patterns@)
    }

    /// The user-agent patterns as character sequences.
    pub open spec fn agent_rules(&self) -> Seq<Seq<char>> {
        texts(self.user_agent_patterns@)
    }

    /// A configuration without patterns.
    pub fn new() -> (config: Self)
        ensures
            config.path_rules() == Seq::<Seq<char>>::empty(),
            config.agent_rules() == Seq::<Seq<char>>::empty(),
    {
        let config = ScreeningConfig { path_patterns: Vec::new(), user_agent_patterns: Vec::new() };
        assert(config.path_rules() =~= Seq::empty());
        assert(config.agent_rules() =~= Seq::empty());
        config
    }

    /// The same configuration with one more path pattern at the end.
    pub fn with_path_pattern(self, pattern: &str) -> (config: Self)
        ensures
            config.path_rules() == self.path_rules().push(pattern@),
            config.agent_rules() == self.agent_rules(),
    {
        let mut config = self;
        config.path_patterns.push(pattern.to_owned());
        assert(config.path_rules() =~= self.path_rules().push(pattern@));
        config
    }

    /// The same configuration with more path patterns at the end.
    pub fn with_path_patterns(self, patterns: Vec<String>) -> (config: Self)
        ensures
            config.path_rules() == self.path_rules() + texts(patterns@),
            config.agent_rules() == self.agent_rules(),
    {
        let mut config = self;
        let mut more = patterns;
        config.path_patterns.append(&mut more);
        assert(config.path_rules() =~= self.path_rules() + texts(patterns@));
        config
    }

    /// The same configuration with one more user-agent pattern at the end.
    pub fn with_user_agent_pattern(self, pattern: &str) -> (config: Self)
        ensures
            config.path_rules() == self.path_rules(),
            config.agent_rules() == self.agent_rules().push(pattern@),
    {
        let mut config = self;
        config.user_agent_patterns.push(pattern.to_owned());
        assert(config.agent_rules() =~= self.agent_rules().push(pattern@));
        config
    }

    /// The same configuration with more user-agent patterns at the end.
    pub fn with_user_agent_patterns(self, patterns: Vec<String>) -> (config: Self)
        ensures
            config.path_rules() == self.path_rules(),
            config.agent_rules() == self.agent_rules() + texts(patterns@),
    {
        let mut config = self;
        let mut more = patterns;
        config.user_agent_patterns.append(&mut more);
        assert(config.agent_rules() =~= self.agent_rules() + texts(patterns@));
        config
    }
}

impl Default for ScreeningConfig {
    /// A configuration without patterns.
    fn default() -> (config: Self)
        ensures
            config.path_rules() == Seq::<Seq<char>>::empty(),
            config.agent_rules() == Seq::<Seq<char>>::empty(),
    {
        ScreeningConfig::new()
    }
}

/// Why a request was screened out, with the pattern that caught it.
#[derive(Debug, Clone)]
pub enum ScreeningReason {
    MaliciousPath(String),
    MaliciousUserAgent(String),
}

impl ScreeningReason {
    /// The reason in words, followed by the pattern.
    pub fn to_string(&self) -> (text: String)
        ensures
            self matches ScreeningReason::MaliciousPath(pattern) ==> text@
                == "malicious path pattern: "@ + pattern@,
            self matches ScreeningReason::MaliciousUserAgent(pattern) ==> text@
                == "malicious user agent: "@ + pattern@,
    {
        match self {
            ScreeningReason::MaliciousPath(pattern) => {
                String::from_str("malicious path pattern: ").concat(pattern.as_str())
            },
            ScreeningReason::MaliciousUserAgent(pattern) => {
                String::from_str("malicious user agent: ").concat(pattern.as_str())
            },
        }
    }
}

/// A request that was screened out.
#[derive(Debug, Clone)]
pub struct ScreeningResult {
    pub reason: ScreeningReason,
}

/// Why no screener could be made from a configuration.
#[derive(Debug, Clone)]
pub struct PatternError {
    /// The position of the first path pattern that does not compile on its
    /// own; none when each does and only the whole does not.
    pub index: Option<usize>,
    /// What the compiler of regular expressions said.
    pub message: String,
}

/// The `i`-th of `rules` is the first that matches in `path`.
pub open spec fn first_path_hit(rules: Seq<Seq<char>>, path: Seq<char>, i: int) -> bool {
    &&& 0 <= i < rules.len()
    &&& pattern_matches(rules[i], path)
    &&& forall|j: int| 0 <= j < i ==> !pattern_matches(#[trigger] rules[j], path)
}

/// None of `rules` matches in `path`.
pub open spec fn no_path_hit(rules: Seq<Seq<char>>, path: Seq<char>) -> bool {
    forall|j: int| 0 <= j < rules.len() ==> !pattern_matches(#[trigger] rules[j], path)
}

/// The `i`-th of `rules` is the first that `agent` holds, in any case.
pub open spec fn first_agent_hit(rules: Seq<Seq<char>>, agent: Seq<char>, i: int) -> bool {
    &&& 0 <= i < rules.len()
    &&& contains_ignoring_case(agent, rules[i])
    &&& forall|j: int| 0 <= j < i ==> !contains_ignoring_case(agent, #[trigger] rules[j])
}

/// `agent` holds none of `rules`, in whatever case.
pub open spec fn no_agent_hit(rules: Seq<Seq<char>>, agent: Seq<char>) -> bool {
    forall|j: int| 0 <= j < rules.len() ==> !contains_ignoring_case(agent, #[trigger] rules[j])
}

/// The characters of the lower-case form of each pattern.
fn lowered_patterns(patterns: &Vec<String>) -> (needles: Vec<Vec<char>>)
    ensures
        needles@.len() == patterns@.len(),
        forall|i: int|
            0 <= i < needles@.len() ==> (#[trigger] needles@[i])@ == lowercase_of(patterns@[i]@),
{
    let mut needles: Vec<Vec<char>> = Vec::new();
    let mut i: usize = 0;
    while i < patterns.len()
        invariant
            0 <= i <= patterns@.len(),
            needles@.len() == i,
            forall|j: int|
                0 <= j < i ==> (#[trigger] needles@[j])@ == lowercase_of(patterns@[j]@),
        decreases patterns@.len() - i,
    {
        needles.push(lowered_chars(patterns[i].as_str()));
        i = i + 1;
    }
    needles
}

/// A screener: the compiled path patterns, and the user-agent patterns with
/// their lower-case forms. It does not change once made.
pub struct RequestScreener {
    path_regex_set: regex::RegexSet,
    path_patterns: Vec<String>,
    user_agent_patterns: Vec<String>,
    user_agent_needles: Vec<Vec<char>>,
}

impl RequestScreener {
    #[verifier::type_invariant]
    spec fn well_formed(&self) -> bool {
        &&& regex_set_patterns(self.path_regex_set) == texts(self.path_patterns@)
        &&& self.user_agent_needles@.len() == self.user_agent_patterns@.len()
        &&& forall|i: int|
            0 <= i < self.user_agent_needles@.len() ==> (#[trigger] self.user_agent_needles@[i])@
                == lowercase_of(self.user_agent_patterns@[i]@)
    }

    /// The path patterns, in their order.
    pub closed spec fn path_rules(&self) -> Seq<Seq<char>> {
        texts(self.path_patterns@)
    }

    /// The user-agent patterns, in their order.
    pub closed spec fn agent_rules(&self) -> Seq<Seq<char>> {
        texts(self.user_agent_patterns@)
    }

    /// Some path pattern matches in `path`, or `agent` holds some user-agent
    /// pattern: the request is to be screened out.
    pub open spec fn flags(&self, path: Seq<char>, agent: Seq<char>) -> bool {
        !no_path_hit(self.path_rules(), path) || !no_agent_hit(self.agent_rules(), agent)
    }

    /// `flagged` is the right answer for a request with this path and user
    /// agent: the first path pattern that matches, if there is one; else the
    /// first user-agent pattern that the user agent holds, if there is one;
    /// else nothing.
    pub open spec fn verdict_fits(
        &self,
        path: Seq<char>,
        agent: Seq<char>,
        flagged: Option<ScreeningResult>,
    ) -> bool {
        match flagged {
            Some(found) => match found.reason {
                ScreeningReason::MaliciousPath(pattern) => exists|i: int|
                    first_path_hit(self.path_rules(), path, i) && pattern@
                        == #[trigger] self.path_rules()[i],
                ScreeningReason::MaliciousUserAgent(pattern) => no_path_hit(
                    self.path_rules(),
                    path,
                ) && exists|i: int|
                    first_agent_hit(self.agent_rules(), agent, i) && pattern@
                        == #[trigger] self.agent_rules()[i],
            },
            None => !self.flags(path, agent),
        }
    }

    /// Makes a screener from a configuration, or none at all: it succeeds
    /// exactly when the path patterns compile. When they do not, the error
    /// names the first pattern that does not compile on its own.
    pub fn new(config: &ScreeningConfig) -> (made: Result<Self, PatternError>)
        ensures
            made is Ok <==> patterns_compile(config.path_rules()),
            made matches Ok(screener) ==> screener.path_rules() == config.path_rules()
                && screener.agent_rules() == config.agent_rules(),
            made matches Err(error) ==> match error.index {
                Some(i) => {
                    &&& i < config.path_rules().len()
                    &&& !patterns_compile(seq![config.path_rules()[i as int]])
                    &&& forall|j: int|
                        0 <= j < i ==> patterns_compile(seq![#[trigger] config.path_rules()[j]])
                },
                None => forall|j: int|
                    0 <= j < config.path_rules().len() ==> patterns_compile(
                        seq![#[trigger] config.path_rules()[j]],
                    ),
            },
    {
        match compile_set(&config.path_patterns) {
            Ok(set) => {
                let needles = lowered_patterns(&config.user_agent_patterns);
                let path_patterns = config.path_patterns.clone();
                let user_agent_patterns = config.user_agent_patterns.clone();
                assert(texts(path_patterns@) =~= config.path_rules());
                assert(texts(user_agent_patterns@) =~= config.agent_rules());
                Ok(
                    RequestScreener {
                        path_regex_set: set,
                        path_patterns,
                        user_agent_patterns,
                        user_agent_needles: needles,
                    },
                )
            },
            Err(error) => {
                let message = describe(&error);
                let mut i: usize = 0;
                while i < config.path_patterns.len()
                    invariant
                        0 <= i <= config.path_patterns@.len(),
                        !patterns_compile(config.path_rules()),
                        forall|j: int|
                            0 <= j < i ==> patterns_compile(
                                seq![#[trigger] config.path_rules()[j]],
                            ),
                    decreases config.path_patterns@.len() - i,
                {
                    let mut alone: Vec<String> = Vec::new();
                    alone.push(config.path_patterns[i].clone());
                    assert(texts(alone@) =~= seq![config.path_rules()[i as int]]);
                    if compile_set(&alone).is_err() {
                        return Err(PatternError { index: Some(i), message });
                    }
                    i = i + 1;
                }
                Err(PatternError { index: None, message })
            },
        }
    }

    /// Screens one request. The path is tested first: if a path pattern
    /// matches, the first that does is the reason. Otherwise, if the user
    /// agent holds a user-agent pattern, in whatever case, the first that it
    /// holds is the reason. Otherwise the request passes.
    pub fn check(&self, path: &str, user_agent: &str) -> (flagged: Option<ScreeningResult>)
        ensures
            self.verdict_fits(path@, user_agent@, flagged),
            flagged is Some <==> self.flags(path@, user_agent@),
            !no_path_hit(self.path_rules(), path@) ==> (flagged matches Some(found)
                && found.reason is MaliciousPath),
            no_path_hit(self.path_rules(), path@) && !no_agent_hit(
                self.agent_rules(),
                user_agent@,
            ) ==> (flagged matches Some(found) && found.reason is MaliciousUserAgent),
    {
        proof {
            use_type_invariant(self);
        }
        match first_match(&self.path_regex_set, path) {
            Some(i) => {
                let pattern = self.path_patterns[i].clone();
                assert(first_path_hit(self.path_rules(), path@, i as int));
                assert(pattern@ == self.path_rules()[i as int]);
                return Some(ScreeningResult { reason: ScreeningReason::MaliciousPath(pattern) });
            },
            None => {},
        }
        let agent = lowered_chars(user_agent);
        let mut i: usize = 0;
        while i < self.user_agent_needles.len()
            invariant
                0 <= i <= self.user_agent_needles@.len(),
                self.well_formed(),
                no_path_hit(self.path_rules(), path@),
                agent@ == lowercase_of(user_agent@),
                forall|j: int|
                    0 <= j < i ==> !contains_ignoring_case(
                        user_agent@,
                        #[trigger] self.agent_rules()[j],
                    ),
            decreases self.user_agent_needles@.len() - i,
        {
            if find(&agent, &self.user_agent_needles[i]) {
                let pattern = self.user_agent_patterns[i].clone();
                assert(first_agent_hit(self.agent_rules(), user_agent@, i as int));
                assert(pattern@ == self.agent_rules()[i as int]);
                return Some(
                    ScreeningResult { reason: ScreeningReason::MaliciousUserAgent(pattern) },
                );
            }
            i = i + 1;
        }
        None
    }
}

impl Clone for RequestScreener {
    /// A screener with the same patterns, which gives the same answers.
    fn clone(&self) -> (copy: Self)
        ensures
            copy.path_rules() == self.path_rules(),
            copy.agent_rules() == self.agent_rules(),
    {
        proof {
            use_type_invariant(self);
        }
        let path_patterns = self.path_patterns.clone();
        let user_agent_patterns = self.user_agent_patterns.clone();
        assert(texts(path_patterns@) =~= texts(self.path_patterns@));
        assert(texts(user_agent_patterns@) =~= texts(self.user_agent_patterns@));
        let needles = lowered_patterns(&user_agent_patterns);
        assert forall|i: int| 0 <= i < needles@.len() implies (#[trigger] needles@[i])@
            == lowercase_of(user_agent_patterns@[i]@) by {}
        RequestScreener {
            path_regex_set: clone_set(&self.path_regex_set),
            path_patterns,
            user_agent_patterns,
            user_agent_needles: needles,
        }
    }
}

} // verus!
