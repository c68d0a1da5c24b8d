//! Redirect matcher: decides whether a URL observed inside the
//! authorization surface is a registered provider callback, and if so
//! extracts the authorization result from its query parameters.
//!
//! Only the part of the URL before the query participates in pattern
//! matching, so an intermediate redirect that merely mentions a callback in
//! a parameter is not taken for the callback itself. Within the query, a
//! non-empty `code` parameter wins; otherwise a non-empty `error` parameter;
//! a registered callback carrying neither yields a failure naming the
//! missing result.

use crate::outcome::CallbackOutcome;
use crate::strutil::{contains_seq, find_char_in, first_index_of, range_eq, str_contains};
use vstd::prelude::*;

verus! {

/// The providers whose callbacks the bridge recognises.
#[derive(Clone, Copy, Debug, PartialEq, Eq, Structural)]
pub enum Provider {
    Baidu,
    Qwen,
}

/// What the matcher says of one observed URL.
#[derive(Debug)]
pub enum RedirectMatch {
    NoMatch,
    Match { provider: Provider, outcome: CallbackOutcome },
}

/// Host-and-path pattern registered for the Baidu callback.
pub open spec fn baidu_pattern() -> Seq<char> {
    "alistgo.com/tool/baidu/callback"@
}

/// Host-and-path pattern registered for the Qwen callback.
pub open spec fn qwen_pattern() -> Seq<char> {
    "qwen-callback"@
}

/// One `key=value` piece of a query string: the part before the first `=`
/// names the parameter; a piece without `=` has an empty value.
pub open spec fn param_of(piece: Seq<char>) -> (Seq<char>, Seq<char>) {
    let eq = first_index_of(piece, '=');
    if eq == piece.len() {
        (piece, Seq::empty())
    } else {
        (piece.take(eq), piece.skip(eq + 1))
    }
}

/// The parameters of a query string, in order: the pieces between `&`
/// separators, each read as `key=value`.
pub open spec fn query_params(q: Seq<char>) -> Seq<(Seq<char>, Seq<char>)>
    decreases q.len(),
    via query_params_decreases
{
    let amp = first_index_of(q, '&');
    if amp == q.len() {
        seq![param_of(q)]
    } else {
        seq![param_of(q.take(amp))] + query_params(q.skip(amp + 1))
    }
}

#[via_fn]
proof fn query_params_decreases(q: Seq<char>) {
    crate::strutil::lemma_first_index_of(q, '&');
}

/// The value of the first parameter named `name` whose value is non-empty,
/// if any.
pub open spec fn first_param_value(
    params: Seq<(Seq<char>, Seq<char>)>,
    name: Seq<char>,
) -> Option<Seq<char>>
    decreases params.len(),
{
    if params.len() == 0 {
        None
    } else if params[0].0 == name && params[0].1.len() > 0 {
        Some(params[0].1)
    } else {
        first_param_value(params.drop_first(), name)
    }
}

/// Lookup of a named parameter's first non-empty value in a query string.
pub open spec fn query_value(q: Seq<char>, name: Seq<char>) -> Option<Seq<char>> {
    first_param_value(query_params(q), name)
}

/// The URL up to its query: the part the callback patterns are matched
/// against.
pub open spec fn spec_location(url: Seq<char>) -> Seq<char> {
    url.take(first_index_of(url, '?'))
}

/// The URL's query string: what follows the first `?`, or empty.
pub open spec fn spec_query(url: Seq<char>) -> Seq<char> {
    let qm = first_index_of(url, '?');
    if qm == url.len() {
        Seq::empty()
    } else {
        url.skip(qm + 1)
    }
}

/// The provider whose registered pattern the URL's location carries, if
/// any; the Baidu pattern is consulted first.
pub open spec fn spec_provider(url: Seq<char>) -> Option<Provider> {
    if contains_seq(spec_location(url), baidu_pattern()) {
        Some(Provider::Baidu)
    } else if contains_seq(spec_location(url), qwen_pattern()) {
        Some(Provider::Qwen)
    } else {
        None
    }
}

/// The outcome a registered callback's query decides: a non-empty `code`
/// wins, then a non-empty `error`, else a failure naming the missing
/// result.
pub open spec fn outcome_for_query(q: Seq<char>, out: CallbackOutcome) -> bool {
    match query_value(q, "code"@) {
        Some(c) => (out matches CallbackOutcome::Success { code } && code@ == c),
        None => match query_value(q, "error"@) {
            Some(e) => (out matches CallbackOutcome::Failure { reason } && reason@ == e),
            None => (out matches CallbackOutcome::Failure { reason } && reason@
                == "missing authorization result"@),
        },
    }
}

/// Finds the first non-empty value of the parameter named `name` in the
/// query string that starts at `from`, scanning one `&`-separated piece per
/// call.
fn scan_query(s: &str, from: usize, name: &str) -> (r: Option<String>)
    requires
        from <= s@.len(),
        s@.len() <= usize::MAX,
    ensures
        match r {
            Some(v) => query_value(s@.skip(from as int), name@) == Some(v@),
            None => query_value(s@.skip(from as int), name@) is None,
        },
    decreases s@.len() - from,
{
    let n = s.unicode_len();
    let amp = find_char_in(s, from, n, '&');
    let eq = find_char_in(s, from, amp, '=');
    let name_end = if eq == amp {
        amp
    } else {
        eq
    };
    let ghost q = s@.skip(from as int);
    let ghost amp_rel = amp - from;
    let ghost piece = s@.subrange(from as int, amp as int);
    proof {
        assert(q =~= s@.subrange(from as int, n as int));
        assert(amp - from == first_index_of(q, '&'));
        if amp_rel == q.len() {
            assert(piece =~= q);
        } else {
            assert(piece =~= q.take(amp_rel));
        }
        assert(eq - from == first_index_of(piece, '='));
        if eq < amp {
            assert(piece.take(eq - from) =~= s@.subrange(from as int, eq as int));
            assert(piece.skip(eq - from + 1) =~= s@.subrange(eq + 1, amp as int));
        }
        assert(query_params(q)[0] == param_of(piece));
    }
    let name_hit = range_eq(s, from, name_end, name);
    let has_value = eq < amp;
    if name_hit && has_value && eq + 1 < amp {
        let v = s.substring_char(eq + 1, amp).to_owned();
        proof {
            assert(param_of(piece).0 == name@);
            assert(param_of(piece).1 == v@);
            assert(param_of(piece).1.len() > 0);
        }
        Some(v)
    } else {
        proof {
            // the head parameter misses: wrong name, or an empty value
            assert(!(param_of(piece).0 == name@ && param_of(piece).1.len() > 0));
            assert(first_param_value(query_params(q), name@) == first_param_value(
                query_params(q).drop_first(),
                name@,
            ));
        }
        if amp == n {
            proof {
                assert(query_params(q).drop_first() =~= Seq::<(Seq<char>, Seq<char>)>::empty());
            }
            None
        } else {
            proof {
                assert(q.skip(amp_rel + 1) =~= s@.skip(amp + 1));
                assert(query_params(q).drop_first() =~= query_params(s@.skip(amp + 1)));
            }
            scan_query(s, amp + 1, name)
        }
    }
}

/// Classifies a URL observed in the authorization surface: `NoMatch` for
/// anything but a registered callback; for a callback, the provider and the
/// outcome its query parameters decide.
pub fn match_redirect(url: &str) -> (r: RedirectMatch)
    ensures
        spec_provider(url@) is None ==> r is NoMatch,
        spec_provider(url@) matches Some(p) ==> (r matches RedirectMatch::Match {
            provider,
            outcome,
        } && provider == p && outcome_for_query(spec_query(url@), outcome)),
{
    let n = url.unicode_len();
    let qm = find_char_in(url, 0, n, '?');
    proof {
        assert(url@.subrange(0, n as int) =~= url@);
        assert(url@.take(qm as int) =~= url@.subrange(0, qm as int));
    }
    let loc = url.substring_char(0, qm);
    let provider = if str_contains(loc, "alistgo.com/tool/baidu/callback") {
        Some(Provider::Baidu)
    } else if str_contains(loc, "qwen-callback") {
        Some(Provider::Qwen)
    } else {
        None
    };
    match provider {
        None => RedirectMatch::NoMatch,
        Some(p) => {
            let qstart = if qm == n {
                n
            } else {
                qm + 1
            };
            proof {
                assert(url@.skip(qstart as int) =~= spec_query(url@));
            }
            let outcome = match scan_query(url, qstart, "code") {
                Some(code) => CallbackOutcome::Success { code },
                None => match scan_query(url, qstart, "error") {
                    Some(reason) => CallbackOutcome::Failure { reason },
                    None => CallbackOutcome::Failure {
                        reason: "missing authorization result".to_owned(),
                    },
                },
            };
            RedirectMatch::Match { provider: p, outcome }
        },
    }
}

} // verus!
