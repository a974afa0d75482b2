//! Command dispatcher: inspects a decoded event and decides which action to
//! take. Recognizing the trigger prefix and trimming the query are verified
//! here; the search itself is the orchestrator's concern.

use vstd::prelude::*;
use crate::codec::{is_space_char, ChatMessage, DecodedEvent};

verus! {

/// The reserved token at the start of a message body that activates the
/// search command.
pub open spec fn trigger_prefix() -> Seq<char> {
    "!imdb"@
}

/// Whether `s` starts with `p`.
pub open spec fn starts_with(s: Seq<char>, p: Seq<char>) -> bool {
    s.len() >= p.len() && s.subrange(0, p.len() as int) == p
}

/// `s` with its leading whitespace removed.
pub open spec fn ltrim(s: Seq<char>) -> Seq<char>
    decreases s.len(),
{
    if s.len() > 0 && is_space_char(s[0]) {
        ltrim(s.drop_first())
    } else {
        s
    }
}

/// `s` with its trailing whitespace removed.
pub open spec fn rtrim(s: Seq<char>) -> Seq<char>
    decreases s.len(),
{
    if s.len() > 0 && is_space_char(s[s.len() - 1]) {
        rtrim(s.drop_last())
    } else {
        s
    }
}

/// `s` with both leading and trailing whitespace removed.
pub open spec fn trimmed(s: Seq<char>) -> Seq<char> {
    rtrim(ltrim(s))
}

/// Left-trimming takes the suffix that begins at the first non-whitespace
/// character.
proof fn lemma_ltrim_at(s: Seq<char>, a: int)
    requires
        0 <= a <= s.len(),
        forall|j: int| 0 <= j < a ==> is_space_char(s[j]),
        a < s.len() ==> !is_space_char(s[a]),
    ensures
        ltrim(s) == s.subrange(a, s.len() as int),
    decreases a,
{
    if a == 0 {
        assert(s.subrange(0, s.len() as int) =~= s);
    } else {
        assert(s.drop_first() =~= s.subrange(1, s.len() as int));
        lemma_ltrim_at(s.drop_first(), a - 1);
        assert(s.drop_first().subrange(a - 1, s.drop_first().len() as int) =~= s.subrange(
            a,
            s.len() as int,
        ));
    }
}

/// Right-trimming takes the prefix that ends after the last non-whitespace
/// character.
proof fn lemma_rtrim_at(s: Seq<char>, b: int)
    requires
        0 <= b <= s.len(),
        forall|j: int| b <= j < s.len() ==> is_space_char(s[j]),
        b > 0 ==> !is_space_char(s[b - 1]),
    ensures
        rtrim(s) == s.subrange(0, b),
    decreases s.len() - b,
{
    if b == s.len() {
        assert(s.subrange(0, s.len() as int) =~= s);
    } else {
        assert(s.drop_last() =~= s.subrange(0, s.len() - 1));
        lemma_rtrim_at(s.drop_last(), b);
        assert(s.drop_last().subrange(0, b) =~= s.subrange(0, b));
    }
}

/// Removes leading and trailing whitespace from a string.
pub fn trim_spaces(s: &str) -> (r: String)
    ensures
        r@ == trimmed(s@),
{
    let n = s.unicode_len();
    let mut a: usize = 0;
    loop
        invariant
            0 <= a <= n,
            n == s@.len(),
            forall|j: int| 0 <= j < a ==> is_space_char(s@[j]),
        ensures
            0 <= a <= n,
            forall|j: int| 0 <= j < a ==> is_space_char(s@[j]),
            a < n ==> !is_space_char(s@[a as int]),
        decreases n - a,
    {
        if a >= n {
            break;
        }
        let c = s.get_char(a);
        if !(c == ' ' || c == '\t' || c == '\n' || c == '\r') {
            break;
        }
        a += 1;
    }
    proof {
        lemma_ltrim_at(s@, a as int);
    }
    if a == n {
        proof {
            assert(s@.subrange(a as int, n as int) =~= Seq::<char>::empty());
        }
        return String::new();
    }
    let mut b: usize = n;
    loop
        invariant
            a <= b <= n,
            n == s@.len(),
            a < n,
            !is_space_char(s@[a as int]),
            forall|j: int| b <= j < n ==> is_space_char(s@[j]),
        ensures
            a <= b <= n,
            forall|j: int| b <= j < n ==> is_space_char(s@[j]),
            b > a ==> !is_space_char(s@[b - 1]),
        decreases b,
    {
        if b <= a {
            break;
        }
        let c = s.get_char(b - 1);
        if !(c == ' ' || c == '\t' || c == '\n' || c == '\r') {
            break;
        }
        b -= 1;
    }
    proof {
        let tail = s@.subrange(a as int, n as int);
        lemma_rtrim_at(tail, b - a);
        assert(tail.subrange(0, b - a) =~= s@.subrange(a as int, b as int));
    }
    String::from_str(s.substring_char(a, b))
}

/// The query a message body carries: `Some` exactly when the body starts
/// with the trigger prefix, holding what follows it, trimmed of surrounding
/// whitespace.
pub open spec fn trigger_query_of(body: Seq<char>) -> Option<Seq<char>> {
    if starts_with(body, trigger_prefix()) {
        Some(trimmed(body.subrange(trigger_prefix().len() as int, body.len() as int)))
    } else {
        None
    }
}

/// Recognizes the trigger prefix at the start of a message body and extracts
/// the trimmed query after it.
pub fn find_trigger(body: &str) -> (q: Option<String>)
    ensures
        match q {
            Some(s) => trigger_query_of(body@) == Some(s@),
            None => trigger_query_of(body@) is None,
        },
{
    let pat = "!imdb";
    proof {
        reveal_strlit("!imdb");
    }
    let plen = pat.unicode_len();
    let n = body.unicode_len();
    if n < plen {
        proof {
            assert(!starts_with(body@, trigger_prefix()));
        }
        return None;
    }
    let mut i: usize = 0;
    while i < plen
        invariant
            0 <= i <= plen,
            plen == trigger_prefix().len(),
            pat@ == trigger_prefix(),
            n == body@.len(),
            n >= plen,
            forall|j: int| 0 <= j < i ==> body@[j] == trigger_prefix()[j],
        decreases plen - i,
    {
        if body.get_char(i) != pat.get_char(i) {
            proof {
                assert(body@.subrange(0, plen as int)[i as int] != trigger_prefix()[i as int]);
            }
            return None;
        }
        i += 1;
    }
    proof {
        assert(body@.subrange(0, plen as int) =~= trigger_prefix());
    }
    let rest = body.substring_char(plen, n);
    Some(trim_spaces(rest))
}

/// The action the dispatcher takes on one decoded event: run a search with
/// the given query, or nothing beyond diagnostic logging.
#[derive(Debug)]
pub enum Dispatch {
    RunSearch(String),
    NoAction,
}

/// The query, if any, that dispatching an event runs a search with.
pub open spec fn dispatch_query(e: &DecodedEvent) -> Option<Seq<char>> {
    match e {
        DecodedEvent::MessagePosted(m) => trigger_query_of(m.body@),
        _ => None,
    }
}

/// Routes one decoded event: a chat message whose body carries the trigger
/// prefix yields a search with its query; everything else yields no action.
/// No failure while handling one event ever reaches the caller's loop.
pub fn dispatch(event: &DecodedEvent) -> (d: Dispatch)
    ensures
        match d {
            Dispatch::RunSearch(q) => dispatch_query(event) == Some(q@),
            Dispatch::NoAction => dispatch_query(event) is None,
        },
{
    match event {
        DecodedEvent::MessagePosted(m) => match find_trigger(m.body.as_str()) {
            Some(q) => Dispatch::RunSearch(q),
            None => Dispatch::NoAction,
        },
        _ => Dispatch::NoAction,
    }
}

/// A chat message whose body does not start with the trigger prefix is never
/// dispatched to the search orchestrator.
pub proof fn lemma_no_trigger_no_search(m: ChatMessage)
    requires
        !starts_with(m.body@, trigger_prefix()),
    ensures
        dispatch_query(&DecodedEvent::MessagePosted(m)) is None,
{
}

/// A body that is exactly the trigger prefix, with nothing after it, still
/// dispatches a search, with the empty query string.
pub proof fn lemma_bare_trigger_empty_query(m: ChatMessage)
    requires
        m.body@ == trigger_prefix(),
    ensures
        dispatch_query(&DecodedEvent::MessagePosted(m)) == Some(Seq::<char>::empty()),
{
    assert(m.body@.subrange(0, trigger_prefix().len() as int) =~= trigger_prefix());
    assert(m.body@.subrange(trigger_prefix().len() as int, m.body@.len() as int)
        =~= Seq::<char>::empty());
    assert(trimmed(Seq::<char>::empty()) =~= Seq::<char>::empty());
}

} // verus!
