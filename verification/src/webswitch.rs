//! The web switch of the first prototype: `/open` and `/close` flip a shared
//! "is open" flag and answer whether they changed it.
use vstd::prelude::*;
use vstd::string::*;

verus! {

/// The answer of a request that changed the flag (a JSON string).
pub open spec fn success_reply() -> Seq<char> {
    "\"success\""@
}

/// The answer of a request that found the flag already set (a JSON string).
pub open spec fn unchanged_reply() -> Seq<char> {
    "\"was already\""@
}

/// The answer to a request: `"success"` if it changed the flag, else
/// `"was already"`.
pub fn reply(changed: bool) -> (r: String)
    ensures
        r@ == (if changed { success_reply() } else { unchanged_reply() }),
{
    if changed {
        String::from_str("\"success\"")
    } else {
        String::from_str("\"was already\"")
    }
}

/// The flag after an `/open`, and whether it changed.
pub open spec fn opened(flag: bool) -> (bool, bool) {
    (true, !flag)
}

/// The flag after a `/close`, and whether it changed.
pub open spec fn closed(flag: bool) -> (bool, bool) {
    (false, flag)
}

/// Opens: sets the flag if it was clear. Returns whether it changed it.
pub fn open(is_open: &mut bool) -> (changed: bool)
    ensures
        (*final(is_open), changed) == opened(*old(is_open)),
{
    if !*is_open {
        *is_open = true;
        true
    } else {
        false
    }
}

/// Closes: clears the flag if it was set. Returns whether it changed it.
pub fn close(is_open: &mut bool) -> (changed: bool)
    ensures
        (*final(is_open), changed) == closed(*old(is_open)),
{
    if *is_open {
        *is_open = false;
        true
    } else {
        false
    }
}

/// Each flip happens once: a second `/open` (or `/close`) in a row finds the
/// flag already set and changes nothing, while `/open` and `/close` in turn
/// both succeed.
pub proof fn lemma_requests_alternate(flag: bool)
    ensures
        !opened(opened(flag).0).1,
        opened(opened(flag).0).0 == opened(flag).0,
        !closed(closed(flag).0).1,
        closed(closed(flag).0).0 == closed(flag).0,
        closed(opened(flag).0).1,
        opened(closed(flag).0).1,
{
}

/// The flag after `n` `/open` requests in a row starting from `flag`, and
/// how many of them changed it.
pub open spec fn opens(flag: bool, n: nat) -> (bool, nat)
    decreases n,
{
    if n == 0 {
        (flag, 0)
    } else {
        let (f, count) = opens(flag, (n - 1) as nat);
        let (g, changed) = opened(f);
        (g, count + if changed { 1nat } else { 0nat })
    }
}

/// The flag after `n` `/close` requests in a row starting from `flag`, and
/// how many of them changed it.
pub open spec fn closes(flag: bool, n: nat) -> (bool, nat)
    decreases n,
{
    if n == 0 {
        (flag, 0)
    } else {
        let (f, count) = closes(flag, (n - 1) as nat);
        let (g, changed) = closed(f);
        (g, count + if changed { 1nat } else { 0nat })
    }
}

/// Of any number of `/open` requests in a row on a cleared flag, exactly one
/// succeeds and the flag ends set; on a set flag none succeeds. The same
/// holds of `/close` on a set and on a cleared flag.
pub proof fn lemma_only_first_request_succeeds(n: nat)
    requires
        n >= 1,
    ensures
        opens(false, n) == (true, 1nat),
        opens(true, n) == (true, 0nat),
        closes(true, n) == (false, 1nat),
        closes(false, n) == (false, 0nat),
    decreases n,
{
    if n > 1 {
        lemma_only_first_request_succeeds((n - 1) as nat);
    } else {
        assert(opens(false, 0) == (false, 0nat));
        assert(opens(true, 0) == (true, 0nat));
        assert(closes(true, 0) == (true, 0nat));
        assert(closes(false, 0) == (false, 0nat));
    }
}

} // verus!
