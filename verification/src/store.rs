//! What is kept in the symbol store, and how its answers are read.

use vstd::prelude::*;
use vstd::string::StringExecFns;

verus! {

/// How long the symbols of a pending removal are kept, in seconds.
pub const PENDING_TTL_SECS: i64 = 300;

/// The key under which the watchlist is stored.
pub fn watchlist_key(prefix: &str) -> (key: String)
    ensures
        key@ == prefix@ + ":watchlist"@,
{
    String::from_str(prefix).concat(":watchlist")
}

/// The key under which the symbols of a pending removal are stored.
pub fn pending_del_key(prefix: &str, request_id: &str) -> (key: String)
    ensures
        key@ == prefix@ + ":pending_del:"@ + request_id@,
{
    String::from_str(prefix).concat(":pending_del:").concat(request_id)
}

/// Whether the store changed: it answers an addition or a removal of one
/// symbol with the number of members that came or went, and that is one.
pub fn changed(reply: i64) -> (b: bool)
    ensures
        b == (reply == 1),
{
    reply == 1
}

/// The number of members that the store counted, or `None` where its
/// answer is no count.
pub fn counted(reply: i64) -> (count: Option<usize>)
    ensures
        count is Some <==> 0 <= reply <= usize::MAX,
        count matches Some(n) ==> n == reply,
{
    if reply < 0 {
        None
    } else if reply as u64 > usize::MAX as u64 {
        None
    } else {
        Some(reply as usize)
    }
}

/// The symbols of a pending removal: none where nothing is kept under the
/// request, which is so once its time has run out.
pub fn pending(members: Vec<String>) -> (found: Option<Vec<String>>)
    ensures
        found is Some <==> members@.len() > 0,
        found matches Some(m) ==> m == members,
{
    if members.len() == 0 {
        None
    } else {
        Some(members)
    }
}

} // verus!
