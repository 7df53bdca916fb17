//! The addresses that requests are sent to.
use vstd::prelude::*;
use crate::text::concat_str;

verus! {

/// The address of a method of the service for the bot with the given key.
pub open spec fn method_url(key: Seq<char>, method: Seq<char>) -> Seq<char> {
    "https://api.telegram.org/bot"@ + key + "/"@ + method
}

/// Builds the address of `method` for the bot with `key`. The key is not checked here: a
/// malformed one is refused by the service like any other bad request.
pub fn build_url(key: &str, method: &str) -> (r: String)
    ensures
        r@ == method_url(key@, method@),
{
    let a = concat_str("https://api.telegram.org/bot", key);
    let b = concat_str(a.as_str(), "/");
    let c = concat_str(b.as_str(), method);
    c
}

} // verus!
