use vstd::prelude::*;

verus! {

/// Whether `a` and `b` hold the same characters.
pub fn same_text(a: &str, b: &str) -> (r: bool)
    ensures
        r == (a@ == b@),
{
    let n = a.unicode_len();
    if n != b.unicode_len() {
        return false;
    }
    let mut i: usize = 0;
    while i < n
        invariant
            n == a@.len(),
            n == b@.len(),
            i <= n,
            forall|j: int| 0 <= j < i ==> a@[j] == b@[j],
        decreases n - i,
    {
        if a.get_char(i) != b.get_char(i) {
            return false;
        }
        i = i + 1;
    }
    assert(a@ =~= b@);
    true
}

/// Whether std's `str::parse::<core::net::Ipv4Addr>` accepts this text.
pub uninterp spec fn ipv4_text(s: Seq<char>) -> bool;

/// The value that std's `str::parse::<usize>` gives for this text, `None`
/// where it reports an error.
pub uninterp spec fn usize_text(s: Seq<char>) -> Option<usize>;

/// Whether std's `str::parse::<core::net::SocketAddr>` accepts this text.
pub uninterp spec fn socket_addr_text(s: Seq<char>) -> bool;

/// Calls std's `str::parse::<Ipv4Addr>` and reports whether it succeeded.
/// The contract only ties the answer to the text through the name
/// `ipv4_text`; which texts std accepts is not restated here.
#[verifier::external_body]
pub(crate) fn parses_as_ipv4(s: &str) -> (r: bool)
    ensures
        r == ipv4_text(s@),
{
    s.parse::<core::net::Ipv4Addr>().is_ok()
}

/// Calls std's `str::parse::<usize>`, mapping its error to `None`. The
/// contract ties the value to the text through the name `usize_text` and
/// does not restate std's decimal grammar.
#[verifier::external_body]
pub(crate) fn parse_usize(s: &str) -> (r: Option<usize>)
    ensures
        r == usize_text(s@),
{
    s.parse::<usize>().ok()
}

/// Calls std's `str::parse::<SocketAddr>` and reports whether it succeeded.
/// The contract ties the answer to the text through the name
/// `socket_addr_text` only.
#[verifier::external_body]
pub(crate) fn parses_as_socket_addr(s: &str) -> (r: bool)
    ensures
        r == socket_addr_text(s@),
{
    s.parse::<core::net::SocketAddr>().is_ok()
}

} // verus!
