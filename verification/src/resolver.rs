use vstd::prelude::*;

verus! {

/// Where a node asks for its own address.
pub const METADATA_URL: &'static str = "http://169.254.169.254/latest/meta-data/local-ipv4";

/// How long the request for the node's own address may take, in
/// milliseconds.
pub const DISCOVERY_TIMEOUT_MS: u64 = 1000;

/// The number a decimal digit stands for.
pub open spec fn digit_value(c: char) -> int {
    c as int - '0' as int
}

/// `c` is one of the ten decimal digits.
pub open spec fn is_digit(c: char) -> bool {
    '0' <= c <= '9'
}

/// The number a string of decimal digits stands for.
pub open spec fn decimal_value(digits: Seq<char>) -> int
    decreases digits.len(),
{
    if digits.len() == 0 {
        0
    } else {
        10 * decimal_value(digits.drop_last()) + digit_value(digits.last())
    }
}

/// `text` writes a number from 0 to 255 in decimal, with no leading zero.
pub open spec fn is_octet(text: Seq<char>) -> bool {
    &&& 1 <= text.len() <= 3
    &&& forall|i: int| 0 <= i < text.len() ==> is_digit(#[trigger] text[i])
    &&& text.len() > 1 ==> text[0] != '0'
    &&& decimal_value(text) <= 255
}

/// Four texts joined by dots.
pub open spec fn dotted(a: Seq<char>, b: Seq<char>, c: Seq<char>, d: Seq<char>) -> Seq<char> {
    a + seq!['.'] + b + seq!['.'] + c + seq!['.'] + d
}

/// `text` has the shape of an IPv4 address: four octets joined by dots.
pub open spec fn is_ipv4_shaped(text: Seq<char>) -> bool {
    exists|a: Seq<char>, b: Seq<char>, c: Seq<char>, d: Seq<char>|
        is_octet(a) && is_octet(b) && is_octet(c) && is_octet(d) && text == #[trigger] dotted(
            a,
            b,
            c,
            d,
        )
}

/// Draws a placeholder address from `fakedata_generator::gen_ipv4`.
///
/// Trusted: the text has the shape of an IPv4 address. The generator draws
/// four numbers from 1 to 254 and prints them in decimal with dots between
/// them. Which numbers come out is left open.
#[verifier::external_body]
pub(crate) fn gen_ipv4() -> (ip: String)
    ensures
        is_ipv4_shaped(ip@),
{
    fakedata_generator::gen_ipv4()
}

/// The address a node goes by, given what discovery returned: the
/// discovered text as it is, or `fallback` when discovery failed.
pub open spec fn resolved(discovered: Option<String>, fallback: String) -> Seq<char> {
    match discovered {
        Some(ip) => ip@,
        None => fallback@,
    }
}

/// Picks the node's address: the discovered text verbatim, or `fallback`
/// when discovery failed.
pub fn resolve_ip(discovered: Option<String>, fallback: String) -> (ip: String)
    ensures
        ip@ == resolved(discovered, fallback),
{
    match discovered {
        Some(ip) => ip,
        None => fallback,
    }
}

/// Picks the node's address: the discovered text verbatim, or a generated
/// placeholder when discovery failed. Resolution never fails.
pub fn local_ip(discovered: Option<String>) -> (ip: String)
    ensures
        discovered matches Some(found) ==> ip@ == found@,
        discovered is None ==> is_ipv4_shaped(ip@),
{
    match discovered {
        Some(ip) => ip,
        None => gen_ipv4(),
    }
}

/// Whatever discovery returned, short of a text that is not an address, the
/// node goes by a text with the shape of an IPv4 address.
pub proof fn law_resolved_address_is_ipv4_shaped(discovered: Option<String>, fallback: String)
    requires
        discovered matches Some(found) ==> is_ipv4_shaped(found@),
        is_ipv4_shaped(fallback@),
    ensures
        is_ipv4_shaped(resolved(discovered, fallback)),
{
}

} // verus!
