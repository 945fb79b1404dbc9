//! Small stateless helpers: naming payment capture methods and laying out
//! transaction identifiers.

use vstd::prelude::*;

use crate::text::{decimal_string, padded6_string, spec_decimal, spec_padded6};

verus! {

/// The display name of a capture method code.
pub open spec fn spec_method_description(method: i32) -> Seq<char> {
    if method == 0 {
        "Aproximação NFC"@
    } else if method == 1 {
        "Chip EMV"@
    } else if method == 2 {
        "Tarja magnética"@
    } else if method == 3 {
        "Digitação manual"@
    } else {
        "Desconhecido"@
    }
}

/// A textual description of the payment capture method.
pub fn describe_method(method: i32) -> (s: String)
    ensures
        s@ == spec_method_description(method),
{
    if method == 0 {
        String::from_str("Aproximação NFC")
    } else if method == 1 {
        String::from_str("Chip EMV")
    } else if method == 2 {
        String::from_str("Tarja magnética")
    } else if method == 3 {
        String::from_str("Digitação manual")
    } else {
        String::from_str("Desconhecido")
    }
}

/// The layout of a transaction identifier: the epoch second of issuance and
/// a six-digit-padded serial number.
pub open spec fn spec_transaction_id(secs: nat, counter: nat) -> Seq<char> {
    "TXN-"@ + spec_decimal(secs) + "-"@ + spec_padded6(counter)
}

/// Lays out a transaction identifier from the issuing second and the serial
/// number the caller drew.
pub fn format_transaction_id(secs: u64, counter: u64) -> (s: String)
    ensures
        s@ == spec_transaction_id(secs as nat, counter as nat),
{
    let mut s = String::from_str("TXN-");
    let d = decimal_string(secs);
    s.append(d.as_str());
    s.append("-");
    let p = padded6_string(counter);
    s.append(p.as_str());
    proof {
        assert(s@ =~= spec_transaction_id(secs as nat, counter as nat));
    }
    s
}

} // verus!
