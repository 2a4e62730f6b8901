//! Text: decimal numbers and joined pieces.
use vstd::prelude::*;
use vstd::string::*;

use crate::ast::AssetId;
use crate::field::F;
use crate::account::SubpoolId;
use crate::quintic::QuinticExtension;
use crate::schnorr::CompPubKey;
use crate::u256::{words_value, U256};

verus! {

/// The character of a decimal digit.
pub open spec fn digit_char(d: nat) -> char {
    if d == 0 {
        '0'
    } else if d == 1 {
        '1'
    } else if d == 2 {
        '2'
    } else if d == 3 {
        '3'
    } else if d == 4 {
        '4'
    } else if d == 5 {
        '5'
    } else if d == 6 {
        '6'
    } else if d == 7 {
        '7'
    } else if d == 8 {
        '8'
    } else {
        '9'
    }
}

/// A number in decimal.
pub open spec fn decimal_text(n: nat) -> Seq<char>
    decreases n,
{
    if n < 10 {
        seq![digit_char(n)]
    } else {
        decimal_text(n / 10).push(digit_char(n % 10))
    }
}

fn digit_text(d: u64) -> (r: &'static str)
    requires
        d < 10,
    ensures
        r@ == seq![digit_char(d as nat)],
{
    proof {
        reveal_strlit("0");
        reveal_strlit("1");
        reveal_strlit("2");
        reveal_strlit("3");
        reveal_strlit("4");
        reveal_strlit("5");
        reveal_strlit("6");
        reveal_strlit("7");
        reveal_strlit("8");
        reveal_strlit("9");
    }
    let r: &'static str = match d {
        0 => "0",
        1 => "1",
        2 => "2",
        3 => "3",
        4 => "4",
        5 => "5",
        6 => "6",
        7 => "7",
        8 => "8",
        _ => "9",
    };
    assert(r@ =~= seq![digit_char(d as nat)]);
    r
}

/// Appends a number in decimal.
pub fn append_decimal(out: &mut String, n: u64)
    ensures
        final(out)@ == old(out)@ + decimal_text(n as nat),
    decreases n,
{
    if n >= 10 {
        append_decimal(out, n / 10);
    }
    out.append(digit_text(n % 10));
    assert(out@ =~= old(out)@ + decimal_text(n as nat));
}

/// `primitive_types::U256` as text: `Display` prints the number in decimal.
#[verifier::external_body]
fn primitive_display(w: [u64; 4]) -> (r: String)
    ensures
        r@ == decimal_text(words_value(w@)),
{
    primitive_types::U256(w).to_string()
}

/// Appends a 256-bit number in decimal.
pub fn append_u256(out: &mut String, x: &U256)
    ensures
        final(out)@ == old(out)@ + decimal_text(x.value()),
{
    let t = primitive_display(x.to_words());
    out.append(t.as_str());
}

/// A field element as text, in contracts.
pub open spec fn element_text(x: F) -> Seq<char> {
    decimal_text(x@ as nat)
}

/// Appends a field element.
pub fn append_element(out: &mut String, x: F)
    ensures
        final(out)@ == old(out)@ + element_text(x),
{
    append_decimal(out, x.to_canonical_u64());
}

/// An asset as text: `AssetId(5)`.
pub open spec fn asset_text(a: AssetId) -> Seq<char> {
    "AssetId("@ + element_text(a.0) + ")"@
}

/// Appends an asset.
pub fn append_asset(out: &mut String, a: AssetId)
    ensures
        final(out)@ == old(out)@ + asset_text(a),
{
    out.append("AssetId(");
    append_element(out, a.0);
    out.append(")");
    assert(out@ =~= old(out)@ + asset_text(a));
}

/// A subpool as text: `SubpoolId(5)`.
pub open spec fn subpool_text(a: SubpoolId) -> Seq<char> {
    "SubpoolId("@ + element_text(a.0) + ")"@
}

/// Appends a subpool.
pub fn append_subpool(out: &mut String, a: SubpoolId)
    ensures
        final(out)@ == old(out)@ + subpool_text(a),
{
    out.append("SubpoolId(");
    append_element(out, a.0);
    out.append(")");
    assert(out@ =~= old(out)@ + subpool_text(a));
}

/// The five coefficients of an element as text, with commas.
pub open spec fn coefficients_text(x: QuinticExtension) -> Seq<char> {
    element_text(x.c0) + ", "@ + element_text(x.c1) + ", "@ + element_text(x.c2) + ", "@
        + element_text(x.c3) + ", "@ + element_text(x.c4)
}

/// A compressed key as text:
/// `CompressedPublicKey(CompressedPoint { w: QuinticExtension([1, 2, 3, 4, 5]) })`.
pub open spec fn key_text(k: CompPubKey) -> Seq<char> {
    "CompressedPublicKey(CompressedPoint { w: QuinticExtension(["@ + coefficients_text(k.0.w)
        + "]) })"@
}

/// Appends a compressed key.
pub fn append_key(out: &mut String, k: &CompPubKey)
    ensures
        final(out)@ == old(out)@ + key_text(*k),
{
    let w = k.0.w;
    out.append("CompressedPublicKey(CompressedPoint { w: QuinticExtension([");
    append_element(out, w.c0);
    out.append(", ");
    append_element(out, w.c1);
    out.append(", ");
    append_element(out, w.c2);
    out.append(", ");
    append_element(out, w.c3);
    out.append(", ");
    append_element(out, w.c4);
    out.append("]) })");
    assert(out@ =~= old(out)@ + key_text(*k));
}

/// A truth value as text.
pub open spec fn bool_text(b: bool) -> Seq<char> {
    if b {
        "true"@
    } else {
        "false"@
    }
}

/// Appends a truth value.
pub fn append_bool(out: &mut String, b: bool)
    ensures
        final(out)@ == old(out)@ + bool_text(b),
{
    if b {
        out.append("true");
    } else {
        out.append("false");
    }
}

} // verus!
