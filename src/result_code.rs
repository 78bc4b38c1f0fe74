//! Text of the driver's result codes.
use vstd::prelude::*;

verus! {

/// The name the driver binding gives to a result code.
pub uninterp spec fn result_code_name(code: int) -> Seq<char>;

/// Relies on the `Debug` form of ash's `vk::Result`: the name of the code
/// (`ERROR_OUT_OF_DEVICE_MEMORY`), which depends on the code alone.
#[verifier::external_body]
pub(crate) fn result_code_text(code: i32) -> (r: String)
    ensures
        r@ == result_code_name(code as int),
{
    format!("{:?}", ash::vk::Result::from_raw(code))
}

/// The sentence the driver binding uses to describe a result code.
pub uninterp spec fn result_code_description(code: int) -> Seq<char>;

/// Relies on the `Display` form of ash's `vk::Result`: a sentence that
/// describes the code, which depends on the code alone.
#[verifier::external_body]
pub(crate) fn result_code_message(code: i32) -> (r: String)
    ensures
        r@ == result_code_description(code as int),
{
    ash::vk::Result::from_raw(code).to_string()
}

/// Relies on ash's `vk::Result::TIMEOUT`, whose code is 2: the result of a
/// wait that ran out of time.
#[verifier::external_body]
pub(crate) fn is_timeout(code: i32) -> (r: bool)
    ensures
        r == (code == 2),
{
    ash::vk::Result::from_raw(code) == ash::vk::Result::TIMEOUT
}

/// The decimal digits of a number.
pub uninterp spec fn decimal_of(n: int) -> Seq<char>;

/// Relies on std's `Display` for `u64`: the number in decimal, which
/// depends on the number alone.
#[verifier::external_body]
pub(crate) fn decimal(n: u64) -> (r: String)
    ensures
        r@ == decimal_of(n as int),
{
    n.to_string()
}

/// `first` and `second` with their labels: `{label}{first}{middle}{second}`.
pub(crate) fn compared(label: &str, first: u64, middle: &str, second: u64) -> (r: String)
    ensures
        r@ == label@ + decimal_of(first as int) + middle@ + decimal_of(second as int),
{
    let a = decimal(first);
    let b = decimal(second);
    let text = labelled(label, a.as_str());
    let text = text.concat(middle);
    let text = text.concat(b.as_str());
    text
}

/// `prefix` followed by `detail`.
pub(crate) fn labelled(prefix: &str, detail: &str) -> (r: String)
    ensures
        r@ == prefix@ + detail@,
{
    let head = prefix.to_owned();
    head.concat(detail)
}

} // verus!
