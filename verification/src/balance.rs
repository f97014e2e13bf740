//! Checked arithmetic on balances, as the runtime's arithmetic traits do it.

use vstd::prelude::*;
use crate::survey::Balance;

verus! {

/// `sp_runtime::traits::CheckedAdd::checked_add` on two balances: their sum
/// where it fits in a `Balance`, `None` where it does not.
#[verifier::external_body]
pub(crate) fn checked_add(a: Balance, b: Balance) -> (r: Option<Balance>)
    ensures
        a + b <= Balance::MAX ==> r == Some((a + b) as Balance),
        a + b > Balance::MAX ==> r is None,
{
    sp_runtime::traits::CheckedAdd::checked_add(&a, &b)
}

/// `sp_runtime::traits::CheckedSub::checked_sub` on two balances: `a - b`
/// where `b` is not above `a`, `None` where it is.
#[verifier::external_body]
pub(crate) fn checked_sub(a: Balance, b: Balance) -> (r: Option<Balance>)
    ensures
        b <= a ==> r == Some((a - b) as Balance),
        b > a ==> r is None,
{
    sp_runtime::traits::CheckedSub::checked_sub(&a, &b)
}

/// `sp_runtime::traits::CheckedDiv::checked_div` on two balances: the quotient
/// rounded down where `b` is not zero, `None` where it is.
#[verifier::external_body]
pub(crate) fn checked_div(a: Balance, b: Balance) -> (r: Option<Balance>)
    ensures
        b != 0 ==> r == Some((a / b) as Balance),
        b == 0 ==> r is None,
{
    sp_runtime::traits::CheckedDiv::checked_div(&a, &b)
}

} // verus!
