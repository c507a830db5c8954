use vstd::prelude::*;

verus! {

/// The ASCII decimal digits of `n`, most significant first, without leading zeros.
pub open spec fn decimal(n: nat) -> Seq<u8>
    decreases n,
{
    if n < 10 {
        seq![(48 + n) as u8]
    } else {
        decimal(n / 10).push((48 + n % 10) as u8)
    }
}

/// The lobby status text `<admitted>/<total>`.
pub open spec fn status_text(admitted: nat, total: nat) -> Seq<u8> {
    decimal(admitted) + seq![47u8] + decimal(total)
}

/// Appends the decimal digits of `n` to `out`.
fn push_decimal(n: u64, out: &mut Vec<u8>)
    ensures
        final(out)@ == old(out)@ + decimal(n as nat),
    decreases n,
{
    if n >= 10 {
        push_decimal(n / 10, out);
    }
    let digit: u8 = (n % 10) as u8;
    out.push(48 + digit);
    assert(out@ =~= old(out)@ + decimal(n as nat));
}

/// The status message sent to every admitted player: `<admitted>/<total>`.
pub fn status_message(admitted: u64, total: u64) -> (r: Vec<u8>)
    ensures
        r@ == status_text(admitted as nat, total as nat),
{
    let mut out: Vec<u8> = Vec::new();
    push_decimal(admitted, &mut out);
    out.push(47);
    push_decimal(total, &mut out);
    assert(out@ =~= status_text(admitted as nat, total as nat));
    out
}

} // verus!
