//! Identifiers of steps and series: a fixed prefix followed by the decimal
//! digits of a counter.
use vstd::prelude::*;

verus! {

/// The character that stands for the digit `d`.
pub open spec fn digit_char(d: nat) -> char
    recommends
        d < 10,
{
    seq!['0', '1', '2', '3', '4', '5', '6', '7', '8', '9'][d as int]
}

/// The base-ten digits of `n`, most significant first, with no leading zero.
pub open spec fn decimal(n: nat) -> Seq<char>
    decreases n,
{
    if n < 10 {
        seq![digit_char(n)]
    } else {
        decimal(n / 10).push(digit_char(n % 10))
    }
}

/// The id of the step made `n`-th by a run, counting from zero.
pub open spec fn step_id(n: nat) -> Seq<char> {
    "step_"@ + decimal(n)
}

/// The id of the series made `n`-th by a step, counting from zero.
pub open spec fn series_id(n: nat) -> Seq<char> {
    "series_"@ + decimal(n)
}

/// Relies on the `Display` of `u64` (through `to_string`): the base-ten digits
/// of the number, with no sign and no leading zero.
#[verifier::external_body]
fn decimal_string(n: u64) -> (r: String)
    ensures
        r@ == decimal(n as nat),
{
    n.to_string()
}

/// The text of the id of the step made `n`-th.
pub fn make_step_id(n: u64) -> (r: String)
    ensures
        r@ == step_id(n as nat),
{
    let digits = decimal_string(n);
    "step_".to_string().concat(digits.as_str())
}

/// The text of the id of the series made `n`-th.
pub fn make_series_id(n: u64) -> (r: String)
    ensures
        r@ == series_id(n as nat),
{
    let digits = decimal_string(n);
    "series_".to_string().concat(digits.as_str())
}

proof fn lemma_decimal_not_empty(n: nat)
    ensures
        decimal(n).len() >= 1,
        n >= 10 ==> decimal(n).len() >= 2,
    decreases n,
{
    if n >= 10 {
        lemma_decimal_not_empty(n / 10);
    }
}

proof fn lemma_digit_char_injective(a: nat, b: nat)
    requires
        a < 10,
        b < 10,
        digit_char(a) == digit_char(b),
    ensures
        a == b,
{
}

/// Different numbers have different decimal texts.
pub proof fn lemma_decimal_injective(a: nat, b: nat)
    requires
        decimal(a) == decimal(b),
    ensures
        a == b,
    decreases a,
{
    lemma_decimal_not_empty(a);
    lemma_decimal_not_empty(b);
    if a < 10 && b < 10 {
        assert(decimal(a)[0] == digit_char(a));
        assert(decimal(b)[0] == digit_char(b));
        lemma_digit_char_injective(a, b);
    } else if a >= 10 && b >= 10 {
        let (da, db) = (decimal(a), decimal(b));
        assert(da.last() == digit_char(a % 10));
        assert(db.last() == digit_char(b % 10));
        lemma_digit_char_injective(a % 10, b % 10);
        assert(decimal(a / 10) == da.drop_last());
        assert(decimal(b / 10) == db.drop_last());
        lemma_decimal_injective(a / 10, b / 10);
    } else {
        assert(decimal(a).len() != decimal(b).len());
    }
}

/// Two steps of one run made at different counts have different ids; likewise
/// two series of one step.
pub proof fn lemma_ids_unique(a: nat, b: nat)
    requires
        a != b,
    ensures
        step_id(a) != step_id(b),
        series_id(a) != series_id(b),
{
    let p = "step_"@;
    let q = "series_"@;
    if step_id(a) == step_id(b) {
        assert(decimal(a) == step_id(a).subrange(p.len() as int, step_id(a).len() as int));
        assert(decimal(b) == step_id(b).subrange(p.len() as int, step_id(b).len() as int));
        lemma_decimal_injective(a, b);
    }
    if series_id(a) == series_id(b) {
        assert(decimal(a) == series_id(a).subrange(q.len() as int, series_id(a).len() as int));
        assert(decimal(b) == series_id(b).subrange(q.len() as int, series_id(b).len() as int));
        lemma_decimal_injective(a, b);
    }
}

} // verus!
