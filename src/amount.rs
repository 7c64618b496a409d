use vstd::prelude::*;

verus! {

/// A non-negative number of indivisible units (satoshis).
#[derive(Clone, Copy, Debug, PartialEq, Eq, Structural, PartialOrd, Ord, Hash)]
pub struct Amount {
    pub sat: u64,
}

impl Amount {
    pub fn from_sat(sat: u64) -> (r: Amount)
        ensures
            r.sat == sat,
    {
        Amount { sat }
    }

    pub fn to_sat(&self) -> (r: u64)
        ensures
            r == self.sat,
    {
        self.sat
    }
}

/// `2^k`.
pub open spec fn two_pow(k: nat) -> nat
    decreases k,
{
    if k == 0 {
        1
    } else {
        2 * two_pow((k - 1) as nat)
    }
}

pub open spec fn is_power_of_two(x: nat) -> bool {
    exists|e: nat| x == two_pow(e)
}

/// The units `2^(k + i)` for each bit `i` set in `v`, lowest bit first.
pub open spec fn denominations(v: nat, k: nat) -> Seq<nat>
    decreases v,
{
    if v == 0 {
        seq![]
    } else if v % 2 == 1 {
        seq![two_pow(k)] + denominations(v / 2, k + 1)
    } else {
        denominations(v / 2, k + 1)
    }
}

/// The denominations of an amount: one unit `2^i` per set bit `i`, ascending.
pub open spec fn split_spec(v: u64) -> Seq<nat> {
    denominations(v as nat, 0)
}

pub open spec fn sum(s: Seq<nat>) -> nat
    decreases s.len(),
{
    if s.len() == 0 {
        0
    } else {
        s[0] + sum(s.drop_first())
    }
}

pub open spec fn sats(s: Seq<Amount>) -> Seq<nat> {
    s.map_values(|a: Amount| a.sat as nat)
}

pub open spec fn strictly_ascending(s: Seq<nat>) -> bool {
    forall|i: int, j: int| 0 <= i < j < s.len() ==> s[i] < s[j]
}

proof fn lemma_two_pow_positive(k: nat)
    ensures
        two_pow(k) >= 1,
    decreases k,
{
    if k > 0 {
        lemma_two_pow_positive((k - 1) as nat);
    }
}

proof fn lemma_two_pow_increases(a: nat, b: nat)
    requires
        a < b,
    ensures
        two_pow(a) < two_pow(b),
    decreases b - a,
{
    lemma_two_pow_positive(a);
    if a + 1 < b {
        lemma_two_pow_increases(a, (b - 1) as nat);
    }
}

proof fn lemma_denominations_sum(v: nat, k: nat)
    ensures
        sum(denominations(v, k)) == v * two_pow(k),
    decreases v,
{
    if v > 0 {
        lemma_denominations_sum(v / 2, k + 1);
        let rest = denominations(v / 2, k + 1);
        assert(two_pow(k + 1) == 2 * two_pow(k));
        let p = two_pow(k);
        assert(v == 2 * (v / 2) + v % 2);
        assert(v * p == (v / 2) * (2 * p) + (v % 2) * p) by (nonlinear_arith)
            requires
                v == 2 * (v / 2) + v % 2,
        ;
        if v % 2 == 1 {
            let s = seq![p] + rest;
            assert(s.drop_first() =~= rest);
            assert(sum(s) == s[0] + sum(s.drop_first()));
            assert(denominations(v, k) == s);
            assert(sum(denominations(v, k)) == p + (v / 2) * (2 * p));
        } else {
            assert(denominations(v, k) == rest);
            assert(sum(denominations(v, k)) == (v / 2) * (2 * p));
        }
    } else {
        assert(denominations(v, k) =~= Seq::<nat>::empty());
        assert(v * two_pow(k) == 0);
    }
}

proof fn lemma_denominations_shape(v: nat, k: nat)
    ensures
        strictly_ascending(denominations(v, k)),
        forall|i: int|
            0 <= i < denominations(v, k).len() ==> exists|e: nat|
                e >= k && #[trigger] denominations(v, k)[i] == two_pow(e),
        denominations(v, k).len() == 0 <==> v == 0,
    decreases v,
{
    if v > 0 {
        lemma_denominations_shape(v / 2, k + 1);
        let rest = denominations(v / 2, k + 1);
        if v % 2 == 1 {
            let s = seq![two_pow(k)] + rest;
            assert forall|i: int| 0 <= i < s.len() implies exists|e: nat|
                e >= k && #[trigger] s[i] == two_pow(e) by {
                if i == 0 {
                    assert(s[0] == two_pow(k));
                } else {
                    assert(s[i] == rest[i - 1]);
                }
            }
            assert forall|i: int, j: int| 0 <= i < j < s.len() implies s[i] < s[j] by {
                assert(s[j] == rest[j - 1]);
                let ej = choose|e: nat| e >= k + 1 && rest[j - 1] == two_pow(e);
                if i == 0 {
                    lemma_two_pow_increases(k, ej);
                } else {
                    assert(s[i] == rest[i - 1]);
                }
            }
        } else {
            assert(v / 2 > 0);
            assert forall|i: int| 0 <= i < rest.len() implies exists|e: nat|
                e >= k && #[trigger] rest[i] == two_pow(e) by {
                let e = choose|e: nat| e >= k + 1 && rest[i] == two_pow(e);
            }
        }
    }
}

/// The denominations of an amount add up to that amount.
pub proof fn split_sums_to_amount(a: Amount)
    ensures
        sum(split_spec(a.sat)) == a.sat,
{
    lemma_denominations_sum(a.sat as nat, 0);
    assert(two_pow(0) == 1);
}

/// Every denomination of an amount is a power of two, they ascend strictly (so no two are
/// equal), and there are none exactly when the amount is zero.
pub proof fn split_is_ascending_powers_of_two(a: Amount)
    ensures
        forall|i: int|
            0 <= i < split_spec(a.sat).len() ==> is_power_of_two(#[trigger] split_spec(a.sat)[i]),
        strictly_ascending(split_spec(a.sat)),
        split_spec(a.sat).len() == 0 <==> a.sat == 0,
{
    lemma_denominations_shape(a.sat as nat, 0);
    assert forall|i: int| 0 <= i < split_spec(a.sat).len() implies is_power_of_two(
        #[trigger] split_spec(a.sat)[i],
    ) by {
        let e = choose|e: nat| e >= 0 && split_spec(a.sat)[i] == two_pow(e);
    }
}

/// Splits an amount into power-of-two denominations, lowest first.
pub fn split_amount(amount: Amount) -> (r: Vec<Amount>)
    ensures
        sats(r@) == split_spec(amount.sat),
{
    let value = amount.to_sat();
    let mut chunks: Vec<Amount> = Vec::new();
    let mut rest: u64 = value;
    let mut unit: u64 = 1;
    let ghost mut k: nat = 0;
    while rest > 0
        invariant
            sats(chunks@) + denominations(rest as nat, k) == split_spec(value),
            rest > 0 ==> unit as nat == two_pow(k),
            rest as nat * unit as nat <= value as nat,
        decreases rest,
    {
        proof {
            lemma_two_pow_positive(k);
        }
        let ghost before = chunks@;
        if rest % 2 == 1 {
            chunks.push(Amount::from_sat(unit));
            assert(sats(chunks@) =~= sats(before) + seq![two_pow(k)]);
            assert(sats(chunks@) + denominations((rest / 2) as nat, k + 1) =~= sats(before)
                + denominations(rest as nat, k));
        }
        let half = rest / 2;
        if half > 0 {
            assert(2 * unit <= rest * unit) by (nonlinear_arith)
                requires
                    rest >= 2,
            ;
            assert(half as nat * (2 * unit as nat) <= rest as nat * unit as nat)
                by (nonlinear_arith)
                requires
                    half == rest / 2,
            ;
            unit = unit * 2;
        }
        rest = half;
        proof {
            k = k + 1;
        }
    }
    assert(sats(chunks@) + denominations(0, k) =~= sats(chunks@));
    chunks
}

} // verus!
