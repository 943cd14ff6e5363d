//! Amounts of money.
use vstd::prelude::*;

verus! {

/// The number of zatoshis in one ZEC.
pub const COIN: u64 = 100_000_000;

/// The largest amount that can exist: 21 million ZEC.
pub const MAX_MONEY: u64 = 2_100_000_000_000_000;

/// A nonnegative amount of money, at most [`MAX_MONEY`].
#[derive(Clone, Copy, Debug, PartialEq, Eq)]
pub struct Zatoshis {
    zats: u64,
}

impl View for Zatoshis {
    type V = nat;

    closed spec fn view(&self) -> nat {
        self.zats as nat
    }
}

/// Adds two amounts with `zcash_protocol`'s `Add` for `Zatoshis`: the sum, or nothing when
/// it is more than [`MAX_MONEY`].
#[verifier::external_body]
fn zatoshis_add(a: u64, b: u64) -> (r: Option<u64>)
    requires
        a <= MAX_MONEY,
        b <= MAX_MONEY,
    ensures
        r == if a + b <= MAX_MONEY {
            Some((a + b) as u64)
        } else {
            None
        },
{
    let sum = zcash_protocol::value::Zatoshis::const_from_u64(a)
        + zcash_protocol::value::Zatoshis::const_from_u64(b);
    sum.map(|z| z.into_u64())
}

/// Subtracts two amounts with `zcash_protocol`'s `Sub` for `Zatoshis`: the difference, or
/// nothing when it would be negative.
#[verifier::external_body]
fn zatoshis_sub(a: u64, b: u64) -> (r: Option<u64>)
    requires
        a <= MAX_MONEY,
        b <= MAX_MONEY,
    ensures
        r == if b <= a {
            Some((a - b) as u64)
        } else {
            None
        },
{
    let difference = zcash_protocol::value::Zatoshis::const_from_u64(a)
        - zcash_protocol::value::Zatoshis::const_from_u64(b);
    difference.map(|z| z.into_u64())
}

impl Zatoshis {
    #[verifier::type_invariant]
    spec fn in_range(self) -> bool {
        self.zats <= MAX_MONEY
    }

    /// No money.
    pub fn zero() -> (z: Zatoshis)
        ensures
            z@ == 0,
    {
        Zatoshis { zats: 0 }
    }

    /// The amount of `zats` zatoshis, or nothing when that is more than can exist.
    pub fn from_u64(zats: u64) -> (r: Option<Zatoshis>)
        ensures
            r is Some <==> zats <= MAX_MONEY,
            r matches Some(z) ==> z@ == zats,
    {
        if zats <= MAX_MONEY {
            Some(Zatoshis { zats })
        } else {
            None
        }
    }

    /// The number of zatoshis.
    pub fn into_u64(self) -> (n: u64)
        ensures
            n == self@,
            n <= MAX_MONEY,
    {
        proof {
            use_type_invariant(&self);
        }
        self.zats
    }

    /// The sum of two amounts, or nothing when that is more than can exist.
    pub fn plus(self, other: Zatoshis) -> (r: Option<Zatoshis>)
        ensures
            r is Some <==> self@ + other@ <= MAX_MONEY,
            r matches Some(z) ==> z@ == self@ + other@,
    {
        proof {
            use_type_invariant(&self);
            use_type_invariant(&other);
        }
        match zatoshis_add(self.zats, other.zats) {
            Some(zats) => Some(Zatoshis { zats }),
            None => None,
        }
    }

    /// The difference of two amounts, or nothing when that would be negative.
    pub fn minus(self, other: Zatoshis) -> (r: Option<Zatoshis>)
        ensures
            r is Some <==> other@ <= self@,
            r matches Some(z) ==> z@ == self@ - other@,
    {
        proof {
            use_type_invariant(&self);
            use_type_invariant(&other);
        }
        match zatoshis_sub(self.zats, other.zats) {
            Some(zats) => Some(Zatoshis { zats }),
            None => None,
        }
    }
}

/// An amount in ZEC, the way the interface's replies write it: whole coins, and a
/// fraction in hundred-millionths of a coin.
#[derive(Clone, Copy, Debug, PartialEq, Eq, Structural)]
pub struct JsonZec {
    /// Whole coins.
    pub coins: u64,
    /// Hundred-millionths of a coin.
    pub fraction: u64,
}

impl JsonZec {
    /// Whether the fraction is less than one coin, so that eight decimals hold it.
    pub open spec fn wf(self) -> bool {
        self.fraction < COIN
    }
}

impl View for JsonZec {
    type V = nat;

    /// The amount in zatoshis.
    open spec fn view(&self) -> nat {
        (self.coins * COIN + self.fraction) as nat
    }
}

/// An amount of money in ZEC.
pub fn value_from_zatoshis(value: Zatoshis) -> (r: JsonZec)
    ensures
        r.wf(),
        r@ == value@,
{
    let zats = value.into_u64();
    JsonZec { coins: zats / COIN, fraction: zats % COIN }
}

/// Two well-formed replies that stand for the same amount are written the same.
pub proof fn lemma_json_zec_unique(a: JsonZec, b: JsonZec)
    requires
        a.wf(),
        b.wf(),
        a@ == b@,
    ensures
        a == b,
{
}

} // verus!
