//! Primality of a machine integer, and counting the primes of a vector.

use vstd::prelude::*;

verus! {

/// `d` divides `n`, for a positive `d`.
pub open spec fn divide(d: int, n: int) -> bool {
    d > 0 && n % d == 0
}

/// A prime is an integer above 1 that nothing strictly between 1 and itself divides.
pub open spec fn es_primo_spec(n: int) -> bool {
    n >= 2 && forall|d: int| 1 < d < n ==> !#[trigger] divide(d, n)
}

/// How many of the integers 1, .., `hasta - 1` divide `n`.
pub open spec fn contar_divisores(n: int, hasta: int) -> nat
    decreases hasta,
{
    if hasta <= 1 {
        0
    } else {
        contar_divisores(n, hasta - 1) + if divide(hasta - 1, n) { 1nat } else { 0nat }
    }
}

/// The property of being a prime, on machine integers.
pub open spec fn primo_i32() -> spec_fn(i32) -> bool {
    |x: i32| es_primo_spec(x as int)
}

/// The number of primes among the elements of `s`.
pub open spec fn contar_primos_spec(s: Seq<i32>) -> nat {
    s.filter(primo_i32()).len()
}

/// Among 1, .., `hasta - 1` there is at most one divisor of `n` exactly when
/// nothing strictly between 1 and `hasta` divides `n`; from 2 on there is at
/// least one, which is 1.
pub proof fn lema_contar_divisores(n: int, hasta: int)
    requires
        hasta >= 1,
    ensures
        hasta >= 2 ==> contar_divisores(n, hasta) >= 1,
        contar_divisores(n, hasta) <= 1 <==> (forall|d: int| 1 < d < hasta ==> !#[trigger] divide(d, n)),
        contar_divisores(n, hasta) <= hasta - 1,
    decreases hasta,
{
    if hasta >= 2 {
        lema_contar_divisores(n, hasta - 1);
        if hasta == 2 {
            assert(divide(1, n));
        }
        if hasta > 2 && divide(hasta - 1, n) {
            assert(contar_divisores(n, hasta) >= 2);
        }
    }
}

/// An integer is prime exactly when 1 and itself are its only two divisors
/// among 1, .., itself.
pub proof fn lema_primo_dos_divisores(n: int)
    requires
        n >= 1,
    ensures
        es_primo_spec(n) <==> contar_divisores(n, n + 1) == 2,
{
    lema_contar_divisores(n, n);
    assert(divide(n, n));
    if n == 1 {
        assert(contar_divisores(n, 1) == 0);
    }
}

/// The count of divisors below a bound does not shrink as the bound grows.
pub proof fn lema_divisores_crecen(n: int, a: int, b: int)
    requires
        a <= b,
    ensures
        contar_divisores(n, a) <= contar_divisores(n, b),
    decreases b - a,
{
    if a < b {
        lema_divisores_crecen(n, a, b - 1);
    }
}

/// Whether `num` is prime: it counts the divisors of `num` from 1 upwards
/// and gives up at the third.
pub fn es_primo(num: i32) -> (r: bool)
    ensures
        r == es_primo_spec(num as int),
{
    let mut divisores: u8 = 0;
    let mut i: i32 = 1;
    while i <= num
        invariant_except_break
            1 <= i,
            i <= num || (num < 1 && i == 1),
            divisores as nat == contar_divisores(num as int, i as int),
            divisores <= 2,
        ensures
            (divisores == 2) == es_primo_spec(num as int),
        decreases num - i,
    {
        if num % i == 0 {
            divisores += 1;
        }
        proof {
            lema_contar_divisores(num as int, i as int + 1);
            lema_contar_divisores(num as int, num as int);
            lema_primo_dos_divisores(num as int);
            lema_divisores_crecen(num as int, i as int + 1, num as int + 1);
        }
        if divisores > 2 || i == num {
            break ;
        }
        i += 1;
    }
    divisores == 2
}

/// Primality as a method of the number itself.
trait EsPrimo {
    fn es_primo(&self) -> (r: bool);
}

impl EsPrimo for i32 {
    fn es_primo(&self) -> (r: bool)
        ensures
            r == es_primo_spec(*self as int),
    {
        self::es_primo(*self)
    }
}

/// How many elements of `vector` are prime.
pub fn contar_primos(vector: &Vec<i32>) -> (r: usize)
    ensures
        r as nat == contar_primos_spec(vector@),
{
    let ghost primo = primo_i32();
    let mut cantidad: usize = 0;
    let mut i: usize = 0;
    proof {
        reveal(Seq::filter);
        assert(vector@.take(0).len() == 0);
    }
    while i < vector.len()
        invariant
            i <= vector.len(),
            cantidad <= i,
            primo == primo_i32(),
            cantidad as nat == vector@.take(i as int).filter(primo).len(),
        decreases vector.len() - i,
    {
        proof {
            reveal(Seq::filter);
            assert(vector@.take(i as int + 1).drop_last() =~= vector@.take(i as int));
            assert(vector@.take(i as int + 1).last() == vector@[i as int]);
        }
        if vector[i].es_primo() {
            cantidad += 1;
        }
        i += 1;
    }
    proof {
        assert(vector@.take(i as int) =~= vector@);
    }
    cantidad
}

} // verus!
