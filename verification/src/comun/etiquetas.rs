//! Los textos de los identificadores que generan la estación y la pasarela.

use vstd::prelude::*;
use vstd::string::StringExecFns;

use crate::comun::texto::en_decimal;
#[allow(unused_imports)]
use crate::comun::texto::{decimal, es_cifra, lemma_decimal, ley_decimal_inyectivo};

verus! {

/// El identificador número `n` de un prefijo.
pub open spec fn numerado(prefijo: Seq<char>, n: nat) -> Seq<char> {
    prefijo + decimal(n)
}

/// El identificador número `n` que una estación genera con un prefijo.
pub open spec fn de_estacion(prefijo: Seq<char>, estacion: nat, n: nat) -> Seq<char> {
    prefijo + decimal(estacion) + seq!['-'] + decimal(n)
}

/// Escribe el identificador número `n` de un prefijo.
pub fn escribir_numerado(prefijo: &str, n: u64) -> (s: String)
    ensures
        s@ == numerado(prefijo@, n as nat),
{
    let mut s = prefijo.to_owned();
    s.append(en_decimal(n).as_str());
    s
}

/// Escribe el identificador número `n` que una estación genera con un prefijo.
pub fn escribir_de_estacion(prefijo: &str, estacion: u32, n: u64) -> (s: String)
    ensures
        s@ == de_estacion(prefijo@, estacion as nat, n as nat),
{
    let mut s = prefijo.to_owned();
    s.append(en_decimal(estacion as u64).as_str());
    s.append("-");
    s.append(en_decimal(n).as_str());
    proof {
        reveal_strlit("-");
        assert("-"@ =~= seq!['-']);
    }
    s
}

/// Números distintos dan identificadores distintos.
pub proof fn ley_numerado_inyectivo(prefijo: Seq<char>, a: nat, b: nat)
    requires
        numerado(prefijo, a) == numerado(prefijo, b),
    ensures
        a == b,
{
    let k = prefijo.len() as int;
    assert(numerado(prefijo, a).skip(k) =~= decimal(a));
    assert(numerado(prefijo, b).skip(k) =~= decimal(b));
    ley_decimal_inyectivo(a, b);
}

/// Dos identificadores con el mismo prefijo son iguales solo si son de la misma
/// estación y tienen el mismo número.
pub proof fn ley_de_estacion_inyectivo(
    prefijo: Seq<char>,
    e1: nat,
    n1: nat,
    e2: nat,
    n2: nat,
)
    requires
        de_estacion(prefijo, e1, n1) == de_estacion(prefijo, e2, n2),
    ensures
        e1 == e2,
        n1 == n2,
{
    let k = prefijo.len() as int;
    let (a1, b1) = (decimal(e1), decimal(n1));
    let (a2, b2) = (decimal(e2), decimal(n2));
    let s = de_estacion(prefijo, e1, n1).skip(k);
    assert(s =~= a1 + seq!['-'] + b1);
    assert(s =~= a2 + seq!['-'] + b2);
    lemma_decimal(e1);
    lemma_decimal(e2);
    assert(s[a1.len() as int] == '-');
    assert(s[a2.len() as int] == '-');
    if a1.len() < a2.len() {
        assert(s[a1.len() as int] == a2[a1.len() as int]);
        assert(es_cifra(a2[a1.len() as int]));
    }
    if a2.len() < a1.len() {
        assert(s[a2.len() as int] == a1[a2.len() as int]);
        assert(es_cifra(a1[a2.len() as int]));
    }
    let m = a1.len() as int;
    assert(s.take(m) =~= a1);
    assert(s.take(m) =~= a2);
    assert(s.skip(m + 1) =~= b1);
    assert(s.skip(m + 1) =~= b2);
    ley_decimal_inyectivo(e1, e2);
    ley_decimal_inyectivo(n1, n2);
}

/// Un identificador empieza con su prefijo y sigue con sus números: el de la estación, un
/// guion y el que le toca.
pub proof fn ley_forma_del_identificador(prefijo: Seq<char>, estacion: nat, n: nat)
    ensures
        numerado(prefijo, n).take(prefijo.len() as int) == prefijo,
        numerado(prefijo, n).skip(prefijo.len() as int) == decimal(n),
        ({
            let id = de_estacion(prefijo, estacion, n);
            let guion = (prefijo.len() + decimal(estacion).len()) as int;
            &&& id.len() == guion + 1 + decimal(n).len()
            &&& id.take(prefijo.len() as int) == prefijo
            &&& id.subrange(prefijo.len() as int, guion) == decimal(estacion)
            &&& id[guion] == '-'
            &&& id.skip(guion + 1) == decimal(n)
        }),
{
    let id = de_estacion(prefijo, estacion, n);
    let guion = (prefijo.len() + decimal(estacion).len()) as int;
    assert(numerado(prefijo, n).take(prefijo.len() as int) =~= prefijo);
    assert(numerado(prefijo, n).skip(prefijo.len() as int) =~= decimal(n));
    assert(id.take(prefijo.len() as int) =~= prefijo);
    assert(id.subrange(prefijo.len() as int, guion) =~= decimal(estacion));
    assert(id.skip(guion + 1) =~= decimal(n));
}

} // verus!
