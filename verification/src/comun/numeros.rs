//! Números reales de doble precisión, llevados por su patrón de bits.
//!
//! Montos, tarifas y coordenadas son reales IEEE 754 de 64 bits. Acá no se hacen
//! cuentas con ellos: se los transporta y se los compara. El patrón de bits
//! alcanza para las dos cosas, porque dos reales del mismo signo están en el
//! mismo orden que sus patrones leídos como enteros.

use vstd::prelude::*;

verus! {

/// Patrón de bits del signo.
pub const SIGNO: u64 = 0x8000_0000_0000_0000;

/// Patrón de bits de +infinito: con el signo aparte, todo lo mayor es NaN.
pub const INFINITO: u64 = 0x7ff0_0000_0000_0000;

/// Un real IEEE 754 de 64 bits, dado por sus bits.
#[derive(Debug, Clone, Copy, PartialEq, Eq, Hash, Structural)]
pub struct Real64 {
    pub bits: u64,
}

impl Real64 {
    /// Los bits sin el del signo.
    pub open spec fn magnitud(self) -> int {
        if self.bits >= SIGNO {
            self.bits - SIGNO
        } else {
            self.bits as int
        }
    }

    /// El real no es un número.
    pub open spec fn es_nan_spec(self) -> bool {
        self.magnitud() > INFINITO
    }

    /// Posición del real en el orden de los reales. Los dos ceros comparten la
    /// posición 0. Para un NaN no significa nada.
    pub open spec fn orden(self) -> int {
        if self.bits >= SIGNO {
            -self.magnitud()
        } else {
            self.magnitud()
        }
    }

    /// `self` es menor o igual que `otro`; falso si alguno no es un número.
    pub open spec fn no_supera(self, otro: Real64) -> bool {
        &&& !self.es_nan_spec()
        &&& !otro.es_nan_spec()
        &&& self.orden() <= otro.orden()
    }

    /// ¿Es NaN?
    pub fn es_nan(self) -> (r: bool)
        ensures
            r == self.es_nan_spec(),
    {
        if self.bits >= SIGNO {
            self.bits - SIGNO > INFINITO
        } else {
            self.bits > INFINITO
        }
    }

    /// ¿`self` es menor o igual que `otro`?
    pub fn menor_o_igual(self, otro: Real64) -> (r: bool)
        ensures
            r == self.no_supera(otro),
    {
        if self.es_nan() || otro.es_nan() {
            return false;
        }
        let negativo_a = self.bits >= SIGNO;
        let negativo_b = otro.bits >= SIGNO;
        if negativo_a && negativo_b {
            self.bits >= otro.bits
        } else if negativo_a {
            true
        } else if negativo_b {
            self.bits == 0 && otro.bits == SIGNO
        } else {
            self.bits <= otro.bits
        }
    }

    /// El menor de los dos. Si uno no es un número, el otro.
    pub open spec fn minimo_spec(self, otro: Real64) -> Real64 {
        if self.es_nan_spec() {
            otro
        } else if otro.es_nan_spec() || self.no_supera(otro) {
            self
        } else {
            otro
        }
    }

    /// El menor de los dos. Si uno no es un número, el otro.
    pub fn minimo(self, otro: Real64) -> (r: Real64)
        ensures
            r == self.minimo_spec(otro),
    {
        if self.es_nan() {
            otro
        } else if otro.es_nan() || self.menor_o_igual(otro) {
            self
        } else {
            otro
        }
    }
}

/// El mínimo no supera a ninguno de los dos números que compara.
pub proof fn ley_minimo_no_supera(a: Real64, b: Real64)
    requires
        !a.es_nan_spec(),
        !b.es_nan_spec(),
    ensures
        a.minimo_spec(b).no_supera(a),
        a.minimo_spec(b).no_supera(b),
        a.minimo_spec(b) == a || a.minimo_spec(b) == b,
{
}

/// Qué patrones de bits son NaN: los que pasan del infinito de su signo.
pub proof fn ley_que_es_nan(a: Real64)
    ensures
        a.es_nan_spec() <==> 0x7ff0_0000_0000_0000 < a.bits < 0x8000_0000_0000_0000 || a.bits
            > 0xfff0_0000_0000_0000,
{
}

/// El orden de los reales, por sus bits: entre positivos es el de los patrones; entre
/// negativos, el inverso; un negativo está debajo de todo positivo, y los dos ceros son
/// iguales. Con un NaN no hay orden.
pub proof fn ley_orden_por_bits(a: Real64, b: Real64)
    ensures
        a.es_nan_spec() || b.es_nan_spec() ==> !a.no_supera(b),
        !a.es_nan_spec() && !b.es_nan_spec() ==> {
            let (na, nb) = (a.bits >= 0x8000_0000_0000_0000, b.bits >= 0x8000_0000_0000_0000);
            &&& !na && !nb ==> (a.no_supera(b) <==> a.bits <= b.bits)
            &&& na && nb ==> (a.no_supera(b) <==> a.bits >= b.bits)
            &&& na && !nb ==> a.no_supera(b)
            &&& !na && nb ==> (a.no_supera(b) <==> a.bits == 0 && b.bits
                == 0x8000_0000_0000_0000)
        },
{
}

/// Entre los que son números, el orden es total y transitivo.
pub proof fn ley_orden_total(a: Real64, b: Real64, c: Real64)
    requires
        !a.es_nan_spec(),
        !b.es_nan_spec(),
        !c.es_nan_spec(),
    ensures
        a.no_supera(a),
        a.no_supera(b) || b.no_supera(a),
        a.no_supera(b) && b.no_supera(c) ==> a.no_supera(c),
{
}

/// El mínimo es siempre uno de los dos: el primero si no supera al segundo o si el segundo
/// no es un número; el segundo si el primero lo supera o no es un número.
pub proof fn ley_que_es_el_minimo(a: Real64, b: Real64)
    ensures
        a.no_supera(b) ==> a.minimo_spec(b) == a,
        !a.es_nan_spec() && !b.es_nan_spec() && !a.no_supera(b) ==> a.minimo_spec(b) == b,
        !a.es_nan_spec() && b.es_nan_spec() ==> a.minimo_spec(b) == a,
        a.es_nan_spec() ==> a.minimo_spec(b) == b,
{
}

} // verus!
