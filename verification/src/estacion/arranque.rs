//! Con qué arranca una estación.

use vstd::prelude::*;

use crate::comun::ids::{BiciId, EstacionId};
use crate::estacion::slot::Slot;
#[allow(unused_imports)]
use crate::estacion::slot::{slot_inicial, SlotVista};
#[allow(unused_imports)]
use crate::estacion::protocolo::EstacionVista;

verus! {

/// Cantidad de slots por estación.
pub const SLOTS_POR_ESTACION: u32 = 10;

/// El primer slot que arranca vacío: las bicis están en la primera mitad.
pub const PRIMER_VACIO: u32 = 5;

/// Cuántos ids de bici le tocan a cada estación.
pub const BICIS_POR_ESTACION: u32 = 100;

/// El id de la bici con que arranca el slot `i` de una estación.
pub open spec fn bici_inicial(id: EstacionId, i: int) -> int {
    id.0 * BICIS_POR_ESTACION + i
}

/// Los ids de las bicis de la estación entran en 32 bits.
pub open spec fn admite_bicis(id: EstacionId) -> bool {
    bici_inicial(id, PRIMER_VACIO - 1) <= u32::MAX
}

/// El estado inicial del slot `i` de una estación.
pub open spec fn slot_de_arranque(id: EstacionId, i: int) -> SlotVista {
    slot_inicial(
        if i < PRIMER_VACIO {
            Some(BiciId(bici_inicial(id, i) as u32))
        } else {
            None
        },
    )
}

/// ¿Los ids de las bicis de la estación entran en 32 bits?
pub fn puede_arrancar(id: EstacionId) -> (r: bool)
    ensures
        r == admite_bicis(id),
{
    id.0 as u64 * BICIS_POR_ESTACION as u64 + (PRIMER_VACIO - 1) as u64 <= u32::MAX as u64
}

/// Los slots con que arranca una estación: bicis en la primera mitad. El id de cada
/// bici se deriva del id de la estación para que sea único en el sistema.
pub fn slots_iniciales(id: EstacionId) -> (slots: Vec<Slot>)
    requires
        admite_bicis(id),
    ensures
        slots@.len() == SLOTS_POR_ESTACION,
        forall|i: int|
            0 <= i < slots@.len() ==> {
                &&& (#[trigger] slots@[i]).valido()
                &&& slots@[i].numero() == i
                &&& slots@[i]@ == slot_de_arranque(id, i)
            },
{
    let mut slots: Vec<Slot> = Vec::new();
    let mut i: u32 = 0;
    while i < SLOTS_POR_ESTACION
        invariant
            admite_bicis(id),
            i <= SLOTS_POR_ESTACION,
            slots@.len() == i,
            forall|j: int|
                0 <= j < i ==> {
                    &&& (#[trigger] slots@[j]).valido()
                    &&& slots@[j].numero() == j
                    &&& slots@[j]@ == slot_de_arranque(id, j)
                },
        decreases SLOTS_POR_ESTACION - i,
    {
        if i < PRIMER_VACIO {
            slots.push(Slot::con_bici(i, BiciId(id.0 * BICIS_POR_ESTACION + i)));
        } else {
            slots.push(Slot::nuevo(i));
        }
        i += 1;
    }
    slots
}

/// Las bicis con que arrancan las estaciones no se repiten, ni entre estaciones ni
/// dentro de una.
pub proof fn ley_bicis_unicas(a: EstacionId, i: int, b: EstacionId, j: int)
    requires
        0 <= i < PRIMER_VACIO,
        0 <= j < PRIMER_VACIO,
        bici_inicial(a, i) == bici_inicial(b, j),
    ensures
        a == b,
        i == j,
{
}

/// Una estación que arranca con esos slots y sin alquileres es coherente.
pub proof fn ley_arranque_coherente(e: EstacionVista)
    requires
        e.slots.len() == SLOTS_POR_ESTACION,
        forall|i: int|
            0 <= i < e.slots.len() ==> #[trigger] e.slots[i] == slot_de_arranque(e.id, i),
        e.propios == Map::<Seq<char>, crate::comun::dominio::AlquilerVista>::empty(),
        e.commits == Map::<Seq<char>, Seq<char>>::empty(),
    ensures
        e.coherente(),
{
}

/// Con qué arranca una estación: diez slots, y en los cinco primeros las bicis numeradas
/// desde cien veces su id. Puede arrancar si esos números entran en 32 bits.
pub proof fn ley_con_que_arranca(id: EstacionId, i: int)
    requires
        0 <= i < 10,
    ensures
        SLOTS_POR_ESTACION == 10,
        admite_bicis(id) <==> 100 * id.0 + 4 <= u32::MAX,
        i < 5 && admite_bicis(id) ==> {
            &&& slot_de_arranque(id, i).bici matches Some(b)
            &&& b.0 == 100 * id.0 + i
        },
        i >= 5 ==> slot_de_arranque(id, i).bici is None,
        slot_de_arranque(id, i).reserva is None,
        slot_de_arranque(id, i).votos == Map::<Seq<char>, crate::estacion::mensajes::Voto>::empty(),
        slot_de_arranque(id, i).entregas == Map::<Seq<char>, BiciId>::empty(),
{
}

} // verus!
