//! Lo que garantiza el líder con los avisos de alquileres abiertos.

use vstd::prelude::*;

#[allow(unused_imports)]
use crate::comun::dominio::AlquilerVista;
#[allow(unused_imports)]
use crate::estacion::protocolo::{EstacionVista, LiderVista};
#[allow(unused_imports)]
use crate::estacion::registro::{activo, es_activo_de, tras_cerrar};

verus! {

/// El líder tras una serie de avisos, en orden.
pub open spec fn tras_avisos(
    e: EstacionVista,
    avisos: Seq<(Seq<char>, AlquilerVista)>,
) -> EstacionVista
    decreases avisos.len(),
{
    if avisos.len() == 0 {
        e
    } else {
        tras_avisos(e, avisos.drop_last()).tras_aviso(avisos.last().0, avisos.last().1)
    }
}

/// Los eventos procesados no se olvidan, y el rol no cambia.
proof fn lemma_eventos_estables(
    e: EstacionVista,
    avisos: Seq<(Seq<char>, AlquilerVista)>,
    event_id: Seq<char>,
)
    requires
        e.rol is Some,
        e.rol->0.eventos.contains(event_id),
    ensures
        tras_avisos(e, avisos).rol is Some,
        tras_avisos(e, avisos).rol->0.eventos.contains(event_id),
    decreases avisos.len(),
{
    if avisos.len() > 0 {
        lemma_eventos_estables(e, avisos.drop_last(), event_id);
    }
}

/// Un evento repetido no se reprocesa, con el contenido que traiga y hayan llegado los
/// avisos que hayan llegado en el medio: se puede reintentar sin causar
/// inconsistencias.
pub proof fn ley_evento_repetido_no_reprocesa(
    e: EstacionVista,
    event_id: Seq<char>,
    a: AlquilerVista,
    avisos: Seq<(Seq<char>, AlquilerVista)>,
    b: AlquilerVista,
)
    requires
        e.rol is Some,
    ensures
        ({
            let t = tras_avisos(e.tras_aviso(event_id, a), avisos);
            t.tras_aviso(event_id, b) == t
        }),
{
    lemma_eventos_estables(e.tras_aviso(event_id, a), avisos, event_id);
}

/// En particular, un aviso que llega de nuevo después de cerrado el alquiler no lo
/// reabre.
pub proof fn ley_repetido_no_reabre(e: EstacionVista, event_id: Seq<char>, a: AlquilerVista)
    requires
        e.rol is Some,
    ensures
        ({
            let abierto = e.tras_aviso(event_id, a);
            let cerrado = EstacionVista {
                rol: Some(
                    LiderVista {
                        registro: tras_cerrar(abierto.rol->0.registro, a.rental_id),
                        ..abierto.rol->0
                    },
                ),
                ..abierto
            };
            cerrado.tras_aviso(event_id, a) == cerrado
        }),
{
}

/// Un evento nuevo se registra: el alquiler queda abierto en el registro del líder y
/// se encuentra por su bici. Los demás alquileres no cambian.
pub proof fn ley_evento_nuevo_se_registra(
    e: EstacionVista,
    event_id: Seq<char>,
    a: AlquilerVista,
    k: Seq<char>,
)
    requires
        e.rol is Some,
        !e.rol->0.eventos.contains(event_id),
        activo(a),
        k != a.rental_id,
    ensures
        ({
            let m = e.tras_aviso(event_id, a).rol->0.registro;
            &&& es_activo_de(m, a, a.bici_id)
            &&& m.contains_key(k) == e.rol->0.registro.contains_key(k)
            &&& m.contains_key(k) ==> m[k] == e.rol->0.registro[k]
        }),
{
}

/// Una estación que no es el líder ignora los avisos.
pub proof fn ley_follower_ignora_avisos(e: EstacionVista, event_id: Seq<char>, a: AlquilerVista)
    requires
        e.rol is None,
    ensures
        e.tras_aviso(event_id, a) == e,
{
}

/// Lo que un follower reporta es lo que el líder registra: tras abrir un alquiler, el
/// aviso va a la dirección del líder y, procesado por él, deja en el registro el mismo
/// alquiler que quedó entre los propios del follower.
pub proof fn ley_el_reporte_llega_al_registro(
    follower: EstacionVista,
    lider: EstacionVista,
    a: AlquilerVista,
)
    requires
        follower.rol is None,
        lider.rol is Some,
        !lider.rol->0.eventos.contains(follower.proximo_id("E-"@)),
    ensures
        ({
            let r = follower.reporte(a);
            &&& r is Some
            &&& r->0.destino == follower.lider
            &&& lider.tras_aviso(r->0.event_id, r->0.alquiler).rol->0.registro[a.rental_id]
                == follower.con_alquiler(a).propios[a.rental_id]
        }),
{
}

/// El líder no se manda avisos a sí mismo: registra directo.
pub proof fn ley_el_lider_registra_directo(e: EstacionVista, a: AlquilerVista)
    requires
        e.rol is Some,
    ensures
        e.reporte(a) is None,
        e.con_alquiler(a).rol->0.registro[a.rental_id] == a,
        e.con_alquiler(a).propios[a.rental_id] == a,
{
}

} // verus!
