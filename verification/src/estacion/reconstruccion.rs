//! Lo que garantiza la reconstrucción del registro: la estación que asume les pide a las
//! demás sus alquileres propios, y con lo que contestan tiene el registro de todas.

use vstd::prelude::*;

#[allow(unused_imports)]
use crate::comun::direccion::Direccion;
#[allow(unused_imports)]
use crate::comun::dominio::AlquilerVista;
#[allow(unused_imports)]
use crate::comun::etiquetas::ley_de_estacion_inyectivo;
#[allow(unused_imports)]
use crate::comun::ids::EstacionId;
#[allow(unused_imports)]
use crate::comun::mensajes::usuario_estacion::MensajeEstacionAUsuarioConsulta;
#[allow(unused_imports)]
use crate::estacion::dos_fases::ley_la_coherencia_es_local;
#[allow(unused_imports)]
use crate::estacion::eleccion::creciente;
#[allow(unused_imports)]
use crate::estacion::protocolo::{destinos_pedido, direccion_desde, EstacionVista};
#[allow(unused_imports)]
use crate::estacion::registro::{consolidado, es_lista_de, lemma_consolidar_lista};

verus! {

// ---------------------------------------------------------------------------
// El pedido
// ---------------------------------------------------------------------------

proof fn lemma_destinos(
    directorio: Seq<(EstacionId, Direccion)>,
    anillo: Seq<EstacionId>,
    id: EstacionId,
    n: nat,
)
    requires
        n <= anillo.len(),
    ensures
        forall|i: int|
            0 <= i < n && (#[trigger] anillo[i]) != id ==> (direccion_desde(
                directorio,
                anillo[i],
                0,
            ) matches Some(d) ==> destinos_pedido(directorio, anillo, id, n).contains(d)),
        forall|d: Direccion| #[trigger]
            destinos_pedido(directorio, anillo, id, n).contains(d) ==> exists|i: int|
                0 <= i < n && (#[trigger] anillo[i]) != id && direccion_desde(
                    directorio,
                    anillo[i],
                    0,
                ) == Some(d),
    decreases n,
{
    if n > 0 {
        let previa = (n - 1) as nat;
        lemma_destinos(directorio, anillo, id, previa);
        let antes = destinos_pedido(directorio, anillo, id, previa);
        let todos = destinos_pedido(directorio, anillo, id, n);
        assert forall|i: int| 0 <= i < n && (#[trigger] anillo[i]) != id implies (direccion_desde(
            directorio,
            anillo[i],
            0,
        ) matches Some(d) ==> todos.contains(d)) by {
            if let Some(d) = direccion_desde(directorio, anillo[i], 0) {
                if i < previa {
                    assert(antes.contains(d));
                    assert(todos[antes.index_of(d)] == d);
                } else {
                    assert(todos.last() == d);
                }
            }
        }
        assert forall|d: Direccion| #[trigger] todos.contains(d) implies exists|i: int|
            0 <= i < n && (#[trigger] anillo[i]) != id && direccion_desde(directorio, anillo[i], 0)
                == Some(d) by {
            let j = todos.index_of(d);
            if j < antes.len() {
                assert(antes[j] == d);
                assert(antes.contains(d));
                let i = choose|i: int|
                    0 <= i < previa && (#[trigger] anillo[i]) != id && direccion_desde(
                        directorio,
                        anillo[i],
                        0,
                    ) == Some(d);
                assert(anillo[i] != id);
            } else {
                assert(anillo[n - 1] != id);
            }
        }
    }
}

/// Los pedidos, si todas las demás están en el directorio: uno por cada una.
proof fn lemma_cuantos_pedidos(e: EstacionVista, p: int, n: nat)
    requires
        creciente(e.nodo.anillo),
        0 <= p < e.nodo.anillo.len(),
        e.nodo.anillo[p] == e.id,
        n <= e.nodo.anillo.len(),
        forall|x: EstacionId|
            e.nodo.anillo.contains(x) && x != e.id ==> #[trigger] e.direccion_de(x) is Some,
    ensures
        destinos_pedido(e.directorio, e.nodo.anillo, e.id, n).len() == if n > p {
            n - 1
        } else {
            n as int
        },
    decreases n,
{
    if n > 0 {
        lemma_cuantos_pedidos(e, p, (n - 1) as nat);
        let x = e.nodo.anillo[n - 1];
        assert(e.nodo.anillo.contains(x));
        if x != e.id {
            assert(e.direccion_de(x) is Some);
        } else {
            assert(n - 1 == p);
        }
    }
}

/// La estación que asume les pide sus alquileres a todas las demás del anillo que están
/// en su directorio, y a nadie más; si están todas, son tantos pedidos como las demás.
pub proof fn ley_se_les_pide_a_todas(e: EstacionVista)
    requires
        e.nodo.valido(),
        e.nodo.mi_id == e.id,
    ensures
        forall|x: EstacionId|
            e.nodo.anillo.contains(x) && x != e.id ==> (#[trigger] e.direccion_de(x) matches Some(
                d,
            ) ==> e.pedidos().contains(d)),
        forall|d: Direccion| #[trigger]
            e.pedidos().contains(d) ==> exists|x: EstacionId|
                e.nodo.anillo.contains(x) && x != e.id && #[trigger] e.direccion_de(x) == Some(d),
        (forall|x: EstacionId|
            e.nodo.anillo.contains(x) && x != e.id ==> #[trigger] e.direccion_de(x) is Some)
            ==> e.pedidos().len() == e.nodo.anillo.len() - 1,
{
    let anillo = e.nodo.anillo;
    lemma_destinos(e.directorio, anillo, e.id, anillo.len());
    assert forall|x: EstacionId| anillo.contains(x) && x != e.id implies (#[trigger] e.direccion_de(
        x,
    ) matches Some(d) ==> e.pedidos().contains(d)) by {
        let i = anillo.index_of(x);
        assert(anillo[i] == x);
    }
    assert forall|d: Direccion| #[trigger] e.pedidos().contains(d) implies exists|x: EstacionId|
        anillo.contains(x) && x != e.id && #[trigger] e.direccion_de(x) == Some(d) by {
        let i = choose|i: int|
            0 <= i < anillo.len() && (#[trigger] anillo[i]) != e.id && direccion_desde(
                e.directorio,
                anillo[i],
                0,
            ) == Some(d);
        assert(anillo.contains(anillo[i]));
        assert(e.direccion_de(anillo[i]) == Some(d));
    }
    if forall|x: EstacionId|
        anillo.contains(x) && x != e.id ==> #[trigger] e.direccion_de(x) is Some {
        let p = anillo.index_of(e.id);
        assert(anillo[p] == e.id);
        lemma_cuantos_pedidos(e, p, anillo.len());
    }
}

/// Un follower le contesta al líder y no cambia. El líder de un término anterior también
/// le contesta, y deja de serlo: ya no informa que lo es, y adopta al que se anuncie en
/// ese término. El líder de ese término o de uno posterior no hace nada.
pub proof fn ley_el_pedido_depone_al_ex_lider(e: EstacionVista, term: u64, lider: EstacionId)
    ensures
        e.rol is None ==> e.responde_pedido(term) && e.tras_pedido(term) == e,
        e.rol is Some && term <= e.nodo.term ==> !e.responde_pedido(term) && e.tras_pedido(term)
            == e,
        e.rol is Some && term > e.nodo.term ==> {
            let t = e.tras_pedido(term);
            &&& e.responde_pedido(term)
            &&& t.rol is None
            &&& t.discovery() == MensajeEstacionAUsuarioConsulta::LiderDesconocido
            &&& !t.nodo.anuncio_viejo(lider, term)
        },
{
}

/// Nada de la reconstrucción toca lo local: ni los slots, ni los alquileres propios, ni
/// los commits pendientes, ni la numeración.
pub proof fn ley_la_reconstruccion_no_toca_lo_local(
    e: EstacionVista,
    term: u64,
    alquileres: Seq<AlquilerVista>,
)
    ensures
        ({
            let (a, b) = (e.tras_pedido(term), e.tras_alquileres(alquileres));
            &&& a.slots == e.slots && b.slots == e.slots
            &&& a.propios == e.propios && b.propios == e.propios
            &&& a.commits == e.commits && b.commits == e.commits
            &&& a.contador == e.contador && b.contador == e.contador
            &&& a.id == e.id && b.id == e.id
        }),
        e.coherente() ==> e.tras_pedido(term).coherente() && e.tras_alquileres(
            alquileres,
        ).coherente(),
{
    if e.coherente() {
        let (a, b) = (e.tras_pedido(term), e.tras_alquileres(alquileres));
        ley_la_coherencia_es_local(e, a);
        ley_la_coherencia_es_local(e, b);
    }
}

// ---------------------------------------------------------------------------
// El registro
// ---------------------------------------------------------------------------

/// El líder tras recibir los alquileres de varias estaciones, en orden.
pub open spec fn tras_respuestas(
    e: EstacionVista,
    respuestas: Seq<Seq<AlquilerVista>>,
) -> EstacionVista
    decreases respuestas.len(),
{
    if respuestas.len() == 0 {
        e
    } else {
        tras_respuestas(e, respuestas.drop_last()).tras_alquileres(respuestas.last())
    }
}

/// Dos estaciones no abren un alquiler con el mismo id.
pub proof fn ley_alquileres_de_una_sola(a: EstacionVista, b: EstacionVista, id: Seq<char>)
    requires
        a.coherente(),
        b.coherente(),
        a.propios.contains_key(id),
        b.propios.contains_key(id),
    ensures
        a.id == b.id,
{
    let n = choose|n: nat| #[trigger] a.genero("R-"@, n, id);
    let m = choose|m: nat| #[trigger] b.genero("R-"@, m, id);
    ley_de_estacion_inyectivo("R-"@, a.id.0 as nat, n, b.id.0 as nat, m);
}

/// El registro es el de `e` más los propios de cada una de `estaciones`.
spec fn reune(
    registro: Map<Seq<char>, AlquilerVista>,
    base: Map<Seq<char>, AlquilerVista>,
    estaciones: Seq<EstacionVista>,
) -> bool {
    &&& forall|id: Seq<char>| #[trigger]
        registro.contains_key(id) <==> base.contains_key(id) || exists|i: int|
            0 <= i < estaciones.len() && #[trigger] estaciones[i].propios.contains_key(id)
    &&& forall|id: Seq<char>| #[trigger] base.contains_key(id) ==> registro[id] == base[id]
    &&& forall|i: int, id: Seq<char>|
        0 <= i < estaciones.len() && #[trigger] estaciones[i].propios.contains_key(id)
            ==> registro[id] == estaciones[i].propios[id]
}

proof fn lemma_reune(
    e: EstacionVista,
    yo: EstacionVista,
    respuestas: Seq<Seq<AlquilerVista>>,
    estaciones: Seq<EstacionVista>,
)
    requires
        yo.coherente(),
        e.rol is Some,
        e.rol->0.registro == yo.propios,
        respuestas.len() == estaciones.len(),
        forall|i: int|
            0 <= i < estaciones.len() ==> (#[trigger] estaciones[i]).coherente()
                && estaciones[i].id != yo.id && es_lista_de(respuestas[i], estaciones[i].propios),
        forall|i: int, j: int|
            0 <= i < j < estaciones.len() ==> (#[trigger] estaciones[i]).id != (
            #[trigger] estaciones[j]).id,
    ensures
        tras_respuestas(e, respuestas).rol is Some,
        reune(tras_respuestas(e, respuestas).rol->0.registro, yo.propios, estaciones),
    decreases respuestas.len(),
{
    if respuestas.len() > 0 {
        let n = respuestas.len() - 1;
        let (rs, es) = (respuestas.drop_last(), estaciones.drop_last());
        assert forall|i: int| 0 <= i < es.len() implies (#[trigger] es[i]).coherente() && es[i].id
            != yo.id && es_lista_de(rs[i], es[i].propios) by {
            assert(es[i] == estaciones[i] && rs[i] == respuestas[i]);
        }
        lemma_reune(e, yo, rs, es);
        let antes = tras_respuestas(e, rs).rol->0.registro;
        let registro = tras_respuestas(e, respuestas).rol->0.registro;
        let ultima = estaciones[n];
        assert(es_lista_de(respuestas[n], ultima.propios));
        lemma_consolidar_lista(antes, respuestas[n], ultima.propios);
        assert(registro == antes.union_prefer_right(ultima.propios));
        assert forall|id: Seq<char>| #[trigger]
            registro.contains_key(id) <==> yo.propios.contains_key(id) || exists|i: int|
                0 <= i < estaciones.len() && #[trigger] estaciones[i].propios.contains_key(id) by {
            if exists|i: int| 0 <= i < es.len() && #[trigger] es[i].propios.contains_key(id) {
                let i = choose|i: int|
                    0 <= i < es.len() && #[trigger] es[i].propios.contains_key(id);
                assert(estaciones[i].propios.contains_key(id));
            }
            if exists|i: int|
                0 <= i < estaciones.len() && #[trigger] estaciones[i].propios.contains_key(id) {
                let i = choose|i: int|
                    0 <= i < estaciones.len() && #[trigger] estaciones[i].propios.contains_key(id);
                if i < n {
                    assert(es[i].propios.contains_key(id));
                    assert(antes.contains_key(id));
                }
            }
            if yo.propios.contains_key(id) {
                assert(antes.contains_key(id));
            }
        }
        assert forall|id: Seq<char>| #[trigger] yo.propios.contains_key(id) implies registro[id]
            == yo.propios[id] by {
            assert(antes.contains_key(id));
            if ultima.propios.contains_key(id) {
                ley_alquileres_de_una_sola(yo, ultima, id);
            }
        }
        assert forall|i: int, id: Seq<char>|
            0 <= i < estaciones.len() && #[trigger] estaciones[i].propios.contains_key(
                id,
            ) implies registro[id] == estaciones[i].propios[id] by {
            if i < n {
                assert(es[i].propios.contains_key(id));
                assert(antes.contains_key(id));
                if ultima.propios.contains_key(id) {
                    ley_alquileres_de_una_sola(estaciones[i], ultima, id);
                    assert(estaciones[i].id != estaciones[n].id);
                }
            }
        }
    }
}

/// El registro se reconstruye: con las respuestas de `estaciones`, la que asumió tiene sus
/// propios alquileres, los de todas ellas, y ninguno más, cada uno como lo tiene la que lo
/// abrió. Vale en el orden en que contesten y con las que contesten: la que está caída
/// falta hasta que ingresa tarde, y entonces es una más.
pub proof fn ley_el_registro_se_reconstruye(
    e: EstacionVista,
    term: u64,
    respuestas: Seq<Seq<AlquilerVista>>,
    estaciones: Seq<EstacionVista>,
)
    requires
        e.coherente(),
        e.rol is None,
        !e.nodo.anuncio_viejo(e.id, term),
        respuestas.len() == estaciones.len(),
        forall|i: int|
            0 <= i < estaciones.len() ==> (#[trigger] estaciones[i]).coherente()
                && estaciones[i].id != e.id && es_lista_de(respuestas[i], estaciones[i].propios),
        forall|i: int, j: int|
            0 <= i < j < estaciones.len() ==> (#[trigger] estaciones[i]).id != (
            #[trigger] estaciones[j]).id,
    ensures
        ({
            let lider = e.con_nodo(e.nodo.recibir_coordinator(e.id, term).0);
            let t = tras_respuestas(lider, respuestas);
            let registro = t.rol->0.registro;
            &&& t.rol is Some
            &&& forall|id: Seq<char>| #[trigger]
                registro.contains_key(id) <==> e.propios.contains_key(id) || exists|i: int|
                    0 <= i < estaciones.len() && #[trigger] estaciones[i].propios.contains_key(id)
            &&& forall|id: Seq<char>| #[trigger]
                e.propios.contains_key(id) ==> registro[id] == e.propios[id]
            &&& forall|i: int, id: Seq<char>|
                0 <= i < estaciones.len() && #[trigger] estaciones[i].propios.contains_key(id)
                    ==> registro[id] == estaciones[i].propios[id]
        }),
{
    let lider = e.con_nodo(e.nodo.recibir_coordinator(e.id, term).0);
    lemma_reune(lider, e, respuestas, estaciones);
}

/// Que una estación conteste dos veces lo mismo, o que además ingrese tarde, es lo mismo
/// que contestar una.
pub proof fn ley_contestar_dos_veces(
    e: EstacionVista,
    estacion: EstacionVista,
    primera: Seq<AlquilerVista>,
    segunda: Seq<AlquilerVista>,
)
    requires
        es_lista_de(primera, estacion.propios),
        es_lista_de(segunda, estacion.propios),
    ensures
        e.tras_alquileres(primera).tras_alquileres(segunda) == e.tras_alquileres(primera),
{
    if let Some(l) = e.rol {
        let m = l.registro;
        let p = estacion.propios;
        lemma_consolidar_lista(m, primera, p);
        lemma_consolidar_lista(consolidado(m, primera), segunda, p);
        assert(m.union_prefer_right(p).union_prefer_right(p) =~= m.union_prefer_right(p));
    }
}

} // verus!
