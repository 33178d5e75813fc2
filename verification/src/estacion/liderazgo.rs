//! Lo que garantiza una estación cuando cambia el líder.

use vstd::prelude::*;

#[allow(unused_imports)]
use crate::comun::dominio::AlquilerVista;
#[allow(unused_imports)]
use crate::comun::ids::EstacionId;
#[allow(unused_imports)]
use crate::comun::mensajes::estacion_pasarela::RespuestaVista;
#[allow(unused_imports)]
use crate::comun::mensajes::usuario_estacion::{MensajeEstacionAUsuarioConsulta, SolicitudVista};
#[allow(unused_imports)]
use crate::comun::tiempo::Timestamp;
#[allow(unused_imports)]
use crate::estacion::dos_fases::ley_la_coherencia_es_local;
#[allow(unused_imports)]
use crate::estacion::eleccion::{EstadoLider, NodoRing};
#[allow(unused_imports)]
use crate::estacion::operacion::OperacionVista;
#[allow(unused_imports)]
use crate::estacion::protocolo::EstacionVista;

verus! {

impl EstacionVista {
    /// El rol y la dirección a la que se reporta son los del líder que se reconoce.
    pub open spec fn rol_al_dia(self) -> bool {
        self.nodo.estado matches EstadoLider::Conocido(lider) ==> {
            &&& self.rol is Some <==> lider == self.id
            &&& self.direccion_de(lider) matches Some(d) ==> self.lider == d
        }
    }
}

/// Un paso de la elección deja el rol al día.
pub proof fn ley_el_rol_sigue_a_la_eleccion(e: EstacionVista, nodo: NodoRing)
    ensures
        e.con_nodo(nodo).rol_al_dia(),
        e.con_nodo(nodo).nodo == nodo,
{
}

/// Ninguna otra cosa que haga la estación desacomoda su rol.
pub proof fn ley_el_rol_sigue_al_dia(
    e: EstacionVista,
    s: SolicitudVista,
    op: OperacionVista,
    respuesta: Option<RespuestaVista>,
    ahora: Timestamp,
    event_id: Seq<char>,
    a: AlquilerVista,
    term: u64,
    alquileres: Seq<AlquilerVista>,
)
    requires
        e.rol_al_dia(),
    ensures
        e.tras_solicitud(s).rol_al_dia(),
        e.tras_respuesta(op, respuesta, ahora).rol_al_dia(),
        e.tras_aviso(event_id, a).rol_al_dia(),
        e.tras_pedido(term).rol_al_dia(),
        e.tras_alquileres(alquileres).rol_al_dia(),
        e.con_recuperado(a).rol_al_dia(),
{
}

/// La elección no toca lo local: ni los slots, ni los alquileres propios, ni los
/// commits pendientes, ni la numeración. Las operaciones en curso siguen funcionando.
pub proof fn ley_la_eleccion_no_toca_lo_local(e: EstacionVista, nodo: NodoRing)
    ensures
        ({
            let t = e.con_nodo(nodo);
            &&& t.slots == e.slots
            &&& t.propios == e.propios
            &&& t.commits == e.commits
            &&& t.contador == e.contador
            &&& t.id == e.id
            &&& t.pasarela == e.pasarela
            &&& e.coherente() ==> t.coherente()
        }),
{
    if e.coherente() {
        ley_la_coherencia_es_local(e, e.con_nodo(nodo));
    }
}

/// Quien gana asume: con un anuncio nuevo que la nombra, la estación pasa a ser el
/// líder y su registro tiene todos sus alquileres propios; si ya lo era, conserva el
/// registro que tenía.
pub proof fn ley_quien_gana_asume(e: EstacionVista, term: u64)
    requires
        !e.nodo.anuncio_viejo(e.id, term),
    ensures
        ({
            let t = e.con_nodo(e.nodo.recibir_coordinator(e.id, term).0);
            &&& t.rol is Some
            &&& e.rol is None ==> t.rol->0.registro == e.propios
            &&& e.rol is Some ==> t.rol == e.rol
        }),
{
}

/// El ex líder se depone: un anuncio con un término mayor que nombra a otra estación lo
/// deja como follower, y desde entonces le reporta a ella.
pub proof fn ley_el_ex_lider_se_depone(
    e: EstacionVista,
    lider: EstacionId,
    term: u64,
    a: AlquilerVista,
)
    requires
        lider != e.id,
        term > e.nodo.term,
        e.direccion_de(lider) is Some,
    ensures
        ({
            let t = e.con_nodo(e.nodo.recibir_coordinator(lider, term).0);
            &&& t.rol is None
            &&& t.reporte(a) is Some
            &&& t.reporte(a)->0.destino == e.direccion_de(lider)->0
        }),
{
}

/// Un anuncio viejo no cambia nada.
pub proof fn ley_un_anuncio_viejo_no_cambia_nada(e: EstacionVista, lider: EstacionId, term: u64)
    requires
        e.rol_al_dia(),
        e.nodo.anuncio_viejo(lider, term),
    ensures
        e.con_nodo(e.nodo.recibir_coordinator(lider, term).0) == e,
        e.envio_ring(e.nodo.recibir_coordinator(lider, term).1) is None,
{
}

/// El discovery dice lo que la estación sabe: tras adoptar a un líder del directorio,
/// lo informa con su dirección y su término; con una elección en curso, lo dice; y si
/// no aprendió todavía quién es, también.
pub proof fn ley_el_discovery_informa_al_lider(e: EstacionVista, lider: EstacionId, term: u64)
    requires
        !e.nodo.anuncio_viejo(lider, term),
        e.direccion_de(lider) is Some,
    ensures
        e.con_nodo(e.nodo.recibir_coordinator(lider, term).0).discovery()
            == (MensajeEstacionAUsuarioConsulta::RespuestaLider {
            lider_id: lider,
            lider_addr: e.direccion_de(lider)->0,
            term,
        }),
        e.nodo.anillo.len() >= 2 ==> e.con_nodo(e.nodo.iniciar().0).discovery()
            == MensajeEstacionAUsuarioConsulta::EnEleccion,
        e.nodo.estado == EstadoLider::Desconocido ==> e.discovery()
            == MensajeEstacionAUsuarioConsulta::LiderDesconocido,
{
}

} // verus!
