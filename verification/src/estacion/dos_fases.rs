//! Lo que garantiza el 2PC del alquiler: o las dos acciones ocurren (el slot entrega
//! la bici y la pasarela retiene los fondos) o no ocurre ninguna, se pierdan los
//! mensajes que se pierdan.

use vstd::prelude::*;

#[allow(unused_imports)]
use crate::comun::etiquetas::{de_estacion, ley_de_estacion_inyectivo};
#[allow(unused_imports)]
use crate::comun::dominio::{AlquilerVista, EstadoAlquiler};
#[allow(unused_imports)]
use crate::comun::mensajes::estacion_pasarela::{PedidoVista, RespuestaVista};
#[allow(unused_imports)]
use crate::comun::mensajes::usuario_estacion::{ContestacionVista, SolicitudVista};
#[allow(unused_imports)]
use crate::comun::numeros::Real64;
#[allow(unused_imports)]
use crate::comun::texto::es_cifra;
#[allow(unused_imports)]
use crate::comun::tiempo::Timestamp;
#[allow(unused_imports)]
use crate::estacion::mensajes::Voto;
#[allow(unused_imports)]
use crate::estacion::operacion::{OperacionVista, PasoVista};
#[allow(unused_imports)]
use crate::estacion::protocolo::{preauth_votada, EstacionVista};
#[allow(unused_imports)]
use crate::estacion::slot::slot_inicial;
#[allow(unused_imports)]
use crate::pasarela::conciliacion::{aceptable, lemma_proximo_libre, ley_validez};
#[allow(unused_imports)]
use crate::pasarela::procesador_pagos::{es_tarjeta_valida, EstadoPreAuth, PasarelaVista};

verus! {

// ---------------------------------------------------------------------------
// Numeración
// ---------------------------------------------------------------------------

impl EstacionVista {
    /// `id` es un identificador de ese prefijo que la estación ya generó.
    pub open spec fn genero(self, prefijo: Seq<char>, n: nat, id: Seq<char>) -> bool {
        1 <= n <= self.contador && id == de_estacion(prefijo, self.id.0 as nat, n)
    }

    /// Los slots están bien formados y todo lo que la estación recuerda tiene un
    /// identificador que ella generó.
    pub open spec fn coherente(self) -> bool {
        &&& forall|i: int| 0 <= i < self.slots.len() ==> (#[trigger] self.slots[i]).valido()
        &&& forall|i: int, tx: Seq<char>|
            0 <= i < self.slots.len() && #[trigger] self.slots[i].votos.contains_key(tx)
                ==> exists|n: nat| #[trigger] self.genero("T-"@, n, tx)
        &&& forall|r: Seq<char>| #[trigger]
            self.propios.contains_key(r) ==> exists|n: nat| #[trigger] self.genero("R-"@, n, r)
        &&& forall|tx: Seq<char>| #[trigger]
            self.commits.contains_key(tx) ==> exists|n: nat| #[trigger] self.genero("T-"@, n, tx)
    }

    /// La operación la empezó esta estación.
    pub open spec fn propia(self, op: OperacionVista) -> bool {
        match op {
            OperacionVista::EsperaVoto { tx_id, rental_id, slot_id, .. } => {
                &&& slot_id < self.slots.len()
                &&& exists|n: nat| #[trigger] self.genero("T-"@, n, tx_id)
                &&& exists|n: nat| #[trigger] self.genero("R-"@, n, rental_id)
            },
            OperacionVista::EsperaCommit { tx_id, rental_id, .. } => {
                &&& exists|n: nat| #[trigger] self.genero("T-"@, n, tx_id)
                &&& exists|n: nat| #[trigger] self.genero("R-"@, n, rental_id)
            },
            OperacionVista::EsperaAbort { .. } => true,
        }
    }
}

/// Un identificador generado sigue generado con un contador mayor.
proof fn lemma_genero_crece(
    a: EstacionVista,
    b: EstacionVista,
    prefijo: Seq<char>,
    id: Seq<char>,
)
    requires
        a.id == b.id,
        a.contador <= b.contador,
        exists|n: nat| #[trigger] a.genero(prefijo, n, id),
    ensures
        exists|n: nat| #[trigger] b.genero(prefijo, n, id),
{
    let n = choose|n: nat| #[trigger] a.genero(prefijo, n, id);
    assert(b.genero(prefijo, n, id));
}

/// La coherencia depende solo de lo local: no de quién es el líder ni de su registro.
pub proof fn ley_la_coherencia_es_local(e: EstacionVista, t: EstacionVista)
    requires
        e.coherente(),
        t.id == e.id,
        t.slots == e.slots,
        t.propios == e.propios,
        t.commits == e.commits,
        t.contador == e.contador,
    ensures
        t.coherente(),
{
    assert forall|i: int, tx: Seq<char>|
        0 <= i < t.slots.len() && #[trigger] t.slots[i].votos.contains_key(tx) implies exists|
        n: nat,
    | #[trigger] t.genero("T-"@, n, tx) by {
        assert(e.slots[i].votos.contains_key(tx));
        let n = choose|n: nat| #[trigger] e.genero("T-"@, n, tx);
        assert(t.genero("T-"@, n, tx));
    }
    assert forall|r: Seq<char>| #[trigger] t.propios.contains_key(r) implies exists|n: nat|
        #[trigger] t.genero("R-"@, n, r) by {
        assert(e.propios.contains_key(r));
        let n = choose|n: nat| #[trigger] e.genero("R-"@, n, r);
        assert(t.genero("R-"@, n, r));
    }
    assert forall|tx: Seq<char>| #[trigger] t.commits.contains_key(tx) implies exists|n: nat|
        #[trigger] t.genero("T-"@, n, tx) by {
        assert(e.commits.contains_key(tx));
        let n = choose|n: nat| #[trigger] e.genero("T-"@, n, tx);
        assert(t.genero("T-"@, n, tx));
    }
}

/// Los identificadores son únicos: el próximo no es ninguno de los que la estación
/// ya generó, así que ni el slot votó esa transacción, ni hay un alquiler propio o un
/// commit pendiente con ese id.
pub proof fn ley_ids_nuevos(e: EstacionVista, prefijo: Seq<char>, n: nat, id: Seq<char>)
    requires
        e.genero(prefijo, n, id),
    ensures
        e.proximo_id(prefijo) != id,
{
    if e.proximo_id(prefijo) == id {
        ley_de_estacion_inyectivo(
            prefijo,
            e.id.0 as nat,
            e.contador + 1,
            e.id.0 as nat,
            n,
        );
    }
}

/// Los identificadores de dos estaciones distintas no se repiten.
pub proof fn ley_ids_de_otra_estacion(
    a: EstacionVista,
    b: EstacionVista,
    prefijo: Seq<char>,
    n: nat,
    id: Seq<char>,
)
    requires
        a.id != b.id,
        b.genero(prefijo, n, id),
    ensures
        a.proximo_id(prefijo) != id,
{
    if a.proximo_id(prefijo) == id {
        ley_de_estacion_inyectivo(
            prefijo,
            a.id.0 as nat,
            a.contador + 1,
            b.id.0 as nat,
            n,
        );
    }
}

/// La transacción que empieza una solicitud es nueva para todos los slots.
pub proof fn ley_transaccion_nueva(e: EstacionVista)
    requires
        e.coherente(),
    ensures
        forall|i: int|
            0 <= i < e.slots.len() ==> !(#[trigger] e.slots[i]).votos.contains_key(
                e.proximo_id("T-"@),
            ),
        !e.propios.contains_key(e.proximo_id("R-"@)),
        !e.commits.contains_key(e.proximo_id("T-"@)),
{
    let tx = e.proximo_id("T-"@);
    assert forall|i: int| 0 <= i < e.slots.len() implies !(
    #[trigger] e.slots[i]).votos.contains_key(tx) by {
        if e.slots[i].votos.contains_key(tx) {
            let n = choose|n: nat| #[trigger] e.genero("T-"@, n, tx);
            ley_ids_nuevos(e, "T-"@, n, tx);
        }
    }
    let r = e.proximo_id("R-"@);
    if e.propios.contains_key(r) {
        let n = choose|n: nat| #[trigger] e.genero("R-"@, n, r);
        ley_ids_nuevos(e, "R-"@, n, r);
    }
    if e.commits.contains_key(tx) {
        let n = choose|n: nat| #[trigger] e.genero("T-"@, n, tx);
        ley_ids_nuevos(e, "T-"@, n, tx);
    }
}

/// Una solicitud conserva la coherencia de la estación.
pub proof fn ley_solicitud_coherente(e: EstacionVista, solicitud: SolicitudVista)
    requires
        e.coherente(),
    ensures
        e.tras_solicitud(solicitud).coherente(),
        e.paso_inicial(solicitud) matches PasoVista::Consultar { operacion, .. }
            ==> e.tras_solicitud(solicitud).propia(operacion),
{
    let t = e.tras_solicitud(solicitud);
    let tx = e.proximo_id("T-"@);
    let r = e.proximo_id("R-"@);
    assert(t.genero("T-"@, t.contador, tx));
    assert(t.genero("R-"@, t.contador, r));
    assert forall|i: int, k: Seq<char>|
        0 <= i < t.slots.len() && #[trigger] t.slots[i].votos.contains_key(k) implies exists|n: nat|
        #[trigger] t.genero("T-"@, n, k) by {
        if e.slots[i].votos.contains_key(k) {
            lemma_genero_crece(e, t, "T-"@, k);
        }
    }
    assert forall|k: Seq<char>| #[trigger] t.propios.contains_key(k) implies exists|n: nat|
        #[trigger] t.genero("R-"@, n, k) by {
        assert(e.propios.contains_key(k));
        lemma_genero_crece(e, t, "R-"@, k);
    }
    assert forall|k: Seq<char>| #[trigger] t.commits.contains_key(k) implies exists|n: nat|
        #[trigger] t.genero("T-"@, n, k) by {
        assert(e.commits.contains_key(k));
        lemma_genero_crece(e, t, "T-"@, k);
    }
    if let PasoVista::Consultar { operacion, .. } = e.paso_inicial(solicitud) {
        assert(operacion is EsperaVoto);
        assert(operacion->EsperaVoto_tx_id == tx);
        assert(operacion->EsperaVoto_rental_id == r);
        assert(operacion->slot_id < t.slots.len());
        assert(t.propia(operacion));
    }
}

/// Una respuesta de la pasarela conserva la coherencia de la estación.
pub proof fn ley_respuesta_coherente(
    e: EstacionVista,
    op: OperacionVista,
    respuesta: Option<RespuestaVista>,
    ahora: Timestamp,
)
    requires
        e.coherente(),
        e.propia(op),
    ensures
        e.tras_respuesta(op, respuesta, ahora).coherente(),
        e.paso_siguiente(op, respuesta, ahora) matches PasoVista::Consultar { operacion, .. }
            ==> e.tras_respuesta(op, respuesta, ahora).propia(operacion),
{
    let t = e.tras_respuesta(op, respuesta, ahora);
    assert(t.id == e.id && t.contador >= e.contador);
    assert forall|i: int, k: Seq<char>|
        0 <= i < t.slots.len() && #[trigger] t.slots[i].votos.contains_key(k) implies exists|n: nat|
        #[trigger] t.genero("T-"@, n, k) by {
        assert(e.slots[i].votos.contains_key(k));
        lemma_genero_crece(e, t, "T-"@, k);
    }
    match op {
        OperacionVista::EsperaVoto { tx_id, rental_id, .. } => {
            lemma_genero_crece(e, t, "T-"@, tx_id);
            lemma_genero_crece(e, t, "R-"@, rental_id);
        },
        OperacionVista::EsperaCommit { tx_id, rental_id, .. } => {
            lemma_genero_crece(e, t, "T-"@, tx_id);
            lemma_genero_crece(e, t, "R-"@, rental_id);
        },
        OperacionVista::EsperaAbort { .. } => {},
    }
    assert forall|k: Seq<char>| #[trigger] t.propios.contains_key(k) implies exists|n: nat|
        #[trigger] t.genero("R-"@, n, k) by {
        if e.propios.contains_key(k) {
            lemma_genero_crece(e, t, "R-"@, k);
        }
    }
    assert forall|k: Seq<char>| #[trigger] t.commits.contains_key(k) implies exists|n: nat|
        #[trigger] t.genero("T-"@, n, k) by {
        if e.commits.contains_key(k) {
            lemma_genero_crece(e, t, "T-"@, k);
        }
    }
    if let PasoVista::Consultar { operacion, .. } = e.paso_siguiente(op, respuesta, ahora) {
        assert(op is EsperaVoto);
        if operacion is EsperaCommit {
            assert(operacion->EsperaCommit_tx_id == op->EsperaVoto_tx_id);
            assert(operacion->EsperaCommit_rental_id == op->EsperaVoto_rental_id);
        } else {
            assert(operacion is EsperaAbort);
        }
        assert(t.propia(operacion));
    }
}

/// Un aviso de otra estación conserva la coherencia.
pub proof fn ley_aviso_coherente(e: EstacionVista, event_id: Seq<char>, a: AlquilerVista)
    requires
        e.coherente(),
    ensures
        e.tras_aviso(event_id, a).coherente(),
{
    let t = e.tras_aviso(event_id, a);
    assert forall|i: int, k: Seq<char>|
        0 <= i < t.slots.len() && #[trigger] t.slots[i].votos.contains_key(k) implies exists|n: nat|
        #[trigger] t.genero("T-"@, n, k) by {
        assert(e.slots[i].votos.contains_key(k));
        lemma_genero_crece(e, t, "T-"@, k);
    }
    assert forall|k: Seq<char>| #[trigger] t.propios.contains_key(k) implies exists|n: nat|
        #[trigger] t.genero("R-"@, n, k) by {
        assert(e.propios.contains_key(k));
        lemma_genero_crece(e, t, "R-"@, k);
    }
    assert forall|k: Seq<char>| #[trigger] t.commits.contains_key(k) implies exists|n: nat|
        #[trigger] t.genero("T-"@, n, k) by {
        assert(e.commits.contains_key(k));
        lemma_genero_crece(e, t, "T-"@, k);
    }
}

// ---------------------------------------------------------------------------
// La red
// ---------------------------------------------------------------------------

/// Qué pasa con una consulta a la pasarela.
pub enum Red {
    /// Llegan el pedido y la respuesta.
    Llega,
    /// El pedido no llega: la pasarela no se entera.
    PierdePedido,
    /// La pasarela procesa el pedido, pero su respuesta no llega.
    PierdeRespuesta,
}

/// Lo que la estación recibe de una consulta.
pub open spec fn recibida(red: Red, p: PasarelaVista, pedido: PedidoVista) -> Option<
    RespuestaVista,
> {
    match red {
        Red::Llega => Some(p.respuesta(pedido, Real64 { bits: 0 })),
        _ => None,
    }
}

/// La pasarela tras una consulta.
pub open spec fn atendida(red: Red, p: PasarelaVista, pedido: PedidoVista) -> PasarelaVista {
    match red {
        Red::PierdePedido => p,
        _ => p.tras(pedido, Real64 { bits: 0 }),
    }
}

/// El sistema en medio de una operación.
pub struct Corrida {
    pub estacion: EstacionVista,
    pub pasarela: PasarelaVista,
    pub paso: PasoVista,
}

/// La operación llevada adelante mientras alcance la suerte de la red: cada consulta
/// gasta una.
pub open spec fn correr(c: Corrida, red: Seq<Red>, ahora: Timestamp) -> Corrida
    decreases red.len(),
{
    match c.paso {
        PasoVista::Consultar { pedido, operacion, .. } => if red.len() == 0 {
            c
        } else {
            let r = recibida(red[0], c.pasarela, pedido);
            correr(
                Corrida {
                    estacion: c.estacion.tras_respuesta(operacion, r, ahora),
                    pasarela: atendida(red[0], c.pasarela, pedido),
                    paso: c.estacion.paso_siguiente(operacion, r, ahora),
                },
                red.skip(1),
                ahora,
            )
        },
        PasoVista::Terminar { .. } => c,
    }
}

/// El sistema al empezar una solicitud.
pub open spec fn empezar(e: EstacionVista, p: PasarelaVista, s: SolicitudVista) -> Corrida {
    Corrida { estacion: e.tras_solicitud(s), pasarela: p, paso: e.paso_inicial(s) }
}

/// La corrida terminó confirmándole al usuario un alquiler.
pub open spec fn confirmo(c: Corrida) -> bool {
    c.paso matches PasoVista::Terminar {
        respuesta: ContestacionVista::AlquilerConfirmado { .. },
        ..
    }
}

// ---------------------------------------------------------------------------
// Atomicidad
// ---------------------------------------------------------------------------

/// Toda operación termina con a lo sumo dos consultas a la pasarela.
pub proof fn ley_dos_consultas_alcanzan(
    e: EstacionVista,
    p: PasarelaVista,
    s: SolicitudVista,
    red: Seq<Red>,
    ahora: Timestamp,
)
    requires
        red.len() >= 2,
    ensures
        correr(empezar(e, p, s), red, ahora).paso is Terminar,
{
    reveal_with_fuel(correr, 3);
}

/// La atomicidad del alquiler. Con un slot que existe y una transacción nueva para la
/// pasarela, y pase lo que pase con los mensajes:
///
/// - se le confirma el alquiler al usuario si y solo si el slot tenía una bici sin
///   reservar, la tarjeta es válida y llegó el voto de la pasarela;
/// - si se confirma, el slot entregó su bici y quedó vacío, el alquiler quedó entre
///   los propios, a nombre de quien lo pidió, de esta estación, desde el instante dado,
///   abierto y sin fin, y en el registro del líder (o se le reporta), y la pre-autorización
///   existe y está activa salvo que el Commit no haya llegado; en ese caso sigue
///   preparada, y queda constancia para completarlo;
/// - si no se confirma, el slot quedó como estaba, no se registró ni reportó nada, y
///   ninguna pre-autorización de la transacción quedó activa ni cobrada.
pub proof fn ley_atomicidad(
    e: EstacionVista,
    p: PasarelaVista,
    s: SolicitudVista,
    red: Seq<Red>,
    ahora: Timestamp,
)
    requires
        e.coherente(),
        p.valida(),
        s is Alquiler,
        s->Alquiler_slot_id < e.slots.len(),
        !p.preparo(e.proximo_id("T-"@)),
        red.len() >= 2,
    ensures
        ({
            let c = correr(empezar(e, p, s), red, ahora);
            let i = s->Alquiler_slot_id as int;
            let tx = e.proximo_id("T-"@);
            let r = e.proximo_id("R-"@);
            let id = p.proximo_id();
            &&& confirmo(c) <==> e.slots[i].disponible() && es_tarjeta_valida(s->tarjeta)
                && red[0] is Llega
            &&& confirmo(c) <==> e.slots[i].bici is Some && e.slots[i].reserva is None && aceptable(
                s->tarjeta,
            ) && red[0] is Llega
            &&& confirmo(c) ==> {
                &&& c.estacion.propios[r].rental_id == r
                &&& c.estacion.propios[r].usuario_id == s->Alquiler_usuario_id
                &&& c.estacion.propios[r].estacion_origen == e.id
                &&& c.estacion.propios[r].inicio == ahora
                &&& c.estacion.propios[r].fin is None
                &&& c.estacion.propios[r].estado == EstadoAlquiler::Activo
                &&& c.estacion.propios == e.propios.insert(r, c.estacion.propios[r])
                &&& e.rol is None ==> c.paso->reporte is Some && c.paso->reporte->0.destino
                    == e.lider
                &&& c.pasarela.preauths[id].reservado.bits == 0x408f_4000_0000_0000
                &&& c.paso->respuesta->AlquilerConfirmado_bici_id == e.slots[i].bici->0
                &&& c.paso->respuesta->AlquilerConfirmado_rental_id == r
                &&& c.paso->respuesta->preauth_id == id
                &&& c.estacion.slots[i].bici is None
                &&& c.estacion.slots[i].reserva is None
                &&& c.estacion.propios.contains_key(r)
                &&& c.estacion.propios[r].bici_id == e.slots[i].bici->0
                &&& c.estacion.propios[r].preauth_id == id
                &&& e.rol is None ==> c.paso->reporte is Some && c.paso->reporte->0.alquiler
                    == c.estacion.propios[r]
                &&& e.rol is Some ==> c.estacion.rol->0.registro[r] == c.estacion.propios[r]
                &&& c.pasarela.es_de(id, tx)
                &&& c.pasarela.preauths[id].estado == if red[1] is PierdePedido {
                    EstadoPreAuth::Preparada
                } else {
                    EstadoPreAuth::Activa
                }
                &&& red[1] is Llega ==> c.estacion.commits == e.commits
                &&& red[1] !is Llega ==> c.estacion.commits == e.commits.insert(tx, id)
            }
            &&& !confirmo(c) ==> {
                &&& c.paso->reporte is None
                &&& c.estacion.slots[i].bici == e.slots[i].bici
                &&& c.estacion.slots[i].reserva == e.slots[i].reserva
                &&& c.estacion.propios == e.propios
                &&& c.estacion.rol == e.rol
                &&& c.estacion.commits == e.commits
                &&& forall|k: Seq<char>| #[trigger]
                    c.pasarela.es_de(k, tx) ==> c.pasarela.preauths[k].estado
                        == EstadoPreAuth::Preparada || c.pasarela.preauths[k].estado
                        == EstadoPreAuth::Anulada
                &&& red[0] is Llega && red[1] !is PierdePedido ==> forall|k: Seq<char>| #[trigger]
                    c.pasarela.es_de(k, tx) ==> c.pasarela.preauths[k].estado
                        == EstadoPreAuth::Anulada
            }
        }),
{
    let c0 = empezar(e, p, s);
    let i = s->Alquiler_slot_id as int;
    let tx = e.proximo_id("T-"@);
    let id = p.proximo_id();
    ley_transaccion_nueva(e);
    lemma_proximo_libre(p);
    assert(e.slots[i].valido());
    assert(red.skip(1)[0] == red[1]);
    reveal_with_fuel(correr, 3);
    let c = correr(c0, red, ahora);
    assert forall|k: Seq<char>| #[trigger] c.pasarela.es_de(k, tx) implies k == id by {
        if k != id {
            assert(p.preauths.contains_key(k) ==> !p.es_de(k, tx));
        }
    }
    if confirmo(c) && red[1] is Llega {
        assert(c.estacion.commits =~= e.commits);
    }
    let t = s->tarjeta;
    if aceptable(t) {
        assert forall|j: int| 0 <= j < 3 implies es_cifra(#[trigger] t.cvv[j]) by {
            assert(j == 0 || j == 1 || j == 2);
        }
    } else if es_tarjeta_valida(t) {
        assert(es_cifra(t.cvv[0]) && es_cifra(t.cvv[1]) && es_cifra(t.cvv[2]));
    }
}

/// Las transacciones de la estación que la pasarela conoce son de las que la estación
/// ya generó.
pub open spec fn al_dia(e: EstacionVista, p: PasarelaVista) -> bool {
    forall|id: Seq<char>, n: nat| #[trigger]
        p.es_de(id, de_estacion("T-"@, e.id.0 as nat, n)) ==> n <= e.contador
}

/// Con la pasarela al día, la transacción que empieza una solicitud es nueva para
/// ella.
pub proof fn ley_transaccion_nueva_para_la_pasarela(e: EstacionVista, p: PasarelaVista)
    requires
        al_dia(e, p),
    ensures
        !p.preparo(e.proximo_id("T-"@)),
{
    let tx = e.proximo_id("T-"@);
    if p.preparo(tx) {
        let id = p.preauth_de(tx);
        assert(p.es_de(id, de_estacion("T-"@, e.id.0 as nat, e.contador + 1)));
    }
}

/// Una consulta de la estación deja a la pasarela al día si la transacción es de las
/// generadas.
proof fn lemma_consulta_al_dia(
    e: EstacionVista,
    p: PasarelaVista,
    pedido: PedidoVista,
    tarifado: Real64,
)
    requires
        p.valida(),
        al_dia(e, p),
        pedido matches PedidoVista::PreparePreauth { tx_id, .. } ==> exists|n: nat| #[trigger]
            e.genero("T-"@, n, tx_id),
    ensures
        p.tras(pedido, tarifado).valida(),
        al_dia(e, p.tras(pedido, tarifado)),
{
    let t = p.tras(pedido, tarifado);
    ley_validez(p, pedido, tarifado);
    lemma_proximo_libre(p);
    assert forall|id: Seq<char>, n: nat| #[trigger]
        t.es_de(id, de_estacion("T-"@, e.id.0 as nat, n)) implies n <= e.contador by {
        let tx = de_estacion("T-"@, e.id.0 as nat, n);
        if p.preauths.contains_key(id) {
            assert(p.es_de(id, tx));
        } else {
            let m = choose|m: nat| #[trigger] e.genero("T-"@, m, tx);
            ley_de_estacion_inyectivo("T-"@, e.id.0 as nat, n, e.id.0 as nat, m);
        }
    }
}

/// Una corrida deja a la pasarela al día, se pierdan los mensajes que se pierdan.
pub proof fn ley_sigue_al_dia(
    e: EstacionVista,
    p: PasarelaVista,
    s: SolicitudVista,
    red: Seq<Red>,
    ahora: Timestamp,
)
    requires
        p.valida(),
        al_dia(e, p),
        red.len() >= 2,
    ensures
        ({
            let c = correr(empezar(e, p, s), red, ahora);
            c.pasarela.valida() && al_dia(c.estacion, c.pasarela)
        }),
{
    reveal_with_fuel(correr, 3);
    let e1 = e.tras_solicitud(s);
    let tx = e.proximo_id("T-"@);
    assert(e1.genero("T-"@, e1.contador, tx));
    assert(al_dia(e1, p));
    if let PasoVista::Consultar { pedido, operacion, .. } = e.paso_inicial(s) {
        lemma_consulta_al_dia(e1, p, pedido, Real64 { bits: 0 });
        let r = recibida(red[0], p, pedido);
        let p1 = atendida(red[0], p, pedido);
        let e2 = e1.tras_respuesta(operacion, r, ahora);
        assert(al_dia(e2, p1));
        if let PasoVista::Consultar { pedido: pedido2, operacion: op2, .. } = e1.paso_siguiente(
            operacion,
            r,
            ahora,
        ) {
            lemma_consulta_al_dia(e2, p1, pedido2, Real64 { bits: 0 });
        }
    }
}

/// Los pedidos de otra estación no cambian que esta esté al día.
pub proof fn ley_al_dia_con_otras_estaciones(
    e: EstacionVista,
    otra: EstacionVista,
    p: PasarelaVista,
    pedido: PedidoVista,
    tarifado: Real64,
    n: nat,
)
    requires
        p.valida(),
        al_dia(e, p),
        otra.id != e.id,
        pedido matches PedidoVista::PreparePreauth { tx_id, .. } ==> otra.genero("T-"@, n, tx_id),
    ensures
        al_dia(e, p.tras(pedido, tarifado)),
{
    let t = p.tras(pedido, tarifado);
    lemma_proximo_libre(p);
    assert forall|id: Seq<char>, m: nat| #[trigger]
        t.es_de(id, de_estacion("T-"@, e.id.0 as nat, m)) implies m <= e.contador by {
        let tx = de_estacion("T-"@, e.id.0 as nat, m);
        if p.preauths.contains_key(id) {
            assert(p.es_de(id, tx));
        } else {
            ley_de_estacion_inyectivo("T-"@, e.id.0 as nat, m, otra.id.0 as nat, n);
        }
    }
}

/// Una corrida no toca los demás slots ni las pre-autorizaciones de otras
/// transacciones.
pub proof fn ley_no_toca_lo_ajeno(
    e: EstacionVista,
    p: PasarelaVista,
    s: SolicitudVista,
    red: Seq<Red>,
    ahora: Timestamp,
    otro: int,
    k: Seq<char>,
)
    requires
        p.valida(),
        s is Alquiler,
        s->Alquiler_slot_id < e.slots.len(),
        0 <= otro < e.slots.len(),
        otro != s->Alquiler_slot_id,
        p.preauths.contains_key(k),
        !p.es_de(k, e.proximo_id("T-"@)),
        red.len() >= 2,
    ensures
        ({
            let c = correr(empezar(e, p, s), red, ahora);
            &&& c.estacion.slots[otro] == e.slots[otro]
            &&& c.pasarela.preauths.contains_key(k)
            &&& c.pasarela.preauths[k] == p.preauths[k]
        }),
{
    let tx = e.proximo_id("T-"@);
    lemma_proximo_libre(p);
    reveal_with_fuel(correr, 3);
    if p.preparo(tx) {
        assert(p.es_de(p.preauth_de(tx), tx));
    }
}

/// Un commit que la pasarela no llegó a recibir se completa al reenviarlo: la
/// pre-autorización preparada queda activa y la respuesta permite borrar la
/// constancia.
pub proof fn ley_commit_pendiente_se_completa(
    p: PasarelaVista,
    tx: Seq<char>,
    id: Seq<char>,
    tarifado: Real64,
)
    requires
        p.es_de(id, tx),
        p.preauths[id].estado == EstadoPreAuth::Preparada,
    ensures
        ({
            let commit = PedidoVista::CommitPreauth { tx_id: tx, preauth_id: id };
            &&& p.tras(commit, tarifado).preauths[id].estado == EstadoPreAuth::Activa
            &&& p.respuesta(commit, tarifado) == (RespuestaVista::PreauthConfirmada {
                preauth_id: id,
            })
        }),
{
}

/// Ningún alquiler se abre ni se reporta sin pre-autorización: una estación solo abre
/// un alquiler al terminar una operación commiteada, y una operación solo llega a
/// commitearse con la pre-autorización que la pasarela votó y con el voto Sí del slot.
pub proof fn ley_ningun_alquiler_sin_preauth(
    e: EstacionVista,
    s: SolicitudVista,
    op: OperacionVista,
    respuesta: Option<RespuestaVista>,
    ahora: Timestamp,
)
    ensures
        e.tras_solicitud(s).propios == e.propios,
        e.tras_solicitud(s).rol == e.rol,
        !op.abre_alquiler() ==> {
            &&& e.tras_respuesta(op, respuesta, ahora).propios == e.propios
            &&& e.tras_respuesta(op, respuesta, ahora).rol == e.rol
        },
        !(e.paso_inicial(s) matches PasoVista::Consultar {
            operacion: OperacionVista::EsperaCommit { .. },
            ..
        }),
        e.paso_siguiente(op, respuesta, ahora) matches PasoVista::Consultar {
            operacion: OperacionVista::EsperaCommit { preauth_id, .. },
            ..
        } ==> op is EsperaVoto && op->voto == Voto::Si && preauth_votada(respuesta) == Some(
            preauth_id,
        ),
{
}

/// Sin bici no hay cobro: si al decidir el slot no tiene una bici que entregarle a la
/// transacción, por lo que sea, se rechaza el alquiler, no queda constancia de un commit
/// y ninguna pre-autorización pasa a activa, se pierdan los mensajes que se pierdan.
pub proof fn ley_sin_entrega_no_hay_commit(
    e: EstacionVista,
    p: PasarelaVista,
    op: OperacionVista,
    respuesta: Option<RespuestaVista>,
    red: Seq<Red>,
    ahora: Timestamp,
    id: Seq<char>,
)
    requires
        op is EsperaVoto,
        e.admite(op),
        e.slots[op->slot_id as int].entrega(op->EsperaVoto_tx_id) is None,
        red.len() >= 1,
        p.preauths.contains_key(id),
        p.preauths[id].estado !is Activa,
    ensures
        ({
            let c = correr(
                Corrida {
                    estacion: e.tras_respuesta(op, respuesta, ahora),
                    pasarela: p,
                    paso: e.paso_siguiente(op, respuesta, ahora),
                },
                red,
                ahora,
            );
            &&& c.paso matches PasoVista::Terminar {
                respuesta: ContestacionVista::AlquilerRechazado { .. },
                reporte: None,
            }
            &&& c.estacion.commits == e.commits
            &&& c.estacion.propios == e.propios
            &&& c.pasarela.preauths.contains_key(id)
            &&& c.pasarela.preauths[id].estado !is Activa
        }),
{
    reveal_with_fuel(correr, 3);
}

/// Una estación que vuelve de una caída con los commits que tenía pendientes, la
/// numeración donde estaba y los alquileres propios que haya guardado es coherente, y la
/// pasarela sigue al día con ella: no repite identificadores, ni los suyos ni los que la
/// pasarela ya conoce.
pub proof fn ley_vuelta_de_una_caida(e: EstacionVista, vuelta: EstacionVista, p: PasarelaVista)
    requires
        e.coherente(),
        al_dia(e, p),
        vuelta.id == e.id,
        vuelta.contador >= e.contador,
        vuelta.commits == e.commits,
        vuelta.propios.submap_of(e.propios),
        forall|i: int|
            0 <= i < vuelta.slots.len() ==> #[trigger] vuelta.slots[i] == slot_inicial(
                vuelta.slots[i].bici,
            ),
    ensures
        vuelta.coherente(),
        al_dia(vuelta, p),
        !p.preparo(vuelta.proximo_id("T-"@)),
        !vuelta.commits.contains_key(vuelta.proximo_id("T-"@)),
{
    assert forall|k: Seq<char>| #[trigger] vuelta.commits.contains_key(k) implies exists|n: nat|
        #[trigger] vuelta.genero("T-"@, n, k) by {
        assert(e.commits.contains_key(k));
        lemma_genero_crece(e, vuelta, "T-"@, k);
    }
    assert forall|r: Seq<char>| #[trigger] vuelta.propios.contains_key(r) implies exists|n: nat|
        #[trigger] vuelta.genero("R-"@, n, r) by {
        assert(e.propios.contains_key(r));
        lemma_genero_crece(e, vuelta, "R-"@, r);
    }
    assert forall|id: Seq<char>, n: nat| #[trigger]
        p.es_de(id, de_estacion("T-"@, vuelta.id.0 as nat, n)) implies n <= vuelta.contador by {
        assert(p.es_de(id, de_estacion("T-"@, e.id.0 as nat, n)));
    }
    ley_transaccion_nueva(vuelta);
    ley_transaccion_nueva_para_la_pasarela(vuelta, p);
}

/// La reserva de una transacción en curso sobrevive a cualquier otra cosa que haga la
/// estación mientras tanto: nuevos pedidos de alquiler o devolución, incluso sobre el
/// mismo slot, y respuestas a las demás operaciones. Así, cuando llega la decisión,
/// el Commit entrega la misma bici que se reservó.
pub proof fn ley_la_reserva_sobrevive(
    e: EstacionVista,
    i: int,
    tx: Seq<char>,
    s: SolicitudVista,
    op: OperacionVista,
    respuesta: Option<RespuestaVista>,
    ahora: Timestamp,
)
    requires
        e.coherente(),
        0 <= i < e.slots.len(),
        e.slots[i].reserva == Some(tx),
        e.admite(op),
        op is EsperaVoto ==> op->EsperaVoto_tx_id != tx,
    ensures
        e.tras_solicitud(s).slots[i].reserva == Some(tx),
        e.tras_solicitud(s).slots[i].bici == e.slots[i].bici,
        e.tras_respuesta(op, respuesta, ahora).slots[i].reserva == Some(tx),
        e.tras_respuesta(op, respuesta, ahora).slots[i].bici == e.slots[i].bici,
        e.slots[i].entrega(tx) == e.slots[i].bici,
        e.slots[i].bici is Some,
{
    assert(e.slots[i].valido());
    ley_transaccion_nueva(e);
}

/// Una devolución a un slot vacío deja ahí la bici, lista para alquilarse; a un slot
/// ocupado no le hace nada.
pub proof fn ley_devolucion(e: EstacionVista, s: SolicitudVista)
    requires
        e.coherente(),
        s is Devolucion,
        s->Devolucion_slot_id < e.slots.len(),
    ensures
        ({
            let i = s->Devolucion_slot_id as int;
            let t = e.tras_solicitud(s);
            &&& e.paso_inicial(s) is Terminar
            &&& e.slots[i].bici is None ==> {
                &&& e.paso_inicial(s)->respuesta == (ContestacionVista::DevolucionAceptada {
                    bici_id: s->bici_id,
                })
                &&& t.slots[i].bici == Some(s->bici_id)
                &&& t.slots[i].disponible()
            }
            &&& e.slots[i].bici is Some ==> {
                &&& e.paso_inicial(s)->respuesta is DevolucionRechazada
                &&& t.slots == e.slots
            }
        }),
{
    let i = s->Devolucion_slot_id as int;
    assert(e.slots[i].valido());
    if e.slots[i].bici is Some {
        assert(e.tras_solicitud(s).slots =~= e.slots);
    }
}

/// Ida y vuelta: una bici alquilada y devuelta al mismo slot vuelve a estar
/// disponible en él.
pub proof fn ley_alquilar_y_devolver(
    e: EstacionVista,
    p: PasarelaVista,
    s: SolicitudVista,
    red: Seq<Red>,
    ahora: Timestamp,
    usuario_id: Seq<char>,
)
    requires
        e.coherente(),
        p.valida(),
        s is Alquiler,
        s->Alquiler_slot_id < e.slots.len(),
        !p.preparo(e.proximo_id("T-"@)),
        red.len() >= 2,
        confirmo(correr(empezar(e, p, s), red, ahora)),
    ensures
        ({
            let c = correr(empezar(e, p, s), red, ahora);
            let bici_id = c.paso->respuesta->AlquilerConfirmado_bici_id;
            let rental_id = c.paso->respuesta->AlquilerConfirmado_rental_id;
            let slot_id = s->Alquiler_slot_id;
            let vuelta = SolicitudVista::Devolucion { usuario_id, bici_id, rental_id, slot_id };
            &&& c.estacion.paso_inicial(vuelta)->respuesta
                == (ContestacionVista::DevolucionAceptada { bici_id })
            &&& c.estacion.tras_solicitud(vuelta).slots[slot_id as int].bici
                == e.slots[slot_id as int].bici
            &&& c.estacion.tras_solicitud(vuelta).slots[slot_id as int].disponible()
        }),
{
    ley_atomicidad(e, p, s, red, ahora);
    let i = s->Alquiler_slot_id as int;
    assert(correr(empezar(e, p, s), red, ahora).estacion.slots.len() == e.slots.len()) by {
        reveal_with_fuel(correr, 3);
    }
    assert(e.slots[i].valido());
}

} // verus!