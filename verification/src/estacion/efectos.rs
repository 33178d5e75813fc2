//! Qué hace la estación con cada cosa que le llega, dicho por lo que entra y lo que sale:
//! los pedidos de usuario, las respuestas de la pasarela y los mensajes de las demás.

use vstd::prelude::*;

#[allow(unused_imports)]
use crate::comun::direccion::Direccion;
#[allow(unused_imports)]
use crate::comun::dominio::{vistas_de, Alquiler, AlquilerVista, EstadoAlquiler};
#[allow(unused_imports)]
use crate::comun::ids::{BiciId, EstacionId, TarjetaVista};
#[allow(unused_imports)]
use crate::comun::mensajes::estacion_estacion::MensajeEntreEstacionesTCP;
#[allow(unused_imports)]
use crate::comun::mensajes::estacion_pasarela::{
    MensajePasarelaAEstacion, PedidoVista, RespuestaVista,
};
#[allow(unused_imports)]
use crate::comun::mensajes::usuario_estacion::{
    ContestacionVista, MensajeEstacionAUsuario, MensajeEstacionAUsuarioConsulta, MensajeUsuario,
    SolicitudVista,
};
#[allow(unused_imports)]
use crate::comun::texto::decimal;
#[allow(unused_imports)]
use crate::comun::tiempo::Timestamp;
#[allow(unused_imports)]
use crate::estacion::anillo::ley_siguiente;
#[allow(unused_imports)]
use crate::estacion::coordinador::{
    clasificar, ids_de, vista_de_respuesta, PaqueteVista, Recibido,
};
#[allow(unused_imports)]
use crate::estacion::eleccion::{mensaje_ring, AccionVista, EstadoLider, MensajeRing, NodoRing};
#[allow(unused_imports)]
use crate::estacion::mensajes::Voto;
#[allow(unused_imports)]
use crate::estacion::operacion::{OperacionVista, Paso, PasoVista};
#[allow(unused_imports)]
use crate::estacion::protocolo::{direccion_desde, preauth_votada, EstacionVista, LiderVista};
#[allow(unused_imports)]
use crate::estacion::registro::ley_la_lista_es_el_registro;

verus! {

// ---------------------------------------------------------------------------
// Pedidos de usuario
// ---------------------------------------------------------------------------

/// Un pedido de alquiler de un slot que existe le pide a la pasarela que prepare los fondos
/// de ese usuario con esa tarjeta, por mil, en una transacción con el próximo número; y
/// queda esperando su voto con el del slot, que es Sí si y solo si tiene una bici que
/// nadie reservó. No cambia ningún otro slot.
pub proof fn ley_pedir_un_alquiler(
    e: EstacionVista,
    usuario_id: Seq<char>,
    slot_id: u32,
    tarjeta: TarjetaVista,
    otro: int,
)
    requires
        slot_id < e.slots.len(),
    ensures
        ({
            let s = SolicitudVista::Alquiler { usuario_id, slot_id, tarjeta };
            let numero = decimal(e.id.0 as nat) + seq!['-'] + decimal(e.contador + 1);
            let slot = e.slots[slot_id as int];
            let t = e.tras_solicitud(s);
            &&& e.paso_inicial(s) matches PasoVista::Consultar {
                destino,
                pedido: PedidoVista::PreparePreauth {
                    tx_id,
                    usuario_id: u,
                    tarjeta: c,
                    monto_propuesto,
                },
                operacion: OperacionVista::EsperaVoto {
                    tx_id: tx,
                    rental_id,
                    usuario_id: v,
                    slot_id: k,
                    voto,
                },
            }
            &&& destino == e.pasarela
            &&& tx_id == "T-"@ + numero && tx == tx_id
            &&& rental_id == "R-"@ + numero
            &&& u == usuario_id && v == usuario_id
            &&& c == tarjeta
            &&& monto_propuesto.bits == 0x408f_4000_0000_0000
            &&& k == slot_id
            &&& !slot.votos.contains_key(tx_id) ==> (voto == Voto::Si <==> slot.bici is Some
                && slot.reserva is None)
            &&& slot.votos.contains_key(tx_id) ==> voto == slot.votos[tx_id]
            &&& t == (EstacionVista { slots: t.slots, contador: e.contador + 1, ..e })
            &&& t.slots.len() == e.slots.len()
            &&& 0 <= otro < e.slots.len() && otro != slot_id ==> t.slots[otro] == e.slots[otro]
            &&& t.slots[slot_id as int].bici == slot.bici
            &&& !slot.votos.contains_key(tx_id) && voto == Voto::Si
                ==> t.slots[slot_id as int].reserva == Some(tx_id)
            &&& slot.votos.contains_key(tx_id) || voto == Voto::No
                ==> t.slots[slot_id as int].reserva == slot.reserva
            &&& t.slots[slot_id as int].entregas == slot.entregas
        }),
{
    let numero = decimal(e.id.0 as nat) + seq!['-'] + decimal(e.contador + 1);
    assert(e.proximo_id("T-"@) =~= "T-"@ + numero);
    assert(e.proximo_id("R-"@) =~= "R-"@ + numero);
}

/// Un pedido sobre un slot que no existe se rechaza diciendo cuál, y no hace más que gastar
/// un número.
pub proof fn ley_slot_inexistente(e: EstacionVista, s: SolicitudVista)
    ensures
        ({
            let slot_id = match s {
                SolicitudVista::Alquiler { slot_id, .. } => slot_id,
                SolicitudVista::Devolucion { slot_id, .. } => slot_id,
            };
            let motivo = "no existe el slot "@ + decimal(slot_id as nat);
            slot_id >= e.slots.len() ==> {
                &&& s is Alquiler ==> e.paso_inicial(s) == (PasoVista::Terminar {
                    respuesta: ContestacionVista::AlquilerRechazado { motivo },
                    reporte: None,
                })
                &&& s is Devolucion ==> e.paso_inicial(s) == (PasoVista::Terminar {
                    respuesta: ContestacionVista::DevolucionRechazada { motivo },
                    reporte: None,
                })
                &&& e.tras_solicitud(s) == (EstacionVista { contador: e.contador + 1, ..e })
            }
        }),
{
}

/// Una devolución a un slot vacío se acepta y deja ahí esa bici; a uno ocupado se rechaza
/// diciendo cuál, y la bici que estaba sigue. Ningún otro slot cambia, ni ninguna reserva,
/// y no se reporta nada.
pub proof fn ley_devolver_una_bici(
    e: EstacionVista,
    usuario_id: Seq<char>,
    bici_id: BiciId,
    rental_id: Seq<char>,
    slot_id: u32,
    otro: int,
)
    requires
        slot_id < e.slots.len(),
    ensures
        ({
            let s = SolicitudVista::Devolucion { usuario_id, bici_id, rental_id, slot_id };
            let i = slot_id as int;
            let t = e.tras_solicitud(s);
            &&& e.slots[i].bici is None ==> {
                &&& e.paso_inicial(s) == (PasoVista::Terminar {
                    respuesta: ContestacionVista::DevolucionAceptada { bici_id },
                    reporte: None,
                })
                &&& t.slots[i].bici == Some(bici_id)
            }
            &&& e.slots[i].bici is Some ==> {
                &&& e.paso_inicial(s) == (PasoVista::Terminar {
                    respuesta: ContestacionVista::DevolucionRechazada {
                        motivo: "el slot "@ + decimal(slot_id as nat) + " está ocupado"@,
                    },
                    reporte: None,
                })
                &&& t.slots[i].bici == e.slots[i].bici
            }
            &&& t.slots[i].reserva == e.slots[i].reserva
            &&& t.slots[i].votos == e.slots[i].votos
            &&& t.slots[i].entregas == e.slots[i].entregas
            &&& 0 <= otro < e.slots.len() && otro != i ==> t.slots[otro] == e.slots[otro]
            &&& t == (EstacionVista { slots: t.slots, contador: e.contador + 1, ..e })
            &&& t.slots.len() == e.slots.len()
        }),
{
}

// ---------------------------------------------------------------------------
// Respuestas de la pasarela
// ---------------------------------------------------------------------------

/// La pasarela votó Sí con esa pre-autorización si y solo si contestó un voto sin rechazo
/// que la trae.
pub proof fn ley_que_voto_la_pasarela(respuesta: Option<RespuestaVista>, id: Seq<char>)
    ensures
        preauth_votada(respuesta) == Some(id) <==> (respuesta matches Some(
            RespuestaVista::Voto { rechazo: None, preauth_id: Some(p), .. },
        ) && p == id),
{
}

/// La decisión. Con el Sí del slot, el Sí de la pasarela y una bici para entregar, el slot
/// la entrega, queda constancia y se le pide a la pasarela el Commit de esa
/// pre-autorización; la operación sigue con esa bici. Si la pasarela votó Sí pero el slot
/// no, o no tiene qué entregar, se le pide que la anule. Si no votó Sí, el slot suelta la
/// reserva y se rechaza. Los motivos dicen de quién fue.
pub proof fn ley_la_decision(
    e: EstacionVista,
    op: OperacionVista,
    respuesta: Option<RespuestaVista>,
    ahora: Timestamp,
    id: Seq<char>,
    otro: int,
)
    requires
        op is EsperaVoto,
        op->slot_id < e.slots.len(),
    ensures
        ({
            let tx_id = op->EsperaVoto_tx_id;
            let i = op->slot_id as int;
            let slot = e.slots[i];
            let voto_si = respuesta matches Some(
                RespuestaVista::Voto { rechazo: None, preauth_id: Some(p), .. },
            ) && p == id;
            let voto_no = !(respuesta matches Some(
                RespuestaVista::Voto { rechazo: None, preauth_id: Some(_), .. },
            ));
            let tiene = slot.reserva == Some(tx_id) && slot.bici is Some
                || slot.reserva != Some(tx_id) && slot.entregas.contains_key(tx_id);
            let bici = if slot.reserva == Some(tx_id) {
                slot.bici->0
            } else {
                slot.entregas[tx_id]
            };
            let paso = e.paso_siguiente(op, respuesta, ahora);
            let t = e.tras_respuesta(op, respuesta, ahora);
            &&& voto_si && op->voto == Voto::Si && tiene ==> {
                &&& paso == (PasoVista::Consultar {
                    destino: e.pasarela,
                    pedido: PedidoVista::CommitPreauth { tx_id, preauth_id: id },
                    operacion: OperacionVista::EsperaCommit {
                        tx_id,
                        rental_id: op->EsperaVoto_rental_id,
                        usuario_id: op->EsperaVoto_usuario_id,
                        preauth_id: id,
                        bici_id: bici,
                    },
                })
                &&& t.commits == e.commits.insert(tx_id, id)
                &&& slot.reserva == Some(tx_id) ==> t.slots[i].bici is None
                    && t.slots[i].reserva is None
                &&& slot.reserva != Some(tx_id) ==> t.slots[i] == slot
            }
            &&& voto_si && (op->voto == Voto::No || slot.reserva != Some(tx_id)
                && !slot.entregas.contains_key(tx_id)) ==> {
                &&& paso == (PasoVista::Consultar {
                    destino: e.pasarela,
                    pedido: PedidoVista::AbortPreauth { tx_id, preauth_id: id },
                    operacion: OperacionVista::EsperaAbort {
                        motivo: if op->voto == Voto::Si {
                            "el slot no liberó la bici"@
                        } else {
                            "el slot no tenía una bici disponible"@
                        },
                    },
                })
                &&& t == e
            }
            &&& voto_no ==> {
                &&& paso == (PasoVista::Terminar {
                    respuesta: ContestacionVista::AlquilerRechazado {
                        motivo: if op->voto == Voto::No {
                            "el slot no tenía una bici disponible"@
                        } else if respuesta is None {
                            "timeout en preparación"@
                        } else {
                            "la pasarela rechazó el pago o no respondió"@
                        },
                    },
                    reporte: None,
                })
                &&& t.commits == e.commits
                &&& t.slots[i].bici == slot.bici
                &&& op->voto == Voto::Si && slot.reserva == Some(tx_id) ==> t.slots[i].reserva
                    is None
                &&& op->voto == Voto::No || slot.reserva != Some(tx_id) ==> t.slots[i].reserva
                    == slot.reserva
            }
            &&& 0 <= otro < e.slots.len() && otro != i ==> t.slots[otro] == e.slots[otro]
            &&& t.slots[i].votos == slot.votos
            &&& t == (EstacionVista { slots: t.slots, commits: t.commits, ..e })
            &&& t.slots.len() == e.slots.len()
        }),
{
}

/// El cierre de una operación commiteada, haya confirmado o no la pasarela. Se le confirma
/// al usuario ese alquiler de esa bici con esa pre-autorización. El alquiler que queda
/// entre los propios es de esa bici, de ese usuario y de esta estación, empieza en el
/// instante que se dio, no terminó y está abierto; y es el mismo que el líder registra, o
/// que se le reporta a su dirección con un evento nuevo. La constancia se borra si y solo
/// si la pasarela confirmó esa pre-autorización.
pub proof fn ley_abrir_el_alquiler(
    e: EstacionVista,
    op: OperacionVista,
    respuesta: Option<RespuestaVista>,
    ahora: Timestamp,
    otro: Seq<char>,
)
    requires
        op is EsperaCommit,
    ensures
        ({
            let r = op->EsperaCommit_rental_id;
            let id = op->preauth_id;
            let paso = e.paso_siguiente(op, respuesta, ahora);
            let t = e.tras_respuesta(op, respuesta, ahora);
            let a = t.propios[r];
            let confirmada = respuesta matches Some(
                RespuestaVista::PreauthConfirmada { preauth_id },
            ) && preauth_id == id;
            &&& paso matches PasoVista::Terminar { respuesta: contestacion, reporte }
            &&& contestacion == (ContestacionVista::AlquilerConfirmado {
                rental_id: r,
                bici_id: op->bici_id,
                preauth_id: id,
            })
            &&& t.propios.contains_key(r)
            &&& a.rental_id == r
            &&& a.bici_id == op->bici_id
            &&& a.usuario_id == op->EsperaCommit_usuario_id
            &&& a.estacion_origen == e.id
            &&& a.inicio == ahora
            &&& a.fin is None
            &&& a.preauth_id == id
            &&& a.estado == EstadoAlquiler::Activo
            &&& otro != r ==> (t.propios.contains_key(otro) <==> e.propios.contains_key(otro))
            &&& otro != r && e.propios.contains_key(otro) ==> t.propios[otro] == e.propios[otro]
            &&& e.rol matches Some(l) ==> {
                &&& reporte is None
                &&& t.rol == Some(LiderVista { registro: l.registro.insert(r, a), ..l })
            }
            &&& e.rol is None ==> {
                &&& t.rol is None
                &&& reporte matches Some(aviso)
                &&& aviso.destino == e.lider
                &&& aviso.event_id == "E-"@ + decimal(e.id.0 as nat) + seq!['-'] + decimal(
                    e.contador + 1,
                )
                &&& aviso.alquiler == a
            }
            &&& confirmada ==> t.commits == e.commits.remove(op->EsperaCommit_tx_id)
            &&& !confirmada ==> t.commits == e.commits
            &&& t == (EstacionVista {
                contador: e.contador + 1,
                propios: t.propios,
                rol: t.rol,
                commits: t.commits,
                ..e
            })
        }),
{
}

/// El mensaje que le llega al líder: con el mismo instante de inicio, bici, usuario,
/// estación y pre-autorización que el alquiler que quedó entre los propios.
pub proof fn ley_lo_que_se_le_manda_al_lider(
    e: EstacionVista,
    op: OperacionVista,
    respuesta: Option<RespuestaVista>,
    ahora: Timestamp,
    paso: Paso,
)
    requires
        op is EsperaCommit,
        e.rol is None,
        paso.es(e.paso_siguiente(op, respuesta, ahora)),
    ensures
        paso matches Paso::Terminar { respuesta: contestacion, reporte: Some(envio) } && {
            &&& contestacion matches MensajeEstacionAUsuario::AlquilerConfirmado {
                rental_id,
                bici_id,
                preauth_id,
            }
            &&& rental_id.0@ == op->EsperaCommit_rental_id
            &&& bici_id == op->bici_id
            &&& preauth_id@ == op->preauth_id
            &&& envio.destino == e.lider
            &&& envio.mensaje matches MensajeEntreEstacionesTCP::AlquilerAbierto {
                event_id,
                rental_id: r,
                bici_id: b,
                usuario_id,
                estacion_origen,
                t0,
                preauth_id: p,
            }
            &&& event_id.0@ == "E-"@ + decimal(e.id.0 as nat) + seq!['-'] + decimal(e.contador + 1)
            &&& r.0@ == op->EsperaCommit_rental_id
            &&& b == op->bici_id
            &&& usuario_id.0@ == op->EsperaCommit_usuario_id
            &&& estacion_origen == e.id
            &&& t0 == ahora
            &&& p@ == op->preauth_id
        },
{
}

/// El cierre de una operación abortada, conteste lo que conteste la pasarela: se rechaza
/// con su motivo y no cambia nada.
pub proof fn ley_cerrar_el_aborto(
    e: EstacionVista,
    op: OperacionVista,
    respuesta: Option<RespuestaVista>,
    ahora: Timestamp,
)
    requires
        op is EsperaAbort,
    ensures
        e.paso_siguiente(op, respuesta, ahora) == (PasoVista::Terminar {
            respuesta: ContestacionVista::AlquilerRechazado { motivo: op->motivo },
            reporte: None,
        }),
        e.tras_respuesta(op, respuesta, ahora) == e,
{
}

// ---------------------------------------------------------------------------
// El directorio
// ---------------------------------------------------------------------------

proof fn lemma_directorio(
    directorio: Seq<(EstacionId, Direccion)>,
    id: EstacionId,
    desde: int,
    i: int,
)
    requires
        0 <= desde <= i <= directorio.len(),
        i < directorio.len() ==> directorio[i].0 == id,
        forall|j: int| desde <= j < i ==> (#[trigger] directorio[j]).0 != id,
    ensures
        direccion_desde(directorio, id, desde) == if i < directorio.len() {
            Some(directorio[i].1)
        } else {
            None
        },
    decreases i - desde,
{
    if desde < i {
        assert(directorio[desde].0 != id);
        lemma_directorio(directorio, id, desde + 1, i);
    }
}

/// Buscar en el directorio encuentra la primera entrada con ese id, esté donde esté.
pub proof fn ley_buscar_en_el_directorio(e: EstacionVista, id: EstacionId, i: int)
    requires
        0 <= i < e.directorio.len(),
        e.directorio[i].0 == id,
        forall|j: int| 0 <= j < i ==> (#[trigger] e.directorio[j]).0 != id,
    ensures
        direccion_desde(e.directorio, id, 0) == Some(e.directorio[i].1),
        e.direccion_de(id) == Some(e.directorio[i].1),
{
    lemma_directorio(e.directorio, id, 0, i);
}

/// La búsqueda en el directorio encuentra algo si y solo si alguna entrada tiene ese id, y
/// lo que encuentra es la dirección de una que lo tiene, sin ninguna antes.
pub proof fn ley_que_hay_en_el_directorio(e: EstacionVista, id: EstacionId)
    ensures
        e.direccion_de(id) is Some <==> exists|i: int|
            0 <= i < e.directorio.len() && (#[trigger] e.directorio[i]).0 == id,
        e.direccion_de(id) matches Some(d) ==> exists|i: int|
            #![trigger e.directorio[i]]
            0 <= i < e.directorio.len() && e.directorio[i] == (id, d) && forall|j: int|
                0 <= j < i ==> (#[trigger] e.directorio[j]).0 != id,
{
    if exists|i: int| 0 <= i < e.directorio.len() && (#[trigger] e.directorio[i]).0 == id {
        let i = choose|i: int| 0 <= i < e.directorio.len() && (#[trigger] e.directorio[i]).0 == id;
        let k = lemma_la_primera(e.directorio, id, i);
        lemma_directorio(e.directorio, id, 0, k);
        assert(e.directorio[k].0 == id);
    } else {
        assert forall|j: int| 0 <= j < e.directorio.len() implies (#[trigger] e.directorio[j]).0
            != id by {}
        lemma_directorio(e.directorio, id, 0, e.directorio.len() as int);
    }
}

/// Si una entrada tiene el id, hay una primera que lo tiene.
proof fn lemma_la_primera(directorio: Seq<(EstacionId, Direccion)>, id: EstacionId, i: int) -> (k:
    int)
    requires
        0 <= i < directorio.len(),
        directorio[i].0 == id,
    ensures
        0 <= k <= i,
        directorio[k].0 == id,
        forall|j: int| 0 <= j < k ==> (#[trigger] directorio[j]).0 != id,
    decreases i,
{
    if exists|j: int| 0 <= j < i && (#[trigger] directorio[j]).0 == id {
        let j = choose|j: int| 0 <= j < i && (#[trigger] directorio[j]).0 == id;
        lemma_la_primera(directorio, id, j)
    } else {
        i
    }
}

// ---------------------------------------------------------------------------
// La elección
// ---------------------------------------------------------------------------

/// Toda acción de la elección con un destino que está en el directorio se manda: a esa
/// estación, a la dirección de su primera entrada y con ese mensaje. Sin destino no se
/// manda nada.
pub proof fn ley_toda_accion_se_manda(
    e: EstacionVista,
    accion: AccionVista,
    destino: EstacionId,
    mensaje: MensajeRing,
    i: int,
)
    requires
        0 <= i < e.directorio.len(),
        e.directorio[i].0 == destino,
        forall|j: int| 0 <= j < i ==> (#[trigger] e.directorio[j]).0 != destino,
    ensures
        accion == (AccionVista::Reenviar { destino, mensaje }) ==> e.envio_ring(accion) == Some(
            (destino, e.directorio[i].1, mensaje),
        ),
        accion == (AccionVista::AsumirYReenviar { destino: Some(destino), mensaje })
            ==> e.envio_ring(accion) == Some((destino, e.directorio[i].1, mensaje)),
        accion is Ignorar ==> e.envio_ring(accion) is None,
        accion == (AccionVista::AsumirYReenviar { destino: None, mensaje }) ==> e.envio_ring(accion)
            is None,
{
    ley_buscar_en_el_directorio(e, destino, i);
}

/// Lo que sale de un paso de la elección. Reenviar es mandar ese mensaje a la dirección del
/// destino. Asumir es además pedirles sus alquileres a las demás. Ignorar es no hacer nada.
pub proof fn ley_lo_que_sale_de_la_eleccion(
    e: EstacionVista,
    paso: (NodoRing, AccionVista),
    r: Recibido,
    destino: EstacionId,
    mensaje: MensajeRing,
    i: int,
    k: int,
)
    requires
        r.es_ring(e, paso),
        0 <= i < e.directorio.len(),
        e.directorio[i].0 == destino,
        forall|j: int| 0 <= j < i ==> (#[trigger] e.directorio[j]).0 != destino,
    ensures
        paso.1 is Ignorar ==> r is Ignorar,
        paso.1 == (AccionVista::Reenviar { destino, mensaje }) ==> {
            &&& r matches Recibido::Enviar { estacion, envio }
            &&& estacion == destino
            &&& envio.destino == e.directorio[i].1
            &&& mensaje_ring(envio.mensaje) == mensaje
        },
        paso.1 == (AccionVista::AsumirYReenviar { destino: Some(destino), mensaje }) ==> {
            &&& r matches Recibido::Asumir { anuncio: Some((estacion, envio)), .. }
            &&& estacion == destino
            &&& envio.destino == e.directorio[i].1
            &&& mensaje_ring(envio.mensaje) == mensaje
        },
        paso.1 == (AccionVista::AsumirYReenviar { destino: None, mensaje }) ==> r
            matches Recibido::Asumir { anuncio: None, .. },
        paso.1 is AsumirYReenviar ==> {
            &&& r matches Recibido::Asumir { pedidos, .. }
            &&& pedidos@.len() == e.pedidos().len()
            &&& 0 <= k < pedidos@.len() ==> pedidos@[k].destino == e.pedidos()[k]
                && pedidos@[k].mensaje
                == (MensajeEntreEstacionesTCP::SolicitarAlquileresAbiertos { term: paso.0.term })
        },
{
    ley_buscar_en_el_directorio(e, destino, i);
}

/// Cuando el líder no responde, la elección arranca de verdad: si todas las del anillo están
/// en el directorio y no está sola, se manda un `Election` con el propio id a la que sigue
/// en el anillo, en su dirección.
pub proof fn ley_la_eleccion_arranca(e: EstacionVista, r: Recibido, i: int)
    requires
        e.nodo.valido(),
        e.nodo.mi_id == e.id,
        e.nodo.anillo.len() >= 2,
        r.es_ring(e, e.nodo.iniciar()),
        0 <= i < e.directorio.len(),
        e.nodo.anillo.contains(e.directorio[i].0),
        e.directorio[i].0 != e.id,
        // Es la que sigue: no hay otra entre las dos.
        forall|x: EstacionId|
            e.nodo.anillo.contains(x) && x != e.id && x != e.directorio[i].0 ==> {
                let s = e.directorio[i].0;
                if s.0 > e.id.0 {
                    x.0 > s.0 || x.0 < e.id.0
                } else {
                    s.0 < x.0 < e.id.0
                }
            },
        forall|j: int| 0 <= j < i ==> (#[trigger] e.directorio[j]).0 != e.directorio[i].0,
    ensures
        r matches Recibido::Enviar { estacion, envio } && {
            &&& estacion == e.directorio[i].0
            &&& envio.destino == e.directorio[i].1
            &&& envio.mensaje matches MensajeEntreEstacionesTCP::Election { ids, iniciador }
            &&& ids@ == seq![e.id]
            &&& iniciador == e.id
        },
{
    let s = e.directorio[i].0;
    ley_siguiente(e.nodo);
    let n = e.nodo.siguiente()->0;
    assert(e.nodo.anillo.contains(n) && n != e.id);
    if n != s {
        if s.0 > e.id.0 {
            assert(n.0 > e.id.0 && n.0 <= s.0);
        } else {
            assert(s.0 < n.0 && n.0 < e.id.0);
            if exists|x: EstacionId| e.nodo.anillo.contains(x) && x.0 > e.id.0 {
                assert(n.0 > e.id.0);
            } else {
                assert(n.0 <= s.0);
            }
        }
    }
    ley_buscar_en_el_directorio(e, s, i);
}

/// Lo que cambia al adoptar un líder: a quién se le reporta, que es la dirección de su
/// primera entrada en el directorio, y el rol. Quien pasa a ser el líder empieza el
/// registro con todos sus alquileres y sin eventos; quien ya lo era lo conserva; quien no
/// lo es no tiene. Sin líder, no cambia más que el nodo.
pub proof fn ley_adoptar_un_lider(e: EstacionVista, nodo: NodoRing, lider: EstacionId, i: int)
    ensures
        ({
            let t = e.con_nodo(nodo);
            &&& t.nodo == nodo
            &&& t.id == e.id && t.slots == e.slots && t.pasarela == e.pasarela
            &&& t.propios == e.propios && t.commits == e.commits && t.contador == e.contador
            &&& t.directorio == e.directorio
            &&& !(nodo.estado is Conocido) ==> t.rol == e.rol && t.lider == e.lider
            &&& nodo.estado == EstadoLider::Conocido(lider) ==> {
                &&& lider != e.id ==> t.rol is None
                &&& lider == e.id ==> t.rol is Some
                &&& lider == e.id && e.rol is Some ==> t.rol == e.rol
                &&& lider == e.id && e.rol is None ==> {
                    &&& t.rol->0.registro == e.propios
                    &&& t.rol->0.eventos == Set::<Seq<char>>::empty()
                }
                &&& 0 <= i < e.directorio.len() && e.directorio[i].0 == lider && (forall|j: int|
                    0 <= j < i ==> (#[trigger] e.directorio[j]).0 != lider) ==> t.lider
                    == e.directorio[i].1
                &&& (forall|j: int|
                    0 <= j < e.directorio.len() ==> (#[trigger] e.directorio[j]).0 != lider)
                    ==> t.lider == e.lider
            }
        }),
{
    if 0 <= i < e.directorio.len() && e.directorio[i].0 == lider && (forall|j: int|
        0 <= j < i ==> (#[trigger] e.directorio[j]).0 != lider) {
        ley_buscar_en_el_directorio(e, lider, i);
    }
    if forall|j: int| 0 <= j < e.directorio.len() ==> (#[trigger] e.directorio[j]).0 != lider {
        lemma_directorio(e.directorio, lider, 0, e.directorio.len() as int);
    }
}

/// Lo que se le contesta a quien pregunta por el líder: si se lo conoce y está en el
/// directorio, quién es, dónde escucha y en qué término; si hay una elección, eso; si no,
/// que no se sabe.
pub proof fn ley_lo_que_dice_el_discovery(e: EstacionVista, lider: EstacionId, i: int)
    ensures
        e.nodo.estado is EnEleccion ==> e.discovery()
            == MensajeEstacionAUsuarioConsulta::EnEleccion,
        e.nodo.estado is Desconocido ==> e.discovery()
            == MensajeEstacionAUsuarioConsulta::LiderDesconocido,
        e.nodo.estado == EstadoLider::Conocido(lider) && 0 <= i < e.directorio.len()
            && e.directorio[i].0 == lider && (forall|j: int|
            0 <= j < i ==> (#[trigger] e.directorio[j]).0 != lider) ==> e.discovery()
            == (MensajeEstacionAUsuarioConsulta::RespuestaLider {
            lider_id: lider,
            lider_addr: e.directorio[i].1,
            term: e.nodo.term,
        }),
        e.nodo.estado == EstadoLider::Conocido(lider) && (forall|j: int|
            0 <= j < e.directorio.len() ==> (#[trigger] e.directorio[j]).0 != lider)
            ==> e.discovery() == MensajeEstacionAUsuarioConsulta::LiderDesconocido,
{
    if 0 <= i < e.directorio.len() && e.directorio[i].0 == lider && (forall|j: int|
        0 <= j < i ==> (#[trigger] e.directorio[j]).0 != lider) {
        ley_buscar_en_el_directorio(e, lider, i);
    }
    if forall|j: int| 0 <= j < e.directorio.len() ==> (#[trigger] e.directorio[j]).0 != lider {
        lemma_directorio(e.directorio, lider, 0, e.directorio.len() as int);
    }
}

// ---------------------------------------------------------------------------
// Los avisos y los alquileres de las demás
// ---------------------------------------------------------------------------

/// Lo que hace un aviso de apertura: el líder agrega ese alquiler al registro y anota el
/// evento, si es nuevo. Lo demás no cambia, y quien no es el líder no hace nada.
pub proof fn ley_lo_que_hace_un_aviso(e: EstacionVista, evento: Seq<char>, a: AlquilerVista)
    ensures
        ({
            let t = e.tras_aviso(evento, a);
            &&& e.rol is None ==> t == e
            &&& e.rol matches Some(l) ==> {
                &&& l.eventos.contains(evento) ==> t == e
                &&& !l.eventos.contains(evento) ==> t.rol == Some(
                    LiderVista {
                        registro: l.registro.insert(a.rental_id, a),
                        eventos: l.eventos.insert(evento),
                    },
                )
            }
            &&& t == (EstacionVista { rol: t.rol, ..e })
        }),
{
}

/// Los alquileres abiertos que cuenta una estación: los del registro que no se cerraron, si
/// es el líder; ninguno si no lo es.
pub proof fn ley_los_que_se_cuentan(e: EstacionVista, id: Seq<char>)
    ensures
        e.rol is None ==> e.abiertos() == Set::<Seq<char>>::empty(),
        e.rol matches Some(l) ==> (e.abiertos().contains(id) <==> l.registro.contains_key(id)
            && l.registro[id].estado == EstadoAlquiler::Activo),
{
}

/// Lo que hace el pedido de un líder de un término mayor al propio, en quien era el líder:
/// queda sin registro y sin líder conocido, en ese término. Nada más cambia, y en cualquier
/// otro caso no cambia nada.
pub proof fn ley_lo_que_hace_un_pedido(e: EstacionVista, term: u64)
    ensures
        ({
            let t = e.tras_pedido(term);
            &&& e.rol is Some && term > e.nodo.term ==> {
                &&& t.rol is None
                &&& t.nodo.term == term
                &&& t.nodo.estado is Desconocido
                &&& t.nodo.mi_id == e.nodo.mi_id
                &&& t.nodo.anillo == e.nodo.anillo
                &&& t == (EstacionVista { rol: t.rol, nodo: t.nodo, ..e })
            }
            &&& e.rol is None || term <= e.nodo.term ==> t == e
            &&& e.responde_pedido(term) <==> e.rol is None || term > e.nodo.term
        }),
{
}

/// Lo que se contesta a ese pedido: todos los alquileres propios, como están, y ninguno
/// más.
pub proof fn ley_lo_que_se_contesta_al_pedido(
    e: EstacionVista,
    term: u64,
    r: Recibido,
    id: Seq<char>,
    i: int,
)
    requires
        r.es_respuesta(e, term),
    ensures
        e.rol is Some && term <= e.nodo.term ==> r is Ignorar,
        e.rol is None || term > e.nodo.term ==> {
            &&& r matches Recibido::Contestar {
                mensaje: MensajeEntreEstacionesTCP::RespuestaAlquileres { alquileres },
            }
            &&& e.propios.contains_key(id) ==> exists|n: int|
                0 <= n < alquileres@.len() && (#[trigger] alquileres@[n])@ == e.propios[id]
            &&& 0 <= i < alquileres@.len() ==> e.propios.contains_key(alquileres@[i].rental_id.0@)
                && e.propios[alquileres@[i].rental_id.0@] == alquileres@[i]@
        },
{
    if e.rol is None || term > e.nodo.term {
        let alquileres = r->mensaje->RespuestaAlquileres_alquileres@;
        let lista = vistas_de(alquileres);
        ley_la_lista_es_el_registro(lista, e.propios, id, i, i);
        if e.propios.contains_key(id) {
            let n = choose|n: int|
                0 <= n < lista.len() && (#[trigger] lista[n]).rental_id == id && lista[n]
                    == e.propios[id];
            assert(alquileres[n]@ == e.propios[id]);
        }
        if 0 <= i < alquileres.len() {
            assert(lista[i] == alquileres[i]@);
        }
    }
}

/// Incorporar los alquileres de otra estación agrega cada uno al registro del líder, y nada
/// más; quien no es el líder no hace nada.
pub proof fn ley_incorporar_alquileres(
    e: EstacionVista,
    lista: Seq<AlquilerVista>,
    a: AlquilerVista,
)
    ensures
        e.tras_alquileres(Seq::<AlquilerVista>::empty()) == e,
        e.rol is None ==> e.tras_alquileres(lista) == e,
        e.rol is Some ==> {
            let (antes, t) = (e.tras_alquileres(lista), e.tras_alquileres(lista.push(a)));
            &&& antes.rol is Some && t.rol is Some
            &&& t.rol->0.registro == antes.rol->0.registro.insert(a.rental_id, a)
            &&& t.rol->0.eventos == e.rol->0.eventos
            &&& t == (EstacionVista { rol: t.rol, ..e })
        },
{
    assert(lista.push(a).drop_last() =~= lista);
}

/// Recuperar un alquiler propio lo deja entre los propios y, en el líder, en el registro.
/// Nada más cambia; la numeración tampoco.
pub proof fn ley_recuperar_un_alquiler(e: EstacionVista, a: AlquilerVista)
    ensures
        ({
            let t = e.con_recuperado(a);
            &&& t.propios == e.propios.insert(a.rental_id, a)
            &&& e.rol is None ==> t.rol is None
            &&& e.rol matches Some(l) ==> t.rol == Some(
                LiderVista { registro: l.registro.insert(a.rental_id, a), ..l },
            )
            &&& t == (EstacionVista { propios: t.propios, rol: t.rol, ..e })
        }),
{
}

/// Una estación que vuelve le manda sus alquileres al líder que conoce, a la dirección de
/// su primera entrada en el directorio; no se los manda a sí misma ni a nadie si no sabe
/// quién es.
pub proof fn ley_a_quien_se_le_ingresa(e: EstacionVista, lider: EstacionId, i: int)
    ensures
        !(e.nodo.estado is Conocido) ==> e.destino_ingreso() is None,
        e.nodo.estado == EstadoLider::Conocido(e.id) ==> e.destino_ingreso() is None,
        e.nodo.estado == EstadoLider::Conocido(lider) && lider != e.id && 0 <= i
            < e.directorio.len() && e.directorio[i].0 == lider && (forall|j: int|
            0 <= j < i ==> (#[trigger] e.directorio[j]).0 != lider) ==> e.destino_ingreso() == Some(
            e.directorio[i].1,
        ),
{
    if 0 <= i < e.directorio.len() && e.directorio[i].0 == lider && (forall|j: int|
        0 <= j < i ==> (#[trigger] e.directorio[j]).0 != lider) {
        ley_buscar_en_el_directorio(e, lider, i);
    }
}

// ---------------------------------------------------------------------------
// Los paquetes
// ---------------------------------------------------------------------------

/// Qué se hace con cada mensaje de otra estación, venga como venga leído de otra manera.
pub proof fn ley_que_es_cada_mensaje(
    m: MensajeEntreEstacionesTCP,
    de_usuario: Option<MensajeUsuario>,
    hay_responder: bool,
)
    ensures
        ({
            let p = clasificar(Some(m), de_usuario, hay_responder);
            match m {
                MensajeEntreEstacionesTCP::AlquilerAbierto {
                    event_id,
                    rental_id,
                    bici_id,
                    usuario_id,
                    estacion_origen,
                    t0,
                    preauth_id,
                } => p == (PaqueteVista::Aviso {
                    event_id: event_id.0@,
                    alquiler: AlquilerVista {
                        rental_id: rental_id.0@,
                        bici_id,
                        usuario_id: usuario_id.0@,
                        estacion_origen,
                        inicio: t0,
                        fin: None,
                        preauth_id: preauth_id@,
                        estado: EstadoAlquiler::Activo,
                    },
                }),
                MensajeEntreEstacionesTCP::SolicitarAlquileresAbiertos { term } => p
                    == (PaqueteVista::Pedido { term }),
                MensajeEntreEstacionesTCP::RespuestaAlquileres { alquileres } => p
                    == (PaqueteVista::Alquileres {
                    alquileres: alquileres@.map_values(|a: Alquiler| a@),
                }),
                MensajeEntreEstacionesTCP::IngresoTardio { alquileres } => p
                    == (PaqueteVista::Alquileres {
                    alquileres: alquileres@.map_values(|a: Alquiler| a@),
                }),
                MensajeEntreEstacionesTCP::Election { ids, iniciador } => p
                    == (PaqueteVista::Ring {
                    mensaje: MensajeRing::Election { ids: ids@, iniciador },
                }),
                MensajeEntreEstacionesTCP::Coordinator { lider, term } => p
                    == (PaqueteVista::Ring { mensaje: MensajeRing::Coordinator { lider, term } }),
                _ => p == clasificar(None, de_usuario, hay_responder),
            }
        }),
{
}

/// Qué se hace con cada mensaje de usuario: las operaciones y las preguntas por el líder se
/// atienden si se puede contestar; lo demás no.
pub proof fn ley_que_es_cada_pedido(m: MensajeUsuario)
    ensures
        clasificar(None, Some(m), false) is Otro,
        clasificar(None, None, true) is Otro,
        m matches MensajeUsuario::Operacion(op) ==> clasificar(None, Some(m), true)
            == (PaqueteVista::Operacion { solicitud: op@ }),
        m matches MensajeUsuario::Consulta(c) ==> {
            &&& c is PreguntarLider ==> clasificar(None, Some(m), true) is Discovery
            &&& c is ConsultaDisponibilidad ==> clasificar(None, Some(m), true) is Otro
        },
{
}

/// Los ids de un directorio son los de sus entradas, en orden; y una respuesta de la
/// pasarela es la que llegó.
pub proof fn ley_ids_del_directorio(
    directorio: Seq<(EstacionId, Direccion)>,
    i: int,
    r: Option<MensajePasarelaAEstacion>,
)
    ensures
        ids_de(directorio).len() == directorio.len(),
        0 <= i < directorio.len() ==> ids_de(directorio)[i] == directorio[i].0,
        r is None <==> vista_de_respuesta(r) is None,
        r matches Some(m) ==> vista_de_respuesta(r) == Some(m@),
{
}

/// Dar por gastados los números hasta `n` no deja atrás ninguno: ni los que ya se habían
/// gastado ni esos. Nada más cambia.
pub proof fn ley_numerar_desde(e: EstacionVista, n: nat)
    ensures
        ({
            let t = e.numerada_desde(n);
            &&& t.contador >= n && t.contador >= e.contador
            &&& t.contador == n || t.contador == e.contador
            &&& t == (EstacionVista { contador: t.contador, ..e })
        }),
{
}

} // verus!
