//! El comportamiento de una estación, como un modelo: su estado y cómo cambia con
//! cada pedido, cada respuesta de la pasarela y cada paquete de otra estación.

use vstd::prelude::*;

#[allow(unused_imports)]
use crate::comun::direccion::Direccion;
#[allow(unused_imports)]
use crate::comun::dominio::{AlquilerVista, EstadoAlquiler};
#[allow(unused_imports)]
use crate::comun::etiquetas::{de_estacion, numerado};
#[allow(unused_imports)]
use crate::comun::ids::{BiciId, EstacionId};
#[allow(unused_imports)]
use crate::comun::mensajes::estacion_pasarela::{PedidoVista, RespuestaVista};
#[allow(unused_imports)]
use crate::comun::mensajes::usuario_estacion::{
    ContestacionVista, MensajeEstacionAUsuarioConsulta, SolicitudVista,
};
#[allow(unused_imports)]
use crate::comun::numeros::Real64;
#[allow(unused_imports)]
use crate::comun::tiempo::Timestamp;
#[allow(unused_imports)]
use crate::estacion::anillo::envio;
#[allow(unused_imports)]
use crate::estacion::eleccion::{AccionVista, EstadoLider, MensajeRing, NodoRing};
#[allow(unused_imports)]
use crate::estacion::mensajes::Voto;
#[allow(unused_imports)]
use crate::estacion::operacion::{OperacionVista, PasoVista, ReporteVista};
#[allow(unused_imports)]
use crate::estacion::slot::SlotVista;

verus! {

/// Monto que se pre-autoriza (reserva) al iniciar un alquiler: los bits del real
/// 1000.
pub const MONTO_RESERVA: u64 = 0x408f_4000_0000_0000;

/// Lo que sabe el líder: el registro de alquileres y los eventos que ya procesó.
#[verifier::ext_equal]
pub struct LiderVista {
    pub registro: Map<Seq<char>, AlquilerVista>,
    pub eventos: Set<Seq<char>>,
}

/// El estado de una estación. Solo el líder tiene un registro. `lider` es a dónde se
/// le reporta; `nodo` es su lugar en el anillo, y `directorio`, dónde escucha cada
/// estación.
#[verifier::ext_equal]
pub struct EstacionVista {
    pub id: EstacionId,
    pub slots: Seq<SlotVista>,
    pub pasarela: Direccion,
    pub lider: Direccion,
    pub rol: Option<LiderVista>,
    pub propios: Map<Seq<char>, AlquilerVista>,
    pub commits: Map<Seq<char>, Seq<char>>,
    pub contador: nat,
    pub nodo: NodoRing,
    pub directorio: Seq<(EstacionId, Direccion)>,
}

/// La primera dirección de `id` en un directorio, a partir de `i`.
pub open spec fn direccion_desde(
    directorio: Seq<(EstacionId, Direccion)>,
    id: EstacionId,
    i: int,
) -> Option<Direccion>
    decreases directorio.len() - i,
{
    if i < 0 || i >= directorio.len() {
        None
    } else if directorio[i].0 == id {
        Some(directorio[i].1)
    } else {
        direccion_desde(directorio, id, i + 1)
    }
}

/// A dónde se les piden sus alquileres a las primeras `n` estaciones de un anillo: a
/// todas las que están en el directorio, menos `id`, que es la que pide.
pub open spec fn destinos_pedido(
    directorio: Seq<(EstacionId, Direccion)>,
    anillo: Seq<EstacionId>,
    id: EstacionId,
    n: nat,
) -> Seq<Direccion>
    decreases n,
{
    if n == 0 {
        Seq::empty()
    } else {
        let previos = destinos_pedido(directorio, anillo, id, (n - 1) as nat);
        match direccion_desde(directorio, anillo[n - 1], 0) {
            Some(d) if anillo[n - 1] != id => previos.push(d),
            _ => previos,
        }
    }
}

/// El rechazo de un alquiler, con su motivo.
pub open spec fn rechazo_alquiler(motivo: Seq<char>) -> PasoVista {
    PasoVista::Terminar {
        respuesta: ContestacionVista::AlquilerRechazado { motivo },
        reporte: None,
    }
}

/// El rechazo de una devolución, con su motivo.
pub open spec fn rechazo_devolucion(motivo: Seq<char>) -> PasoVista {
    PasoVista::Terminar {
        respuesta: ContestacionVista::DevolucionRechazada { motivo },
        reporte: None,
    }
}

/// El motivo cuando el slot pedido no existe.
pub open spec fn motivo_sin_slot(slot_id: u32) -> Seq<char> {
    numerado("no existe el slot "@, slot_id as nat)
}

/// El motivo cuando el slot de una devolución tiene una bici.
pub open spec fn motivo_ocupado(slot_id: u32) -> Seq<char> {
    numerado("el slot "@, slot_id as nat) + " está ocupado"@
}

/// El motivo de un aborto: si el slot no votó Sí, es del slot; si la pasarela no
/// respondió, es el plazo del Prepare; si no, es que la pasarela no votó Sí.
pub open spec fn motivo_aborto(voto: Voto, respondio: bool) -> Seq<char> {
    if voto != Voto::Si {
        "el slot no tenía una bici disponible"@
    } else if !respondio {
        "timeout en preparación"@
    } else {
        "la pasarela rechazó el pago o no respondió"@
    }
}

/// El motivo cuando los dos votaron Sí pero el slot no entregó la bici.
pub open spec fn motivo_sin_entrega() -> Seq<char> {
    "el slot no liberó la bici"@
}

/// La pre-autorización que trae una respuesta, si es un voto Sí que la trae.
pub open spec fn preauth_votada(respuesta: Option<RespuestaVista>) -> Option<Seq<char>> {
    match respuesta {
        Some(RespuestaVista::Voto { rechazo: None, preauth_id, .. }) => preauth_id,
        _ => None,
    }
}

/// La respuesta confirma esa pre-autorización.
pub open spec fn confirma(respuesta: Option<RespuestaVista>, id: Seq<char>) -> bool {
    respuesta matches Some(RespuestaVista::PreauthConfirmada { preauth_id }) && preauth_id == id
}

impl EstacionVista {
    /// La estación con un slot cambiado.
    pub open spec fn con_slot(self, i: u32, slot: SlotVista) -> EstacionVista {
        EstacionVista { slots: self.slots.update(i as int, slot), ..self }
    }

    /// El próximo identificador que genera la estación con un prefijo.
    pub open spec fn proximo_id(self, prefijo: Seq<char>) -> Seq<char> {
        de_estacion(prefijo, self.id.0 as nat, self.contador + 1)
    }

    /// La estación con un número de identificador ya gastado.
    pub open spec fn numerada(self) -> EstacionVista {
        EstacionVista { contador: self.contador + 1, ..self }
    }

    /// La estación con los números hasta `n` ya gastados.
    pub open spec fn numerada_desde(self, n: nat) -> EstacionVista {
        EstacionVista {
            contador: if n > self.contador {
                n
            } else {
                self.contador
            },
            ..self
        }
    }

    /// La operación es de esta estación.
    pub open spec fn admite(self, op: OperacionVista) -> bool {
        op matches OperacionVista::EsperaVoto { slot_id, .. } ==> slot_id < self.slots.len()
    }

    // --- Pedido de un usuario ---
    /// El primer paso de una solicitud.
    pub open spec fn paso_inicial(self, solicitud: SolicitudVista) -> PasoVista {
        let tx = self.proximo_id("T-"@);
        match solicitud {
            SolicitudVista::Alquiler { usuario_id, slot_id, tarjeta } => {
                if slot_id >= self.slots.len() {
                    rechazo_alquiler(motivo_sin_slot(slot_id))
                } else {
                    PasoVista::Consultar {
                        destino: self.pasarela,
                        pedido: PedidoVista::PreparePreauth {
                            tx_id: tx,
                            usuario_id,
                            tarjeta,
                            monto_propuesto: Real64 { bits: MONTO_RESERVA },
                        },
                        operacion: OperacionVista::EsperaVoto {
                            tx_id: tx,
                            rental_id: self.proximo_id("R-"@),
                            usuario_id,
                            slot_id,
                            voto: self.slots[slot_id as int].voto(tx),
                        },
                    }
                }
            },
            SolicitudVista::Devolucion { bici_id, slot_id, .. } => {
                if slot_id >= self.slots.len() {
                    rechazo_devolucion(motivo_sin_slot(slot_id))
                } else if self.slots[slot_id as int].bici is None {
                    PasoVista::Terminar {
                        respuesta: ContestacionVista::DevolucionAceptada { bici_id },
                        reporte: None,
                    }
                } else {
                    rechazo_devolucion(motivo_ocupado(slot_id))
                }
            },
        }
    }

    /// La estación tras recibir una solicitud: gastó un número, y el slot pedido
    /// votó o recibió la bici.
    pub open spec fn tras_solicitud(self, solicitud: SolicitudVista) -> EstacionVista {
        match solicitud {
            SolicitudVista::Alquiler { slot_id, .. } => if slot_id >= self.slots.len() {
                self.numerada()
            } else {
                self.numerada().con_slot(
                    slot_id,
                    self.slots[slot_id as int].preparado(self.proximo_id("T-"@)),
                )
            },
            SolicitudVista::Devolucion { bici_id, slot_id, .. } => {
                if slot_id >= self.slots.len() {
                    self.numerada()
                } else {
                    self.numerada().con_slot(
                        slot_id,
                        self.slots[slot_id as int].con_bici_acercada(bici_id),
                    )
                }
            },
        }
    }

    // --- Respuesta de la pasarela ---
    /// La decisión del 2PC, con el voto del slot, la pre-autorización que votó la
    /// pasarela (ninguna si votó No o no respondió) y si respondió: commitear si los
    /// dos votaron Sí y el slot entrega la bici; si no, abortar a quien haya votado Sí.
    pub open spec fn paso_decision(
        self,
        tx_id: Seq<char>,
        rental_id: Seq<char>,
        usuario_id: Seq<char>,
        slot_id: u32,
        voto: Voto,
        preauth: Option<Seq<char>>,
        respondio: bool,
    ) -> PasoVista {
        match preauth {
            Some(id) => match self.slots[slot_id as int].entrega(tx_id) {
                Some(bici_id) if voto == Voto::Si => PasoVista::Consultar {
                    destino: self.pasarela,
                    pedido: PedidoVista::CommitPreauth { tx_id, preauth_id: id },
                    operacion: OperacionVista::EsperaCommit {
                        tx_id,
                        rental_id,
                        usuario_id,
                        preauth_id: id,
                        bici_id,
                    },
                },
                _ => PasoVista::Consultar {
                    destino: self.pasarela,
                    pedido: PedidoVista::AbortPreauth { tx_id, preauth_id: id },
                    operacion: OperacionVista::EsperaAbort {
                        motivo: if voto == Voto::Si {
                            motivo_sin_entrega()
                        } else {
                            motivo_aborto(voto, true)
                        },
                    },
                },
            },
            None => rechazo_alquiler(motivo_aborto(voto, respondio)),
        }
    }

    /// La estación tras la decisión: el slot commiteó o abortó, y queda constancia de
    /// un commit si entregó la bici.
    pub open spec fn tras_decision(
        self,
        tx_id: Seq<char>,
        slot_id: u32,
        voto: Voto,
        preauth: Option<Seq<char>>,
    ) -> EstacionVista {
        let slot = self.slots[slot_id as int];
        if voto != Voto::Si {
            self
        } else {
            match preauth {
                Some(id) => if slot.entrega(tx_id) is Some {
                    EstacionVista {
                        commits: self.commits.insert(tx_id, id),
                        ..self.con_slot(slot_id, slot.commiteado(tx_id))
                    }
                } else {
                    self
                },
                None => self.con_slot(slot_id, slot.abortado(tx_id)),
            }
        }
    }

    /// El alquiler que abre una operación commiteada.
    pub open spec fn alquiler_abierto(
        self,
        rental_id: Seq<char>,
        usuario_id: Seq<char>,
        preauth_id: Seq<char>,
        bici_id: BiciId,
        ahora: Timestamp,
    ) -> AlquilerVista {
        AlquilerVista {
            rental_id,
            bici_id,
            usuario_id,
            estacion_origen: self.id,
            inicio: ahora,
            fin: None,
            preauth_id,
            estado: EstadoAlquiler::Activo,
        }
    }

    /// El aviso al líder de un alquiler; ninguno si la estación es el líder.
    pub open spec fn reporte(self, a: AlquilerVista) -> Option<ReporteVista> {
        if self.rol is Some {
            None
        } else {
            Some(
                ReporteVista {
                    destino: self.lider,
                    event_id: self.proximo_id("E-"@),
                    alquiler: a,
                },
            )
        }
    }

    /// La estación tras abrir un alquiler: queda entre los propios y, si es el líder,
    /// en el registro. Gasta un número.
    pub open spec fn con_alquiler(self, a: AlquilerVista) -> EstacionVista {
        EstacionVista {
            contador: self.contador + 1,
            propios: self.propios.insert(a.rental_id, a),
            rol: match self.rol {
                Some(l) => Some(
                    LiderVista { registro: l.registro.insert(a.rental_id, a), ..l },
                ),
                None => None,
            },
            ..self
        }
    }

    /// El paso que sigue a una respuesta de la pasarela (`None` si no respondió).
    pub open spec fn paso_siguiente(
        self,
        op: OperacionVista,
        respuesta: Option<RespuestaVista>,
        ahora: Timestamp,
    ) -> PasoVista {
        match op {
            OperacionVista::EsperaVoto { tx_id, rental_id, usuario_id, slot_id, voto } => {
                self.paso_decision(
                    tx_id,
                    rental_id,
                    usuario_id,
                    slot_id,
                    voto,
                    preauth_votada(respuesta),
                    respuesta is Some,
                )
            },
            OperacionVista::EsperaCommit { rental_id, usuario_id, preauth_id, bici_id, .. } => {
                PasoVista::Terminar {
                    respuesta: ContestacionVista::AlquilerConfirmado {
                        rental_id,
                        bici_id,
                        preauth_id,
                    },
                    reporte: self.reporte(
                        self.alquiler_abierto(rental_id, usuario_id, preauth_id, bici_id, ahora),
                    ),
                }
            },
            OperacionVista::EsperaAbort { motivo } => rechazo_alquiler(motivo),
        }
    }

    /// La estación tras una respuesta de la pasarela (`None` si no respondió).
    pub open spec fn tras_respuesta(
        self,
        op: OperacionVista,
        respuesta: Option<RespuestaVista>,
        ahora: Timestamp,
    ) -> EstacionVista {
        match op {
            OperacionVista::EsperaVoto { tx_id, slot_id, voto, .. } => {
                self.tras_decision(tx_id, slot_id, voto, preauth_votada(respuesta))
            },
            OperacionVista::EsperaCommit { tx_id, rental_id, usuario_id, preauth_id, bici_id } => {
                let s = if confirma(respuesta, preauth_id) {
                    EstacionVista { commits: self.commits.remove(tx_id), ..self }
                } else {
                    self
                };
                s.con_alquiler(
                    s.alquiler_abierto(rental_id, usuario_id, preauth_id, bici_id, ahora),
                )
            },
            OperacionVista::EsperaAbort { .. } => self,
        }
    }

    // --- Elección de líder ---
    /// Dónde escucha una estación, si está en el directorio.
    pub open spec fn direccion_de(self, id: EstacionId) -> Option<Direccion> {
        direccion_desde(self.directorio, id, 0)
    }

    /// La estación tras reconocer a `lider`: le reporta a él, y tiene un registro si y
    /// solo si es ella misma. Al asumir, el registro empieza con los alquileres propios;
    /// los de las demás se le incorporan a medida que responden.
    pub open spec fn con_lider(self, lider: EstacionId) -> EstacionVista {
        EstacionVista {
            lider: match self.direccion_de(lider) {
                Some(d) => d,
                None => self.lider,
            },
            rol: if lider != self.id {
                None
            } else if self.rol is Some {
                self.rol
            } else {
                Some(LiderVista { registro: self.propios, eventos: Set::empty() })
            },
            ..self
        }
    }

    /// La estación tras un paso de la elección que deja así su nodo: si con él reconoce
    /// a un líder, toma el rol que le toca.
    pub open spec fn con_nodo(self, nodo: NodoRing) -> EstacionVista {
        let s = EstacionVista { nodo, ..self };
        match nodo.estado {
            EstadoLider::Conocido(lider) => s.con_lider(lider),
            _ => s,
        }
    }

    /// El mensaje del anillo que hay que mandar, a qué estación y en qué dirección.
    pub open spec fn envio_ring(self, accion: AccionVista) -> Option<
        (EstacionId, Direccion, MensajeRing),
    > {
        match envio(accion) {
            Some((destino, mensaje)) => match self.direccion_de(destino) {
                Some(d) => Some((destino, d, mensaje)),
                None => None,
            },
            None => None,
        }
    }

    /// Lo que se le contesta a quien pregunta por el líder.
    pub open spec fn discovery(self) -> MensajeEstacionAUsuarioConsulta {
        match self.nodo.estado {
            EstadoLider::Conocido(lider_id) => match self.direccion_de(lider_id) {
                Some(lider_addr) => MensajeEstacionAUsuarioConsulta::RespuestaLider {
                    lider_id,
                    lider_addr,
                    term: self.nodo.term,
                },
                None => MensajeEstacionAUsuarioConsulta::LiderDesconocido,
            },
            EstadoLider::EnEleccion => MensajeEstacionAUsuarioConsulta::EnEleccion,
            EstadoLider::Desconocido => MensajeEstacionAUsuarioConsulta::LiderDesconocido,
        }
    }

    // --- Aviso de otra estación ---
    /// El líder tras un aviso de apertura: lo incorpora si el evento es nuevo. Una
    /// estación que no es el líder no hace nada.
    pub open spec fn tras_aviso(self, event_id: Seq<char>, a: AlquilerVista) -> EstacionVista {
        match self.rol {
            Some(l) if !l.eventos.contains(event_id) => EstacionVista {
                rol: Some(
                    LiderVista {
                        registro: l.registro.insert(a.rental_id, a),
                        eventos: l.eventos.insert(event_id),
                    },
                ),
                ..self
            },
            _ => self,
        }
    }

    // --- Reconstrucción del registro ---
    /// A quiénes les pide sus alquileres cuando asume: a todas las demás del anillo.
    pub open spec fn pedidos(self) -> Seq<Direccion> {
        destinos_pedido(self.directorio, self.nodo.anillo, self.id, self.nodo.anillo.len())
    }

    /// Responde al líder del término `term`, que pide sus alquileres: si es follower, o
    /// si es el líder de un término anterior.
    pub open spec fn responde_pedido(self, term: u64) -> bool {
        self.rol is None || term > self.nodo.term
    }

    /// La estación tras ese pedido. El líder de un término anterior se entera de que ya
    /// no lo es.
    pub open spec fn tras_pedido(self, term: u64) -> EstacionVista {
        if self.rol is Some && term > self.nodo.term {
            EstacionVista { rol: None, nodo: self.nodo.con_term(term), ..self }
        } else {
            self
        }
    }

    /// El líder tras recibir los alquileres de una estación: los incorpora al registro.
    /// Una estación que no es el líder no hace nada.
    pub open spec fn tras_alquileres(self, alquileres: Seq<AlquilerVista>) -> EstacionVista {
        match self.rol {
            Some(l) => EstacionVista {
                rol: Some(
                    LiderVista {
                        registro: crate::estacion::registro::consolidado(l.registro, alquileres),
                        ..l
                    },
                ),
                ..self
            },
            None => self,
        }
    }

    /// A dónde manda sus alquileres al volver de una caída: al líder, si no es ella.
    pub open spec fn destino_ingreso(self) -> Option<Direccion> {
        match self.nodo.estado {
            EstadoLider::Conocido(lider) if lider != self.id => self.direccion_de(lider),
            _ => None,
        }
    }

    /// La estación tras recuperar un alquiler propio de antes de una caída.
    pub open spec fn con_recuperado(self, a: AlquilerVista) -> EstacionVista {
        EstacionVista { contador: self.contador, ..self.con_alquiler(a) }
    }

    /// Los ids de los alquileres abiertos del registro; ninguno si no es el líder.
    pub open spec fn abiertos(self) -> Set<Seq<char>> {
        match self.rol {
            Some(l) => crate::estacion::registro::ids_activos(l.registro),
            None => Set::empty(),
        }
    }
}

} // verus!
