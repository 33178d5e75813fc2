//! El coordinador de la estación.
//!
//! Es el **coordinador del 2PC** del alquiler: en la fase Prepare le pregunta al
//! slot (local) y a la pasarela (remota); si los dos votan que sí, commitea ambos y
//! registra el alquiler con la pre-autorización real; si alguno vota no (o la
//! pasarela no responde), aborta ambos. La devolución es local.
//!
//! Una de las estaciones es el líder y mantiene el registro de los alquileres de
//! todas; las demás le reportan los que abren. Cuando asume otra, les pide a todas sus
//! alquileres propios y con ellos reconstruye el registro.

use vstd::prelude::*;
use vstd::string::StringExecFns;

use crate::comun::direccion::Direccion;
use crate::comun::dominio::{Alquiler, EstadoAlquiler};
#[allow(unused_imports)]
use crate::comun::dominio::{vistas_de, AlquilerVista};
use crate::comun::etiquetas::{escribir_de_estacion, escribir_numerado};
use crate::comun::ids::{BiciId, EstacionId, EventId, RentalId, TransaccionId, UsuarioId};
use crate::comun::mensajes::estacion_estacion::MensajeEntreEstacionesTCP;
#[allow(unused_imports)]
use crate::comun::mensajes::estacion_estacion::{acuse, alquileres_informados, aviso_de_apertura};
use crate::comun::mensajes::estacion_pasarela::{
    MensajeEstacionAPasarela, MensajePasarelaAEstacion, VotoResultado,
};
#[allow(unused_imports)]
use crate::comun::mensajes::estacion_pasarela::RespuestaVista;
use crate::comun::mensajes::usuario_estacion::{
    MensajeEstacionAUsuario, MensajeEstacionAUsuarioConsulta, MensajeUsuario,
    MensajeUsuarioAEstacion, MensajeUsuarioAEstacionConsulta,
};
#[allow(unused_imports)]
use crate::comun::mensajes::usuario_estacion::{ContestacionVista, SolicitudVista};
use crate::comun::numeros::Real64;
use crate::comun::tabla::Tabla;
use crate::comun::tiempo::Timestamp;
use crate::estacion::eleccion::{AccionRing, Eleccion, EstadoLider};
#[allow(unused_imports)]
use crate::estacion::eleccion::{creciente, mensaje_ring, AccionVista, MensajeRing, NodoRing};
use crate::estacion::mensajes::{
    AbortLiberacion, AceptarBici, CommitConfirmado, CommitLiberacion, EstadoSlot, InfoLider,
    PrepareLiberacion, RegistrarCommitPendiente, SolicitudUsuario, Voto,
};
use crate::estacion::operacion::{Envio, Operacion, Paso};
#[allow(unused_imports)]
use crate::estacion::operacion::{reporta, PasoVista};
use crate::estacion::protocolo::MONTO_RESERVA;
#[allow(unused_imports)]
use crate::estacion::protocolo::{
    destinos_pedido, direccion_desde, motivo_aborto, rechazo_alquiler, rechazo_devolucion,
    EstacionVista, LiderVista,
};
#[allow(unused_imports)]
use crate::estacion::registro::es_lista_de;
use crate::estacion::registro::Registro;
use crate::estacion::slot::Slot;
#[allow(unused_imports)]
use crate::estacion::slot::{ley_vista_valida, SlotVista};

verus! {

/// Rol de la estación: una es el líder (mantiene el registro autoritativo), el
/// resto son followers.
enum RolEstacion {
    Lider {
        registro: Registro,
        /// Los eventos que ya se procesaron, para no repetirlos.
        eventos: Tabla<bool>,
    },
    Follower,
}

/// Una estación: sus slots, su rol y los alquileres que abrió.
pub struct Estacion {
    id: EstacionId,
    ubicacion: (Real64, Real64),
    slots: Vec<Slot>,
    pasarela: Direccion,
    /// Dirección del líder (a quién reportar los alquileres si soy follower).
    lider: Direccion,
    rol: RolEstacion,
    alquileres_propios: Registro,
    /// Los commits decididos que la pasarela todavía no confirmó: por transacción, la
    /// pre-autorización.
    commits: Tabla<String>,
    /// Contador para generar ids únicos de transacción, alquiler y evento.
    contador: u64,
    /// Su lugar en el anillo de elección.
    eleccion: Eleccion,
    /// Dónde escucha cada estación.
    directorio: Vec<(EstacionId, Direccion)>,
}

// ---------------------------------------------------------------------------
// Modelo
// ---------------------------------------------------------------------------

/// Los slots, como valores matemáticos.
spec fn vistas(slots: Seq<Slot>) -> Seq<SlotVista> {
    slots.map_values(|s: Slot| s@)
}

impl View for Estacion {
    type V = EstacionVista;

    closed spec fn view(&self) -> EstacionVista {
        EstacionVista {
            id: self.id,
            slots: vistas(self.slots@),
            pasarela: self.pasarela,
            lider: self.lider,
            rol: match self.rol {
                RolEstacion::Lider { registro, eventos } => Some(
                    LiderVista { registro: registro@, eventos: eventos@.dom() },
                ),
                RolEstacion::Follower => None,
            },
            propios: self.alquileres_propios@,
            commits: self.commits@.map_values(|id: String| id@),
            contador: self.contador as nat,
            nodo: self.eleccion@,
            directorio: self.directorio@,
        }
    }
}

/// Lo que la estación hace con un paquete de la red.
#[derive(Debug)]
pub enum Recibido {
    /// No hay nada que hacer ni que contestar.
    Ignorar,
    /// Contestarle a la estación que lo mandó.
    Contestar { mensaje: MensajeEntreEstacionesTCP },
    /// Mandarle un mensaje a otra estación.
    Enviar { estacion: EstacionId, envio: Envio },
    /// La estación asumió el liderazgo: reenviar el anuncio, si hay a quién, y pedirles a
    /// las demás sus alquileres. Lo que contesten es un paquete recibido.
    Asumir { anuncio: Option<(EstacionId, Envio)>, pedidos: Vec<Envio> },
    /// Contestarle al usuario que preguntó por el líder.
    Informar { respuesta: MensajeEstacionAUsuarioConsulta },
    /// Es un pedido de usuario: seguir con la operación.
    Operar { paso: Paso },
}

/// Una respuesta de la pasarela, como valor matemático.
pub open spec fn vista_de_respuesta(r: Option<MensajePasarelaAEstacion>) -> Option<
    RespuestaVista,
> {
    match r {
        Some(m) => Some(m@),
        None => None,
    }
}

/// Qué es un paquete de la red.
pub enum PaqueteVista {
    /// El aviso de un alquiler que abrió otra estación, con el id del evento.
    Aviso { event_id: Seq<char>, alquiler: AlquilerVista },
    /// Un líder que pide los alquileres propios.
    Pedido { term: u64 },
    /// Los alquileres propios de otra estación.
    Alquileres { alquileres: Seq<AlquilerVista> },
    /// Un mensaje de la elección.
    Ring { mensaje: MensajeRing },
    /// Una operación de usuario a la que se puede contestar.
    Operacion { solicitud: SolicitudVista },
    /// Un usuario que pregunta por el líder, al que se puede contestar.
    Discovery,
    /// Cualquier otra cosa.
    Otro,
}

/// Qué es un mensaje de otra estación.
pub open spec fn clasificar_estacion(m: MensajeEntreEstacionesTCP) -> PaqueteVista {
    match (aviso_de_apertura(m), alquileres_informados(m), mensaje_ring(m)) {
        (Some((event_id, alquiler)), _, _) => PaqueteVista::Aviso { event_id, alquiler },
        (None, Some(alquileres), _) => PaqueteVista::Alquileres { alquileres },
        (None, None, MensajeRing::Ajeno) => match m {
            MensajeEntreEstacionesTCP::SolicitarAlquileresAbiertos { term } => {
                PaqueteVista::Pedido { term }
            },
            _ => PaqueteVista::Otro,
        },
        (None, None, mensaje) => PaqueteVista::Ring { mensaje },
    }
}

/// Qué es un mensaje de usuario.
pub open spec fn clasificar_usuario(
    m: Option<MensajeUsuario>,
    hay_responder: bool,
) -> PaqueteVista {
    match m {
        Some(MensajeUsuario::Operacion(op)) if hay_responder => PaqueteVista::Operacion {
            solicitud: op@,
        },
        Some(MensajeUsuario::Consulta(MensajeUsuarioAEstacionConsulta::PreguntarLider))
            if hay_responder => PaqueteVista::Discovery,
        _ => PaqueteVista::Otro,
    }
}

/// Qué es un paquete, leído como mensaje de otra estación o de un usuario.
pub open spec fn clasificar(
    entre_estaciones: Option<MensajeEntreEstacionesTCP>,
    de_usuario: Option<MensajeUsuario>,
    hay_responder: bool,
) -> PaqueteVista {
    match entre_estaciones {
        Some(m) if clasificar_estacion(m) !is Otro => clasificar_estacion(m),
        _ => clasificar_usuario(de_usuario, hay_responder),
    }
}

/// Es mandar ese mensaje del anillo, o nada.
pub open spec fn es_envio(
    envio: Option<(EstacionId, Envio)>,
    e: Option<(EstacionId, Direccion, MensajeRing)>,
) -> bool {
    match (envio, e) {
        (Some((estacion, envio)), Some((otra, destino, mensaje))) => {
            &&& estacion == otra
            &&& envio.destino == destino
            &&& mensaje_ring(envio.mensaje) == mensaje
        },
        (None, None) => true,
        _ => false,
    }
}

/// Es pedir los alquileres a cada uno de esos destinos, en ese orden.
pub open spec fn es_pedidos(pedidos: Seq<Envio>, destinos: Seq<Direccion>, term: u64) -> bool {
    &&& pedidos.len() == destinos.len()
    &&& forall|i: int|
        0 <= i < pedidos.len() ==> (#[trigger] pedidos[i]).destino == destinos[i]
            && pedidos[i].mensaje
            == (MensajeEntreEstacionesTCP::SolicitarAlquileresAbiertos { term })
}

impl Recibido {
    /// Es lo que le toca hacer a la estación `e` con un paso de la elección.
    pub open spec fn es_ring(self, e: EstacionVista, paso: (NodoRing, AccionVista)) -> bool {
        let envio = e.envio_ring(paso.1);
        if paso.1 is AsumirYReenviar {
            &&& self is Asumir
            &&& es_envio(self->anuncio, envio)
            &&& es_pedidos(self->pedidos@, e.pedidos(), paso.0.term)
        } else if envio is Some {
            self is Enviar && es_envio(Some((self->estacion, self->envio)), envio)
        } else {
            self is Ignorar
        }
    }

    /// Es lo que la estación `e` le contesta al líder del término `term`, que le pide sus
    /// alquileres.
    pub open spec fn es_respuesta(self, e: EstacionVista, term: u64) -> bool {
        if e.responde_pedido(term) {
            &&& self is Contestar
            &&& self->mensaje is RespuestaAlquileres
            &&& alquileres_informados(self->mensaje) matches Some(lista)
            &&& es_lista_de(lista, e.propios)
        } else {
            self is Ignorar
        }
    }
}

/// Un texto que puede no estar.
spec fn texto_opcional(t: Option<String>) -> Option<Seq<char>> {
    match t {
        Some(s) => Some(s@),
        None => None,
    }
}

/// Un anillo ordenado con un solo nodo.
proof fn lemma_anillo_de_uno(anillo: Seq<EstacionId>, id: EstacionId)
    requires
        creciente(anillo),
        forall|x: EstacionId| anillo.contains(x) <==> x == id,
    ensures
        anillo == seq![id],
{
    let i = anillo.index_of(id);
    assert(anillo.contains(id));
    assert(anillo[i] == id);
    if anillo.len() > 1 {
        assert(anillo.contains(anillo[0]) && anillo.contains(anillo[1]));
        assert(anillo[0].0 < anillo[1].0);
    }
    assert(anillo.contains(anillo[0]));
    assert(anillo =~= seq![id]);
}

/// Cambiar un slot cambia una sola vista.
proof fn lemma_cambio_de_slot(antes: Seq<Slot>, despues: Seq<Slot>, i: int)
    requires
        0 <= i < antes.len(),
        despues.len() == antes.len(),
        despues == antes.update(i, despues[i]),
    ensures
        vistas(despues) == vistas(antes).update(i, despues[i]@),
{
    assert(vistas(despues) =~= vistas(antes).update(i, despues[i]@));
}

// ---------------------------------------------------------------------------
// Operaciones
// ---------------------------------------------------------------------------

/// Termina una operación rechazando el alquiler.
fn rechazar_alquiler(motivo: String) -> (paso: Paso)
    ensures
        paso.es(rechazo_alquiler(motivo@)),
{
    Paso::Terminar {
        respuesta: MensajeEstacionAUsuario::AlquilerRechazado { motivo },
        reporte: None,
    }
}

/// Termina una operación rechazando la devolución.
fn rechazar_devolucion(motivo: String) -> (paso: Paso)
    ensures
        paso.es(rechazo_devolucion(motivo@)),
{
    Paso::Terminar {
        respuesta: MensajeEstacionAUsuario::DevolucionRechazada { motivo },
        reporte: None,
    }
}

/// El motivo de un aborto.
fn texto_aborto(voto: Voto, respondio: bool) -> (motivo: String)
    ensures
        motivo@ == motivo_aborto(voto, respondio),
{
    if voto != Voto::Si {
        "el slot no tenía una bici disponible".to_string()
    } else if !respondio {
        "timeout en preparación".to_string()
    } else {
        "la pasarela rechazó el pago o no respondió".to_string()
    }
}

impl Estacion {
    /// La estación está bien formada.
    pub closed spec fn valida(self) -> bool {
        &&& forall|i: int| 0 <= i < self.slots@.len() ==> (#[trigger] self.slots@[i]).valido()
        &&& self.alquileres_propios.valido()
        &&& self.commits.valida()
        &&& match self.rol {
            RolEstacion::Lider { registro, eventos } => registro.valido() && eventos.valida(),
            RolEstacion::Follower => true,
        }
        &&& self.eleccion@.valido()
        &&& self.eleccion@.mi_id == self.id
    }

    /// Dónde está la estación.
    pub closed spec fn ubicacion_spec(self) -> (Real64, Real64) {
        self.ubicacion
    }

    /// Crea una estación con sus slots, sin alquileres, sola en su anillo. Si es el
    /// líder, `lider` es su propia dirección; si no, a dónde reportar.
    pub fn new(
        id: EstacionId,
        ubicacion: (Real64, Real64),
        slots: Vec<Slot>,
        pasarela: Direccion,
        lider: Direccion,
        es_lider: bool,
    ) -> (e: Self)
        requires
            forall|i: int| 0 <= i < slots@.len() ==> (#[trigger] slots@[i]).valido(),
        ensures
            e.valida(),
            e.ubicacion_spec() == ubicacion,
            e@ == (EstacionVista {
                id,
                slots: slots@.map_values(|s: Slot| s@),
                pasarela,
                lider,
                rol: if es_lider {
                    Some(LiderVista { registro: Map::empty(), eventos: Set::empty() })
                } else {
                    None
                },
                propios: Map::empty(),
                commits: Map::empty(),
                contador: 0,
                nodo: NodoRing {
                    mi_id: id,
                    anillo: seq![id],
                    term: 0,
                    estado: if es_lider {
                        EstadoLider::Conocido(id)
                    } else {
                        EstadoLider::Desconocido
                    },
                },
                directorio: if es_lider {
                    seq![(id, lider)]
                } else {
                    Seq::empty()
                },
            }),
    {
        let otras: Vec<EstacionId> = Vec::new();
        let mut eleccion = Eleccion::new(id, otras);
        proof {
            let anillo = eleccion@.anillo;
            assert forall|x: EstacionId| anillo.contains(x) <==> x == id by {
                assert(!otras@.contains(x));
                assert(eleccion@.anillo.contains(x) <==> otras@.contains(x) || x == id);
            }
            lemma_anillo_de_uno(anillo, id);
        }
        let mut directorio: Vec<(EstacionId, Direccion)> = Vec::new();
        if es_lider {
            eleccion = eleccion.con_lider_inicial(id);
            directorio.push((id, lider));
        }
        let rol = if es_lider {
            RolEstacion::Lider { registro: Registro::new(), eventos: Tabla::nueva() }
        } else {
            RolEstacion::Follower
        };
        let e = Estacion {
            id,
            ubicacion,
            slots,
            pasarela,
            lider,
            rol,
            alquileres_propios: Registro::new(),
            commits: Tabla::nueva(),
            contador: 0,
            eleccion,
            directorio,
        };
        proof {
            assert(e@.directorio =~= if es_lider {
                seq![(id, lider)]
            } else {
                Seq::empty()
            });
            assert(e@.commits =~= Map::<Seq<char>, Seq<char>>::empty());
            if es_lider {
                assert(e@.rol->0.eventos =~= Set::<Seq<char>>::empty());
            }
        }
        e
    }

    /// El id de la estación.
    pub fn id(&self) -> (id: EstacionId)
        ensures
            id == self@.id,
    {
        self.id
    }

    /// Dónde está.
    pub fn ubicacion(&self) -> (u: (Real64, Real64))
        ensures
            u == self.ubicacion_spec(),
    {
        self.ubicacion
    }

    /// Cuántos slots tiene.
    pub fn cantidad_slots(&self) -> (n: usize)
        ensures
            n == self@.slots.len(),
    {
        self.slots.len()
    }

    /// ¿Queda al menos un número para generar identificadores?
    pub fn puede_numerar(&self) -> (r: bool)
        ensures
            r == (self@.contador < u64::MAX),
    {
        self.contador < u64::MAX
    }

    /// El estado de un slot, si existe.
    pub fn estado_slot(&self, slot_id: u32) -> (r: Option<EstadoSlot>)
        ensures
            r is Some <==> slot_id < self@.slots.len(),
            r matches Some(e) ==> {
                &&& e.bici_id == self@.slots[slot_id as int].bici
                &&& e.ocupado == (self@.slots[slot_id as int].bici is Some)
            },
    {
        if (slot_id as usize) < self.slots.len() {
            Some(self.slots[slot_id as usize].consultar_estado())
        } else {
            None
        }
    }

    /// Cuántos alquileres activos tiene el registro del líder (0 si esta estación no
    /// es el líder).
    pub fn consultar_registro(&self) -> (n: usize)
        requires
            self.valida(),
        ensures
            self@.abiertos().finite(),
            n == self@.abiertos().len(),
    {
        match &self.rol {
            RolEstacion::Lider { registro, .. } => registro.activos(),
            RolEstacion::Follower => 0,
        }
    }

    /// El alquiler propio con ese id, si esta estación lo abrió.
    pub fn alquiler_propio(&self, rental_id: &RentalId) -> (r: Option<&Alquiler>)
        requires
            self.valida(),
        ensures
            r is Some <==> self@.propios.contains_key(rental_id@),
            r matches Some(a) ==> a@ == self@.propios[rental_id@],
    {
        self.alquileres_propios.buscar(rental_id)
    }

    /// Gasta un número para generar identificadores.
    fn proximo(&mut self) -> (n: u64)
        requires
            old(self)@.contador < u64::MAX,
        ensures
            n == old(self)@.contador + 1,
            *final(self) == (Estacion { contador: n, ..*old(self) }),
            final(self)@ == old(self)@.numerada(),
    {
        self.contador = self.contador + 1;
        self.contador
    }

    /// Reporta un alquiler recién abierto al líder. Si esta estación ES el líder, lo
    /// registra directo; si es follower, devuelve el aviso que hay que mandarle.
    fn reportar_alquiler(&mut self, alquiler: &Alquiler) -> (envio: Option<Envio>)
        requires
            old(self).valida(),
            old(self)@.contador < u64::MAX,
            alquiler.estado == EstadoAlquiler::Activo,
            alquiler.fin is None,
        ensures
            final(self).valida(),
            final(self).ubicacion_spec() == old(self).ubicacion_spec(),
            final(self)@ == (EstacionVista {
                propios: old(self)@.propios,
                ..old(self)@.con_alquiler(alquiler@)
            }),
            reporta(envio, old(self)@.reporte(alquiler@)),
    {
        let n = self.proximo();
        match &mut self.rol {
            RolEstacion::Lider { registro, .. } => {
                registro.agregar(alquiler.clone());
            },
            RolEstacion::Follower => {
                let envio = Envio {
                    destino: self.lider,
                    mensaje: MensajeEntreEstacionesTCP::AlquilerAbierto {
                        event_id: EventId(escribir_de_estacion("E-", self.id.0, n)),
                        rental_id: alquiler.rental_id.clone(),
                        bici_id: alquiler.bici_id,
                        usuario_id: alquiler.usuario_id.clone(),
                        estacion_origen: alquiler.estacion_origen,
                        t0: alquiler.inicio,
                        preauth_id: alquiler.preauth_id.clone(),
                    },
                };
                return Some(envio);
            },
        }
        None
    }

    /// Un pedido de usuario. Si es un alquiler, empieza el 2PC: el slot vota y hay que
    /// pedirle el voto a la pasarela. Si es una devolución, el slot la acepta o no.
    pub fn solicitud_usuario(&mut self, solicitud: SolicitudUsuario) -> (paso: Paso)
        requires
            old(self).valida(),
            old(self)@.contador < u64::MAX,
        ensures
            final(self).valida(),
            final(self).ubicacion_spec() == old(self).ubicacion_spec(),
            paso.es(old(self)@.paso_inicial(solicitud.0@)),
            final(self)@ == old(self)@.tras_solicitud(solicitud.0@),
    {
        let n = self.proximo();
        match solicitud.0 {
            MensajeUsuarioAEstacion::SolicitudAlquiler { usuario_id, slot_id, tarjeta } => {
                if slot_id as usize >= self.slots.len() {
                    return rechazar_alquiler(
                        escribir_numerado("no existe el slot ", slot_id as u64),
                    );
                }
                let tx_id = TransaccionId(escribir_de_estacion("T-", self.id.0, n));
                let rental_id = RentalId(escribir_de_estacion("R-", self.id.0, n));
                // --- FASE PREPARE ---
                let ghost slots = self.slots@;
                let voto = self.slots[slot_id as usize].prepare_liberacion(
                    PrepareLiberacion { tx_id: tx_id.clone() },
                );
                proof {
                    lemma_cambio_de_slot(slots, self.slots@, slot_id as int);
                }
                let pedido = MensajeEstacionAPasarela::PreparePreauth {
                    tx_id: tx_id.clone(),
                    usuario_id: usuario_id.clone(),
                    tarjeta,
                    monto_propuesto: Real64 { bits: MONTO_RESERVA },
                };
                Paso::Consultar {
                    destino: self.pasarela,
                    pedido,
                    operacion: Operacion::EsperaVoto {
                        tx_id,
                        rental_id,
                        usuario_id,
                        slot_id,
                        voto,
                    },
                }
            },
            MensajeUsuarioAEstacion::SolicitudDevolucion { bici_id, slot_id, .. } => {
                if slot_id as usize >= self.slots.len() {
                    return rechazar_devolucion(
                        escribir_numerado("no existe el slot ", slot_id as u64),
                    );
                }
                let ghost slots = self.slots@;
                let asegurada = self.slots[slot_id as usize].aceptar_bici(AceptarBici { bici_id });
                proof {
                    lemma_cambio_de_slot(slots, self.slots@, slot_id as int);
                }
                if asegurada {
                    Paso::Terminar {
                        respuesta: MensajeEstacionAUsuario::DevolucionAceptada { bici_id },
                        reporte: None,
                    }
                } else {
                    let mut motivo = escribir_numerado("el slot ", slot_id as u64);
                    motivo.append(" está ocupado");
                    rechazar_devolucion(motivo)
                }
            },
        }
    }

    /// Fase de decisión: con los dos votos, commitea o aborta el slot y dice qué
    /// pedirle a la pasarela.
    fn decidir(
        &mut self,
        tx_id: TransaccionId,
        rental_id: RentalId,
        usuario_id: UsuarioId,
        slot_id: u32,
        voto: Voto,
        preauth: Option<String>,
        respondio: bool,
    ) -> (paso: Paso)
        requires
            old(self).valida(),
            slot_id < old(self)@.slots.len(),
        ensures
            final(self).valida(),
            final(self).ubicacion_spec() == old(self).ubicacion_spec(),
            paso.es(
                old(self)@.paso_decision(
                    tx_id@,
                    rental_id@,
                    usuario_id@,
                    slot_id,
                    voto,
                    texto_opcional(preauth),
                    respondio,
                ),
            ),
            final(self)@ == old(self)@.tras_decision(
                tx_id@,
                slot_id,
                voto,
                texto_opcional(preauth),
            ),
    {
        let ghost antes = self@;
        let ghost slots = self.slots@;
        match preauth {
            Some(preauth_id) => {
                if voto != Voto::Si {
                    return Paso::Consultar {
                        destino: self.pasarela,
                        pedido: MensajeEstacionAPasarela::AbortPreauth { tx_id, preauth_id },
                        operacion: Operacion::EsperaAbort { motivo: texto_aborto(voto, true) },
                    };
                }
                let entregada = self.slots[slot_id as usize].commit_liberacion(
                    CommitLiberacion { tx_id: tx_id.clone() },
                );
                proof {
                    lemma_cambio_de_slot(slots, self.slots@, slot_id as int);
                }
                match entregada {
                    Some(bici_id) => {
                        // La constancia queda antes de pedirle el Commit a la pasarela.
                        self.registrar_commit_pendiente(
                            RegistrarCommitPendiente {
                                tx_id: tx_id.clone(),
                                preauth_id: preauth_id.clone(),
                            },
                        );
                        Paso::Consultar {
                            destino: self.pasarela,
                            pedido: MensajeEstacionAPasarela::CommitPreauth {
                                tx_id: tx_id.clone(),
                                preauth_id: preauth_id.clone(),
                            },
                            operacion: Operacion::EsperaCommit {
                                tx_id,
                                rental_id,
                                usuario_id,
                                preauth_id,
                                bici_id,
                            },
                        }
                    },
                    None => {
                        // Sin bici no hay alquiler: la pasarela también aborta.
                        proof {
                            ley_vista_valida(slots[slot_id as int]);
                            assert(self@.slots =~= antes.slots);
                        }
                        Paso::Consultar {
                            destino: self.pasarela,
                            pedido: MensajeEstacionAPasarela::AbortPreauth { tx_id, preauth_id },
                            operacion: Operacion::EsperaAbort {
                                motivo: "el slot no liberó la bici".to_string(),
                            },
                        }
                    },
                }
            },
            None => {
                if voto == Voto::Si {
                    self.slots[slot_id as usize].abort_liberacion(AbortLiberacion { tx_id });
                    proof {
                        lemma_cambio_de_slot(slots, self.slots@, slot_id as int);
                    }
                }
                rechazar_alquiler(texto_aborto(voto, respondio))
            },
        }
    }

    /// Cierra una operación commiteada: abre el alquiler y le contesta al usuario.
    fn abrir(
        &mut self,
        rental_id: RentalId,
        usuario_id: UsuarioId,
        preauth_id: String,
        bici_id: BiciId,
        ahora: Timestamp,
    ) -> (paso: Paso)
        requires
            old(self).valida(),
            old(self)@.contador < u64::MAX,
        ensures
            final(self).valida(),
            final(self).ubicacion_spec() == old(self).ubicacion_spec(),
            ({
                let a = old(self)@.alquiler_abierto(
                    rental_id@,
                    usuario_id@,
                    preauth_id@,
                    bici_id,
                    ahora,
                );
                &&& final(self)@ == old(self)@.con_alquiler(a)
                &&& paso.es(
                    PasoVista::Terminar {
                        respuesta: ContestacionVista::AlquilerConfirmado {
                            rental_id: rental_id@,
                            bici_id,
                            preauth_id: preauth_id@,
                        },
                        reporte: old(self)@.reporte(a),
                    },
                )
            }),
    {
        let ghost antes = self@;
        let alquiler = Alquiler {
            rental_id: rental_id.clone(),
            bici_id,
            usuario_id,
            estacion_origen: self.id,
            inicio: ahora,
            fin: None,
            preauth_id: preauth_id.clone(),
            estado: EstadoAlquiler::Activo,
        };
        let reporte = self.reportar_alquiler(&alquiler);
        self.alquileres_propios.agregar(alquiler);
        Paso::Terminar {
            respuesta: MensajeEstacionAUsuario::AlquilerConfirmado {
                rental_id,
                bici_id,
                preauth_id,
            },
            reporte,
        }
    }

    /// Sigue una operación con lo que contestó la pasarela, o con `None` si no
    /// respondió. `ahora` es el instante en que se entrega la bici.
    pub fn respuesta_pasarela(
        &mut self,
        operacion: Operacion,
        respuesta: Option<MensajePasarelaAEstacion>,
        ahora: Timestamp,
    ) -> (paso: Paso)
        requires
            old(self).valida(),
            old(self)@.admite(operacion@),
            operacion@.abre_alquiler() ==> old(self)@.contador < u64::MAX,
        ensures
            final(self).valida(),
            final(self).ubicacion_spec() == old(self).ubicacion_spec(),
            paso.es(
                old(self)@.paso_siguiente(operacion@, vista_de_respuesta(respuesta), ahora),
            ),
            final(self)@ == old(self)@.tras_respuesta(
                operacion@,
                vista_de_respuesta(respuesta),
                ahora,
            ),
    {
        match operacion {
            Operacion::EsperaVoto { tx_id, rental_id, usuario_id, slot_id, voto } => {
                let respondio = respuesta.is_some();
                let preauth = match respuesta {
                    Some(
                        MensajePasarelaAEstacion::Voto {
                            resultado: VotoResultado::Yes,
                            preauth_id: Some(id),
                            ..
                        },
                    ) => Some(id),
                    _ => None,
                };
                self.decidir(tx_id, rental_id, usuario_id, slot_id, voto, preauth, respondio)
            },
            Operacion::EsperaCommit { tx_id, rental_id, usuario_id, preauth_id, bici_id } => {
                if let Some(MensajePasarelaAEstacion::PreauthConfirmada { preauth_id: id }) =
                    respuesta {
                    if id == preauth_id {
                        self.commit_confirmado(CommitConfirmado { tx_id });
                    }
                }
                self.abrir(rental_id, usuario_id, preauth_id, bici_id, ahora)
            },
            Operacion::EsperaAbort { motivo } => rechazar_alquiler(motivo),
        }
    }

    /// El 2PC decidió COMMIT: deja constancia de la transacción.
    pub fn registrar_commit_pendiente(&mut self, msg: RegistrarCommitPendiente)
        requires
            old(self).valida(),
        ensures
            final(self).valida(),
            final(self).ubicacion_spec() == old(self).ubicacion_spec(),
            final(self)@ == (EstacionVista {
                commits: old(self)@.commits.insert(msg.tx_id@, msg.preauth_id@),
                ..old(self)@
            }),
    {
        let ghost antes = self@.commits;
        let ghost id = msg.preauth_id@;
        self.commits.poner(msg.tx_id.0, msg.preauth_id);
        assert(self@.commits =~= antes.insert(msg.tx_id@, id));
    }

    /// La pasarela confirmó el Commit: borra la constancia.
    pub fn commit_confirmado(&mut self, msg: CommitConfirmado)
        requires
            old(self).valida(),
        ensures
            final(self).valida(),
            final(self).ubicacion_spec() == old(self).ubicacion_spec(),
            final(self)@ == (EstacionVista {
                commits: old(self)@.commits.remove(msg.tx_id@),
                ..old(self)@
            }),
    {
        let ghost antes = self@.commits;
        self.commits.quitar(&msg.tx_id.0);
        assert(self@.commits =~= antes.remove(msg.tx_id@));
    }

    /// Los commits decididos que siguen sin confirmación de la pasarela, para
    /// completarlos.
    pub fn commits_pendientes(&self) -> (v: Vec<RegistrarCommitPendiente>)
        requires
            self.valida(),
        ensures
            v@.len() == self@.commits.dom().len(),
            forall|i: int|
                0 <= i < v@.len() ==> self@.commits.contains_key((#[trigger] v@[i]).tx_id@)
                    && self@.commits[v@[i].tx_id@] == v@[i].preauth_id@,
            forall|tx: Seq<char>| #[trigger]
                self@.commits.contains_key(tx) ==> exists|i: int|
                    0 <= i < v@.len() && (#[trigger] v@[i]).tx_id@ == tx,
    {
        let ghost pares = self.commits.pares();
        proof {
            self.commits.lemma_pares();
            assert(self@.commits.dom() =~= self.commits@.dom());
        }
        let n = self.commits.largo();
        let mut v: Vec<RegistrarCommitPendiente> = Vec::new();
        let mut i: usize = 0;
        while i < n
            invariant
                i <= n,
                n == pares.len(),
                pares == self.commits.pares(),
                v@.len() == i,
                forall|j: int|
                    0 <= j < i ==> (#[trigger] v@[j]).tx_id@ == pares[j].0 && v@[j].preauth_id@
                        == pares[j].1@,
            decreases n - i,
        {
            v.push(
                RegistrarCommitPendiente {
                    tx_id: TransaccionId(self.commits.clave(i).clone()),
                    preauth_id: self.commits.valor(i).clone(),
                },
            );
            i += 1;
        }
        proof {
            assert forall|j: int| 0 <= j < v@.len() implies self@.commits.contains_key(
                (#[trigger] v@[j]).tx_id@,
            ) && self@.commits[v@[j].tx_id@] == v@[j].preauth_id@ by {
                assert(self.commits@.contains_key(pares[j].0));
            }
            assert forall|tx: Seq<char>| #[trigger] self@.commits.contains_key(tx) implies exists|
                j: int,
            | 0 <= j < v@.len() && (#[trigger] v@[j]).tx_id@ == tx by {
                assert(self.commits@.contains_key(tx));
                let j = choose|j: int|
                    0 <= j < pares.len() && (#[trigger] pares[j]).0 == tx && pares[j].1
                        == self.commits@[tx];
                assert(v@[j].tx_id@ == tx);
            }
        }
        v
    }

    /// Cuántos commits decididos siguen sin confirmación de la pasarela.
    pub fn consultar_commits_pendientes(&self) -> (n: usize)
        requires
            self.valida(),
        ensures
            n == self@.commits.dom().len(),
    {
        assert(self@.commits.dom() =~= self.commits@.dom());
        self.commits.largo()
    }

    /// Procesa el aviso de un alquiler que abrió otra estación: si esta es el líder, lo
    /// incorpora al registro, salvo que el evento ya se haya procesado, y devuelve el
    /// acuse. Un follower no hace nada.
    fn procesar_aviso(&mut self, event_id: EventId, alquiler: Alquiler) -> (r: Recibido)
        requires
            old(self).valida(),
        ensures
            final(self).valida(),
            final(self).ubicacion_spec() == old(self).ubicacion_spec(),
            final(self)@ == old(self)@.tras_aviso(event_id@, alquiler@),
            old(self)@.rol is None ==> r is Ignorar,
            old(self)@.rol is Some ==> r is Contestar && acuse(r->mensaje) == Some(event_id@),
    {
        let ghost antes = self@;
        match &mut self.rol {
            RolEstacion::Lider { registro, eventos } => {
                if !eventos.contiene(&event_id.0) {
                    registro.agregar(alquiler);
                    eventos.poner(event_id.0.clone(), true);
                }
            },
            RolEstacion::Follower => {
                return Recibido::Ignorar;
            },
        }
        assert(self@.rol->0.eventos =~= antes.tras_aviso(event_id@, alquiler@).rol->0.eventos);
        Recibido::Contestar { mensaje: MensajeEntreEstacionesTCP::EventoProcesadoAck { event_id } }
    }

    /// Ubica a la estación en el anillo de todas, con el líder designado. El término es 0.
    pub fn con_anillo(self, lider: EstacionId, estaciones: Vec<(EstacionId, Direccion)>) -> (e:
        Self)
        requires
            self.valida(),
        ensures
            e.valida(),
            e.ubicacion_spec() == self.ubicacion_spec(),
            e@ == (EstacionVista {
                nodo: e@.nodo,
                directorio: estaciones@,
                ..self@
            }).con_lider(lider),
            e@.nodo.valido(),
            e@.nodo.mi_id == self@.id,
            forall|x: EstacionId|
                e@.nodo.anillo.contains(x) <==> x == self@.id || ids_de(estaciones@).contains(x),
            e@.nodo.term == 0,
            e@.nodo.estado == EstadoLider::Conocido(lider),
    {
        let ids = ids(&estaciones);
        let mut e = self;
        e.eleccion = Eleccion::new(e.id, ids).con_lider_inicial(lider);
        e.directorio = estaciones;
        e.adoptar_lider(lider);
        e
    }

    /// Dónde escucha una estación, si está en el directorio.
    fn direccion_de(&self, id: EstacionId) -> (r: Option<Direccion>)
        ensures
            r == self@.direccion_de(id),
    {
        let mut i: usize = 0;
        while i < self.directorio.len()
            invariant
                i <= self.directorio@.len(),
                direccion_desde(self.directorio@, id, 0) == direccion_desde(
                    self.directorio@,
                    id,
                    i as int,
                ),
            decreases self.directorio@.len() - i,
        {
            if self.directorio[i].0 == id {
                return Some(self.directorio[i].1);
            }
            i += 1;
        }
        None
    }

    /// Toma el rol que le toca con ese líder.
    fn adoptar_lider(&mut self, lider: EstacionId)
        requires
            old(self).valida(),
        ensures
            final(self).valida(),
            final(self).ubicacion_spec() == old(self).ubicacion_spec(),
            final(self)@ == old(self)@.con_lider(lider),
    {
        let ghost antes = self@;
        if let Some(d) = self.direccion_de(lider) {
            self.lider = d;
        }
        if lider != self.id {
            self.rol = RolEstacion::Follower;
        } else if let RolEstacion::Follower = self.rol {
            self.rol =
            RolEstacion::Lider {
                registro: self.alquileres_propios.copia(),
                eventos: Tabla::nueva(),
            };
            assert(self@.rol->0.eventos =~= Set::<Seq<char>>::empty());
        }
    }

    /// El mensaje del anillo para una estación, si está en el directorio.
    fn envio_para(&self, estacion: EstacionId, mensaje: MensajeEntreEstacionesTCP) -> (r: Option<
        (EstacionId, Envio),
    >)
        ensures
            es_envio(
                r,
                self@.envio_ring(
                    AccionVista::Reenviar { destino: estacion, mensaje: mensaje_ring(mensaje) },
                ),
            ),
    {
        match self.direccion_de(estacion) {
            Some(destino) => Some((estacion, Envio { destino, mensaje })),
            None => None,
        }
    }

    /// Los pedidos de sus alquileres a todas las demás estaciones del anillo.
    fn pedir_alquileres(&self) -> (pedidos: Vec<Envio>)
        ensures
            es_pedidos(pedidos@, self@.pedidos(), self@.nodo.term),
    {
        let anillo = self.eleccion.anillo();
        let term = self.eleccion.term();
        let mut pedidos: Vec<Envio> = Vec::new();
        let mut i: usize = 0;
        while i < anillo.len()
            invariant
                i <= anillo@.len(),
                anillo@ == self@.nodo.anillo,
                term == self@.nodo.term,
                es_pedidos(
                    pedidos@,
                    destinos_pedido(self@.directorio, anillo@, self@.id, i as nat),
                    term,
                ),
            decreases anillo@.len() - i,
        {
            let estacion = anillo[i];
            if estacion != self.id {
                if let Some(destino) = self.direccion_de(estacion) {
                    pedidos.push(
                        Envio {
                            destino,
                            mensaje: MensajeEntreEstacionesTCP::SolicitarAlquileresAbiertos {
                                term,
                            },
                        },
                    );
                }
            }
            i += 1;
        }
        pedidos
    }

    /// Ejecuta lo que pide la elección: toma el rol que corresponda y resuelve a qué
    /// dirección va el mensaje, si hay uno. Si asume, pide los alquileres de las demás.
    fn tras_eleccion(&mut self, accion: AccionRing) -> (r: Recibido)
        requires
            old(self).valida(),
        ensures
            final(self).valida(),
            final(self).ubicacion_spec() == old(self).ubicacion_spec(),
            final(self)@ == old(self)@.con_nodo(old(self)@.nodo),
            r.es_ring(old(self)@, (old(self)@.nodo, accion@)),
    {
        if let EstadoLider::Conocido(lider) = self.eleccion.lider_conocido() {
            self.adoptar_lider(lider);
        }
        match accion {
            AccionRing::Ignorar => Recibido::Ignorar,
            AccionRing::Reenviar { destino, mensaje } => match self.envio_para(destino, mensaje) {
                Some((estacion, envio)) => Recibido::Enviar { estacion, envio },
                None => Recibido::Ignorar,
            },
            AccionRing::AsumirYReenviar { destino, mensaje } => {
                let anuncio = match destino {
                    Some(destino) => self.envio_para(destino, mensaje),
                    None => None,
                };
                Recibido::Asumir { anuncio, pedidos: self.pedir_alquileres() }
            },
        }
    }

    /// Un líder pide los alquileres propios. Un follower se los manda; el líder de un
    /// término anterior, también, y deja de serlo.
    fn responder_pedido(&mut self, term: u64) -> (r: Recibido)
        requires
            old(self).valida(),
        ensures
            final(self).valida(),
            final(self).ubicacion_spec() == old(self).ubicacion_spec(),
            final(self)@ == old(self)@.tras_pedido(term),
            r.es_respuesta(old(self)@, term),
    {
        if let RolEstacion::Lider { .. } = self.rol {
            if term <= self.eleccion.term() {
                return Recibido::Ignorar;
            }
            self.rol = RolEstacion::Follower;
            self.eleccion.adelantar_term(term);
        }
        Recibido::Contestar {
            mensaje: MensajeEntreEstacionesTCP::RespuestaAlquileres {
                alquileres: self.alquileres_propios.listar(),
            },
        }
    }

    /// Llegaron los alquileres propios de otra estación: si esta es el líder, los
    /// incorpora al registro.
    fn incorporar(&mut self, alquileres: Vec<Alquiler>) -> (r: Recibido)
        requires
            old(self).valida(),
        ensures
            final(self).valida(),
            final(self).ubicacion_spec() == old(self).ubicacion_spec(),
            final(self)@ == old(self)@.tras_alquileres(vistas_de(alquileres@)),
            r is Ignorar,
    {
        if let RolEstacion::Lider { registro, .. } = &mut self.rol {
            registro.consolidar(alquileres);
        }
        Recibido::Ignorar
    }

    /// Los alquileres que abrió esta estación, para guardarlos.
    pub fn alquileres_propios(&self) -> (lista: Vec<Alquiler>)
        requires
            self.valida(),
        ensures
            es_lista_de(vistas_de(lista@), self@.propios),
    {
        self.alquileres_propios.listar()
    }

    /// Recupera un alquiler que esta estación había abierto antes de una caída. Si es el
    /// líder, queda también en el registro.
    pub fn recuperar_alquiler(&mut self, alquiler: Alquiler)
        requires
            old(self).valida(),
        ensures
            final(self).valida(),
            final(self).ubicacion_spec() == old(self).ubicacion_spec(),
            final(self)@ == old(self)@.con_recuperado(alquiler@),
    {
        if let RolEstacion::Lider { registro, .. } = &mut self.rol {
            registro.agregar(alquiler.clone());
        }
        self.alquileres_propios.agregar(alquiler);
    }

    /// Lo que una estación que vuelve de una caída le manda al líder: sus alquileres
    /// propios. Nada, si es ella misma o si no sabe quién es.
    pub fn ingreso_tardio(&self) -> (r: Option<Envio>)
        requires
            self.valida(),
        ensures
            match self@.destino_ingreso() {
                Some(destino) => {
                    &&& r is Some
                    &&& r->0.destino == destino
                    &&& r->0.mensaje is IngresoTardio
                    &&& alquileres_informados(r->0.mensaje) matches Some(lista)
                    &&& es_lista_de(lista, self@.propios)
                },
                None => r is None,
            },
    {
        let lider = match self.eleccion.lider_conocido() {
            EstadoLider::Conocido(lider) => lider,
            _ => {
                return None;
            },
        };
        if lider == self.id {
            return None;
        }
        match self.direccion_de(lider) {
            Some(destino) => Some(
                Envio {
                    destino,
                    mensaje: MensajeEntreEstacionesTCP::IngresoTardio {
                        alquileres: self.alquileres_propios.listar(),
                    },
                },
            ),
            None => None,
        }
    }

    /// El líder no responde: arranca una elección.
    pub fn lider_no_responde(&mut self) -> (r: Recibido)
        requires
            old(self).valida(),
            old(self)@.nodo.anillo.len() < 2 ==> old(self)@.nodo.term < u64::MAX,
        ensures
            final(self).valida(),
            final(self).ubicacion_spec() == old(self).ubicacion_spec(),
            final(self)@ == old(self)@.con_nodo(old(self)@.nodo.iniciar().0),
            r.es_ring(old(self)@, old(self)@.nodo.iniciar()),
    {
        let accion = self.eleccion.iniciar();
        self.tras_eleccion(accion)
    }

    /// A `estacion` no se le pudo entregar un mensaje de la elección: se la saltea.
    pub fn no_entregado(&mut self, estacion: EstacionId, mensaje: MensajeEntreEstacionesTCP) -> (r:
        Recibido)
        requires
            old(self).valida(),
            mensaje_ring(mensaje) matches MensajeRing::Election { iniciador, .. } ==> iniciador
                == old(self)@.id ==> old(self)@.nodo.term < u64::MAX,
        ensures
            final(self).valida(),
            final(self).ubicacion_spec() == old(self).ubicacion_spec(),
            final(self)@ == old(self)@.con_nodo(
                old(self)@.nodo.saltear(estacion, mensaje_ring(mensaje)).0,
            ),
            r.es_ring(old(self)@, old(self)@.nodo.saltear(estacion, mensaje_ring(mensaje))),
    {
        let accion = self.eleccion.saltear(estacion, mensaje);
        self.tras_eleccion(accion)
    }

    /// A quién reconoce como líder, en qué término, y si es ella misma.
    pub fn consultar_lider(&self) -> (info: InfoLider)
        requires
            self.valida(),
        ensures
            info.lider_id == match self@.nodo.estado {
                EstadoLider::Conocido(lider) => Some(lider),
                _ => None,
            },
            info.term == self@.nodo.term,
            info.soy_lider == (self@.nodo.estado == EstadoLider::Conocido(self@.id)),
            info == self@.nodo.informe(),
    {
        self.eleccion.consultar_lider()
    }

    /// Lo que se le contesta a quien pregunta por el líder.
    pub fn responder_discovery(&self) -> (r: MensajeEstacionAUsuarioConsulta)
        ensures
            r == self@.discovery(),
    {
        match self.eleccion.lider_conocido() {
            EstadoLider::Conocido(lider_id) => match self.direccion_de(lider_id) {
                Some(lider_addr) => MensajeEstacionAUsuarioConsulta::RespuestaLider {
                    lider_id,
                    lider_addr,
                    term: self.eleccion.term(),
                },
                None => MensajeEstacionAUsuarioConsulta::LiderDesconocido,
            },
            EstadoLider::EnEleccion => MensajeEstacionAUsuarioConsulta::EnEleccion,
            EstadoLider::Desconocido => MensajeEstacionAUsuarioConsulta::LiderDesconocido,
        }
    }

    /// El último número que gastó para generar identificadores.
    pub fn numeracion(&self) -> (n: u64)
        ensures
            n == self@.contador,
    {
        self.contador
    }

    /// Da por gastados los números hasta `n`. Una estación que vuelve de una caída sigue
    /// desde donde estaba, y no repite identificadores.
    pub fn numerar_desde(&mut self, n: u64)
        requires
            old(self).valida(),
        ensures
            final(self).valida(),
            final(self).ubicacion_spec() == old(self).ubicacion_spec(),
            final(self)@ == (EstacionVista {
                contador: if n > old(self)@.contador {
                    n as nat
                } else {
                    old(self)@.contador
                },
                ..old(self)@
            }),
            final(self)@ == old(self)@.numerada_desde(n as nat),
    {
        if n > self.contador {
            self.contador = n;
        }
    }

    /// Un paquete de la red, ya leído como mensaje de otra estación o de un usuario. El
    /// aviso de un alquiler abierto se procesa; al líder que pide los alquileres propios
    /// se le contesta, y los de otra estación se incorporan al registro; un mensaje de la
    /// elección sigue su curso; a un usuario que pregunta por el líder se le contesta; una
    /// operación de usuario a la que se puede contestar empieza; cualquier otra cosa se
    /// ignora.
    pub fn paquete_recibido(
        &mut self,
        entre_estaciones: Option<MensajeEntreEstacionesTCP>,
        de_usuario: Option<MensajeUsuario>,
        hay_responder: bool,
    ) -> (r: Recibido)
        requires
            old(self).valida(),
            match clasificar(entre_estaciones, de_usuario, hay_responder) {
                PaqueteVista::Operacion { .. } => old(self)@.contador < u64::MAX,
                PaqueteVista::Ring { mensaje: MensajeRing::Election { iniciador, .. } } => iniciador
                    == old(self)@.id ==> old(self)@.nodo.term < u64::MAX,
                _ => true,
            },
        ensures
            final(self).valida(),
            final(self).ubicacion_spec() == old(self).ubicacion_spec(),
            match clasificar(entre_estaciones, de_usuario, hay_responder) {
                PaqueteVista::Aviso { event_id, alquiler } => {
                    &&& final(self)@ == old(self)@.tras_aviso(event_id, alquiler)
                    &&& old(self)@.rol is None ==> r is Ignorar
                    &&& old(self)@.rol is Some ==> r is Contestar && acuse(r->mensaje) == Some(
                        event_id,
                    )
                },
                PaqueteVista::Pedido { term } => {
                    &&& final(self)@ == old(self)@.tras_pedido(term)
                    &&& r.es_respuesta(old(self)@, term)
                },
                PaqueteVista::Alquileres { alquileres } => {
                    &&& final(self)@ == old(self)@.tras_alquileres(alquileres)
                    &&& r is Ignorar
                },
                PaqueteVista::Ring { mensaje } => {
                    &&& final(self)@ == old(self)@.con_nodo(old(self)@.nodo.recibir(mensaje).0)
                    &&& r.es_ring(old(self)@, old(self)@.nodo.recibir(mensaje))
                },
                PaqueteVista::Operacion { solicitud } => {
                    &&& final(self)@ == old(self)@.tras_solicitud(solicitud)
                    &&& r is Operar
                    &&& r->paso.es(old(self)@.paso_inicial(solicitud))
                },
                PaqueteVista::Discovery => {
                    &&& final(self)@ == old(self)@
                    &&& r == (Recibido::Informar { respuesta: old(self)@.discovery() })
                },
                PaqueteVista::Otro => final(self)@ == old(self)@ && r is Ignorar,
            },
    {
        match entre_estaciones {
            Some(
                MensajeEntreEstacionesTCP::AlquilerAbierto {
                    event_id,
                    rental_id,
                    bici_id,
                    usuario_id,
                    estacion_origen,
                    t0,
                    preauth_id,
                },
            ) => {
                return self.procesar_aviso(
                    event_id,
                    Alquiler {
                        rental_id,
                        bici_id,
                        usuario_id,
                        estacion_origen,
                        inicio: t0,
                        fin: None,
                        preauth_id,
                        estado: EstadoAlquiler::Activo,
                    },
                );
            },
            Some(MensajeEntreEstacionesTCP::SolicitarAlquileresAbiertos { term }) => {
                return self.responder_pedido(term);
            },
            Some(MensajeEntreEstacionesTCP::RespuestaAlquileres { alquileres }) => {
                return self.incorporar(alquileres);
            },
            Some(MensajeEntreEstacionesTCP::IngresoTardio { alquileres }) => {
                return self.incorporar(alquileres);
            },
            Some(MensajeEntreEstacionesTCP::Election { ids, iniciador }) => {
                let accion = self.eleccion.recibir_election(ids, iniciador);
                return self.tras_eleccion(accion);
            },
            Some(MensajeEntreEstacionesTCP::Coordinator { lider, term }) => {
                let accion = self.eleccion.recibir_coordinator(lider, term);
                return self.tras_eleccion(accion);
            },
            _ => {},
        }
        if !hay_responder {
            return Recibido::Ignorar;
        }
        match de_usuario {
            Some(MensajeUsuario::Operacion(operacion)) => Recibido::Operar {
                paso: self.solicitud_usuario(SolicitudUsuario(operacion)),
            },
            Some(MensajeUsuario::Consulta(MensajeUsuarioAEstacionConsulta::PreguntarLider)) => {
                Recibido::Informar { respuesta: self.responder_discovery() }
            },
            _ => Recibido::Ignorar,
        }
    }
}

/// Los ids de un directorio, en orden.
pub open spec fn ids_de(directorio: Seq<(EstacionId, Direccion)>) -> Seq<EstacionId> {
    directorio.map_values(|e: (EstacionId, Direccion)| e.0)
}

/// Los ids de un directorio, en orden.
fn ids(directorio: &Vec<(EstacionId, Direccion)>) -> (v: Vec<EstacionId>)
    ensures
        v@ == ids_de(directorio@),
{
    let mut v: Vec<EstacionId> = Vec::new();
    let mut i: usize = 0;
    while i < directorio.len()
        invariant
            i <= directorio@.len(),
            v@ == ids_de(directorio@.take(i as int)),
        decreases directorio@.len() - i,
    {
        v.push(directorio[i].0);
        i += 1;
        assert(v@ =~= ids_de(directorio@.take(i as int)));
    }
    assert(directorio@.take(i as int) =~= directorio@);
    v
}

/// Los slots de una estación bien formada cumplen su invariante.
pub proof fn ley_slots_validos(e: Estacion)
    requires
        e.valida(),
    ensures
        forall|i: int| 0 <= i < e@.slots.len() ==> (#[trigger] e@.slots[i]).valido(),
{
    assert forall|i: int| 0 <= i < e@.slots.len() implies (#[trigger] e@.slots[i]).valido() by {
        assert(e.slots@[i].valido());
        ley_vista_valida(e.slots@[i]);
    }
}

} // verus!
