//! Estación ↔ Estación. TCP para lo crítico (eventos al líder, anillo de
//! elección), UDP para el estado agregado periódico.

use vstd::prelude::*;

use crate::comun::dominio::Alquiler;
#[allow(unused_imports)]
use crate::comun::dominio::{vistas_de, AlquilerVista, EstadoAlquiler};
use crate::comun::ids::{BiciId, EstacionId, EventId, RentalId, UsuarioId};
use crate::comun::numeros::Real64;
use crate::comun::tiempo::Timestamp;

verus! {

#[derive(Debug, Clone, PartialEq, Eq)]
pub enum MensajeEntreEstacionesTCP {
    // --- Eventos hacia el líder ---
    AlquilerAbierto {
        event_id: EventId,
        rental_id: RentalId,
        bici_id: BiciId,
        usuario_id: UsuarioId,
        estacion_origen: EstacionId,
        t0: Timestamp,
        preauth_id: String,
    },
    NotificarDevolucion {
        event_id: EventId,
        bici_id: BiciId,
        estacion_destino: EstacionId,
        t1: Timestamp,
    },
    DevolucionProcesada {
        event_id: EventId,
        rental_id: RentalId,
        monto_cobrado: Real64,
        tiempo_uso_minutos: u32,
    },
    CierreAlquiler { rental_id: RentalId, t1: Timestamp, monto_cobrado: Real64 },
    EventoProcesadoAck { event_id: EventId },
    // --- Reconstrucción del registro tras una elección ---
    SolicitarAlquileresAbiertos { term: u64 },
    RespuestaAlquileres { alquileres: Vec<Alquiler> },
    IngresoTardio { alquileres: Vec<Alquiler> },
    // --- Manejo de bicis huérfanas ---
    BuscarAlquilerPropio { event_id: EventId, bici_id: BiciId },
    AlquilerEncontrado { event_id: EventId, alquiler: Alquiler },
    NoLoTengo { event_id: EventId, bici_id: BiciId },
    AlquilerNoEncontrado { bici_id: BiciId },
    ReprocesarDevolucion { bici_id: BiciId },
    BiciHuerfanaConfirmada { bici_id: BiciId },
    // --- Anillo de elección de líder ---
    Election { ids: Vec<EstacionId>, iniciador: EstacionId },
    Coordinator { lider: EstacionId, term: u64 },
}

#[derive(Debug, Clone, Copy, PartialEq, Eq)]
pub enum MensajeEntreEstacionesUDP {
    EstadoEstacion {
        estacion_id: EstacionId,
        ubicacion: (Real64, Real64),
        bicis_disponibles: u32,
        slots_libres: u32,
        timestamp: Timestamp,
    },
}

/// El aviso de un alquiler abierto: el id del evento y el alquiler, abierto y sin
/// fin. Nada, si el mensaje es otro.
pub open spec fn aviso_de_apertura(m: MensajeEntreEstacionesTCP) -> Option<
    (Seq<char>, AlquilerVista),
> {
    match m {
        MensajeEntreEstacionesTCP::AlquilerAbierto {
            event_id,
            rental_id,
            bici_id,
            usuario_id,
            estacion_origen,
            t0,
            preauth_id,
        } => Some(
            (
                event_id@,
                AlquilerVista {
                    rental_id: rental_id@,
                    bici_id,
                    usuario_id: usuario_id@,
                    estacion_origen,
                    inicio: t0,
                    fin: None,
                    preauth_id: preauth_id@,
                    estado: EstadoAlquiler::Activo,
                },
            ),
        ),
        _ => None,
    }
}

/// Los alquileres que una estación le informa al líder. Nada, si el mensaje es otro.
pub open spec fn alquileres_informados(m: MensajeEntreEstacionesTCP) -> Option<
    Seq<AlquilerVista>,
> {
    match m {
        MensajeEntreEstacionesTCP::RespuestaAlquileres { alquileres } => Some(
            vistas_de(alquileres@),
        ),
        MensajeEntreEstacionesTCP::IngresoTardio { alquileres } => Some(vistas_de(alquileres@)),
        _ => None,
    }
}

/// El evento que confirma un acuse. Nada, si el mensaje es otro.
pub open spec fn acuse(m: MensajeEntreEstacionesTCP) -> Option<Seq<char>> {
    match m {
        MensajeEntreEstacionesTCP::EventoProcesadoAck { event_id } => Some(event_id@),
        _ => None,
    }
}

/// Lo que avisa un mensaje de apertura: el alquiler con los datos que trae, abierto y sin
/// fin, bajo el id de su evento.
pub proof fn ley_lo_que_avisa(m: MensajeEntreEstacionesTCP)
    ensures
        aviso_de_apertura(m) is Some <==> m is AlquilerAbierto,
        m matches MensajeEntreEstacionesTCP::AlquilerAbierto {
            event_id,
            rental_id,
            bici_id,
            usuario_id,
            estacion_origen,
            t0,
            preauth_id,
        } ==> {
            &&& aviso_de_apertura(m) matches Some((evento, a))
            &&& evento == event_id.0@
            &&& a.rental_id == rental_id.0@
            &&& a.bici_id == bici_id
            &&& a.usuario_id == usuario_id.0@
            &&& a.estacion_origen == estacion_origen
            &&& a.inicio == t0
            &&& a.fin is None
            &&& a.preauth_id == preauth_id@
            &&& a.estado == EstadoAlquiler::Activo
        },
{
}

/// Los alquileres que informa un mensaje son los que trae, uno por uno; y el acuse de un
/// evento lleva su id.
pub proof fn ley_lo_que_informa(m: MensajeEntreEstacionesTCP, i: int)
    ensures
        alquileres_informados(m) is Some <==> m is RespuestaAlquileres || m is IngresoTardio,
        m matches MensajeEntreEstacionesTCP::RespuestaAlquileres { alquileres } ==> {
            &&& alquileres_informados(m) matches Some(lista)
            &&& lista.len() == alquileres@.len()
            &&& 0 <= i < lista.len() ==> lista[i] == alquileres@[i]@
        },
        m matches MensajeEntreEstacionesTCP::IngresoTardio { alquileres } ==> {
            &&& alquileres_informados(m) matches Some(lista)
            &&& lista.len() == alquileres@.len()
            &&& 0 <= i < lista.len() ==> lista[i] == alquileres@[i]@
        },
        acuse(m) is Some <==> m is EventoProcesadoAck,
        m matches MensajeEntreEstacionesTCP::EventoProcesadoAck { event_id } ==> acuse(m) == Some(
            event_id.0@,
        ),
{
}

} // verus!
