//! Usuario ↔ Estación (TCP). Toda la interacción del usuario pasa por acá: las
//! operaciones (alquiler y devolución) y las consultas (discovery del líder y
//! disponibilidad).

use vstd::prelude::*;

use crate::comun::direccion::Direccion;
use crate::comun::dominio::InfoEstacion;
#[allow(unused_imports)]
use crate::comun::ids::TarjetaVista;
use crate::comun::ids::{BiciId, DatosTarjeta, EstacionId, RentalId, UsuarioId};
use crate::comun::numeros::Real64;

verus! {

/// Envelope que multiplexa las dos familias de mensajes que el usuario manda a
/// una misma estación por el mismo endpoint TCP.
#[derive(Debug, Clone, PartialEq, Eq)]
pub enum MensajeUsuario {
    Operacion(MensajeUsuarioAEstacion),
    Consulta(MensajeUsuarioAEstacionConsulta),
}

// --- Operaciones: alquiler y devolución ---
#[derive(Debug, Clone, PartialEq, Eq)]
pub enum MensajeUsuarioAEstacion {
    SolicitudAlquiler { usuario_id: UsuarioId, slot_id: u32, tarjeta: DatosTarjeta },
    SolicitudDevolucion {
        usuario_id: UsuarioId,
        bici_id: BiciId,
        rental_id: RentalId,
        slot_id: u32,
    },
}

#[derive(Debug, Clone, PartialEq, Eq)]
pub enum MensajeEstacionAUsuario {
    AlquilerConfirmado { rental_id: RentalId, bici_id: BiciId, preauth_id: String },
    AlquilerRechazado { motivo: String },
    DevolucionAceptada { bici_id: BiciId },
    DevolucionRechazada { motivo: String },
    DevolucionCompletada {
        rental_id: RentalId,
        monto_cobrado: Real64,
        tiempo_uso_minutos: u32,
    },
}

// --- Consultas: discovery del líder y disponibilidad ---
#[derive(Debug, PartialEq, Eq)]
pub enum MensajeUsuarioAEstacionConsulta {
    PreguntarLider,
    ConsultaDisponibilidad {
        usuario_id: UsuarioId,
        ubicacion: (Real64, Real64),
        radio_max_km: Real64,
    },
}

impl Clone for MensajeUsuarioAEstacionConsulta {
    fn clone(&self) -> (copia: Self)
        ensures
            copia == *self,
    {
        match self {
            MensajeUsuarioAEstacionConsulta::PreguntarLider => {
                MensajeUsuarioAEstacionConsulta::PreguntarLider
            },
            MensajeUsuarioAEstacionConsulta::ConsultaDisponibilidad {
                usuario_id,
                ubicacion,
                radio_max_km,
            } => MensajeUsuarioAEstacionConsulta::ConsultaDisponibilidad {
                usuario_id: usuario_id.clone(),
                ubicacion: *ubicacion,
                radio_max_km: *radio_max_km,
            },
        }
    }
}

#[derive(Debug, Clone, PartialEq, Eq)]
pub enum MensajeEstacionAUsuarioConsulta {
    /// La estación conoce al líder y lo informa (con `term` para descartar
    /// respuestas viejas).
    RespuestaLider { lider_id: EstacionId, lider_addr: Direccion, term: u64 },
    /// Hay una elección en curso.
    EnEleccion,
    /// La estación es follower y todavía no aprendió quién es el líder.
    LiderDesconocido,
    RespuestaDisponibilidad { estaciones: Vec<InfoEstacion> },
}

// --- Los mensajes, con los textos como secuencias ---
/// Una operación pedida por un usuario.
#[verifier::ext_equal]
pub enum SolicitudVista {
    Alquiler { usuario_id: Seq<char>, slot_id: u32, tarjeta: TarjetaVista },
    Devolucion { usuario_id: Seq<char>, bici_id: BiciId, rental_id: Seq<char>, slot_id: u32 },
}

impl View for MensajeUsuarioAEstacion {
    type V = SolicitudVista;

    open spec fn view(&self) -> SolicitudVista {
        match *self {
            MensajeUsuarioAEstacion::SolicitudAlquiler { usuario_id, slot_id, tarjeta } => {
                SolicitudVista::Alquiler { usuario_id: usuario_id@, slot_id, tarjeta: tarjeta@ }
            },
            MensajeUsuarioAEstacion::SolicitudDevolucion {
                usuario_id,
                bici_id,
                rental_id,
                slot_id,
            } => SolicitudVista::Devolucion {
                usuario_id: usuario_id@,
                bici_id,
                rental_id: rental_id@,
                slot_id,
            },
        }
    }
}

/// Una consulta de un usuario.
#[verifier::ext_equal]
pub enum PreguntaVista {
    PreguntarLider,
    ConsultaDisponibilidad {
        usuario_id: Seq<char>,
        ubicacion: (Real64, Real64),
        radio_max_km: Real64,
    },
}

impl View for MensajeUsuarioAEstacionConsulta {
    type V = PreguntaVista;

    open spec fn view(&self) -> PreguntaVista {
        match *self {
            MensajeUsuarioAEstacionConsulta::PreguntarLider => PreguntaVista::PreguntarLider,
            MensajeUsuarioAEstacionConsulta::ConsultaDisponibilidad {
                usuario_id,
                ubicacion,
                radio_max_km,
            } => PreguntaVista::ConsultaDisponibilidad {
                usuario_id: usuario_id@,
                ubicacion,
                radio_max_km,
            },
        }
    }
}

/// Lo que la estación le contesta a un usuario.
#[verifier::ext_equal]
pub enum ContestacionVista {
    AlquilerConfirmado { rental_id: Seq<char>, bici_id: BiciId, preauth_id: Seq<char> },
    AlquilerRechazado { motivo: Seq<char> },
    DevolucionAceptada { bici_id: BiciId },
    DevolucionRechazada { motivo: Seq<char> },
    DevolucionCompletada {
        rental_id: Seq<char>,
        monto_cobrado: Real64,
        tiempo_uso_minutos: u32,
    },
}

impl View for MensajeEstacionAUsuario {
    type V = ContestacionVista;

    open spec fn view(&self) -> ContestacionVista {
        match *self {
            MensajeEstacionAUsuario::AlquilerConfirmado { rental_id, bici_id, preauth_id } => {
                ContestacionVista::AlquilerConfirmado {
                    rental_id: rental_id@,
                    bici_id,
                    preauth_id: preauth_id@,
                }
            },
            MensajeEstacionAUsuario::AlquilerRechazado { motivo } => {
                ContestacionVista::AlquilerRechazado { motivo: motivo@ }
            },
            MensajeEstacionAUsuario::DevolucionAceptada { bici_id } => {
                ContestacionVista::DevolucionAceptada { bici_id }
            },
            MensajeEstacionAUsuario::DevolucionRechazada { motivo } => {
                ContestacionVista::DevolucionRechazada { motivo: motivo@ }
            },
            MensajeEstacionAUsuario::DevolucionCompletada {
                rental_id,
                monto_cobrado,
                tiempo_uso_minutos,
            } => ContestacionVista::DevolucionCompletada {
                rental_id: rental_id@,
                monto_cobrado,
                tiempo_uso_minutos,
            },
        }
    }
}

/// Una operación de usuario es sus campos, con los textos como secuencias.
pub proof fn ley_solicitud_por_sus_campos(m: MensajeUsuarioAEstacion)
    ensures
        match m {
            MensajeUsuarioAEstacion::SolicitudAlquiler { usuario_id, slot_id, tarjeta } => {
                &&& m@ matches SolicitudVista::Alquiler { usuario_id: u, slot_id: s, tarjeta: t }
                &&& u == usuario_id.0@ && s == slot_id && t == tarjeta@
            },
            MensajeUsuarioAEstacion::SolicitudDevolucion {
                usuario_id,
                bici_id,
                rental_id,
                slot_id,
            } => {
                &&& m@ matches SolicitudVista::Devolucion {
                    usuario_id: u,
                    bici_id: b,
                    rental_id: r,
                    slot_id: s,
                }
                &&& u == usuario_id.0@ && b == bici_id && r == rental_id.0@ && s == slot_id
            },
        },
{
}

/// Una consulta de usuario es sus campos, con los textos como secuencias.
pub proof fn ley_pregunta_por_sus_campos(m: MensajeUsuarioAEstacionConsulta)
    ensures
        match m {
            MensajeUsuarioAEstacionConsulta::PreguntarLider => m@ is PreguntarLider,
            MensajeUsuarioAEstacionConsulta::ConsultaDisponibilidad {
                usuario_id,
                ubicacion,
                radio_max_km,
            } => {
                &&& m@ matches PreguntaVista::ConsultaDisponibilidad {
                    usuario_id: u,
                    ubicacion: d,
                    radio_max_km: r,
                }
                &&& u == usuario_id.0@ && d == ubicacion && r == radio_max_km
            },
        },
{
}

/// Una respuesta a un usuario es sus campos, con los textos como secuencias.
pub proof fn ley_contestacion_por_sus_campos(m: MensajeEstacionAUsuario)
    ensures
        match m {
            MensajeEstacionAUsuario::AlquilerConfirmado { rental_id, bici_id, preauth_id } => {
                &&& m@ matches ContestacionVista::AlquilerConfirmado {
                    rental_id: r,
                    bici_id: b,
                    preauth_id: p,
                }
                &&& r == rental_id.0@ && b == bici_id && p == preauth_id@
            },
            MensajeEstacionAUsuario::AlquilerRechazado { motivo } => {
                m@ matches ContestacionVista::AlquilerRechazado { motivo: x } && x == motivo@
            },
            MensajeEstacionAUsuario::DevolucionAceptada { bici_id } => {
                m@ matches ContestacionVista::DevolucionAceptada { bici_id: b } && b == bici_id
            },
            MensajeEstacionAUsuario::DevolucionRechazada { motivo } => {
                m@ matches ContestacionVista::DevolucionRechazada { motivo: x } && x == motivo@
            },
            MensajeEstacionAUsuario::DevolucionCompletada {
                rental_id,
                monto_cobrado,
                tiempo_uso_minutos,
            } => {
                &&& m@ matches ContestacionVista::DevolucionCompletada {
                    rental_id: r,
                    monto_cobrado: x,
                    tiempo_uso_minutos: t,
                }
                &&& r == rental_id.0@ && x == monto_cobrado && t == tiempo_uso_minutos
            },
        },
{
}

} // verus!
