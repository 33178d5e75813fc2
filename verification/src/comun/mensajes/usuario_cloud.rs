//! Usuario ↔ Cloud (TCP). Consulta de disponibilidad.

use vstd::prelude::*;

use crate::comun::dominio::InfoEstacion;
use crate::comun::ids::UsuarioId;
use crate::comun::numeros::Real64;

verus! {

#[derive(Debug, PartialEq, Eq)]
pub enum MensajeUsuarioACloud {
    ConsultaDisponibilidad {
        usuario_id: UsuarioId,
        ubicacion: (Real64, Real64),
        radio_max_km: Real64,
    },
}

impl Clone for MensajeUsuarioACloud {
    fn clone(&self) -> (copia: Self)
        ensures
            copia == *self,
    {
        match self {
            MensajeUsuarioACloud::ConsultaDisponibilidad { usuario_id, ubicacion, radio_max_km } =>
                MensajeUsuarioACloud::ConsultaDisponibilidad {
                    usuario_id: usuario_id.clone(),
                    ubicacion: *ubicacion,
                    radio_max_km: *radio_max_km,
                },
        }
    }
}

#[derive(Debug, Clone, PartialEq, Eq)]
pub enum MensajeCloudAUsuario {
    RespuestaDisponibilidad { estaciones: Vec<InfoEstacion> },
    ErrorSistema { motivo: String },
}

} // verus!
