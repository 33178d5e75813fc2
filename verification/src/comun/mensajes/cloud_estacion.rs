//! Cloud ↔ Líder (TCP). El cloud reenvía consultas y descubre quién es el líder.

use vstd::prelude::*;

use crate::comun::dominio::InfoEstacion;
use crate::comun::ids::EstacionId;
use crate::comun::numeros::Real64;

verus! {

#[derive(Debug, Clone, Copy, PartialEq, Eq)]
pub enum MensajeCloudAEstacion {
    ConsultaDisponibilidad { ubicacion: (Real64, Real64), radio_max_km: Real64 },
    PreguntarLider,
}

#[derive(Debug, Clone, PartialEq, Eq)]
#[allow(inconsistent_fields)]
pub enum MensajeEstacionACloud {
    RespuestaDisponibilidad { estaciones: Vec<InfoEstacion> },
    RespuestaLider { lider_id: Option<EstacionId>, term: u64 },
    SoyElLider { estacion_id: EstacionId, term: u64 },
}

} // verus!
