//! Mensajes internos entre los actores de la estación. No viajan por la red.

use vstd::prelude::*;

use crate::comun::ids::{BiciId, EstacionId, TransaccionId};
use crate::comun::mensajes::usuario_estacion::MensajeUsuarioAEstacion;

verus! {

/// Un pedido de usuario (alquiler o devolución) que la estación procesa: va al
/// slot que corresponde y, si es un alquiler, coordina el 2PC.
#[derive(Debug)]
pub struct SolicitudUsuario(pub MensajeUsuarioAEstacion);

/// El 2PC decidió COMMIT: se deja constancia **antes** de mandarle el
/// `CommitPreauth` a la pasarela, para poder completarlo tras una caída.
#[derive(Debug, PartialEq, Eq)]
pub struct RegistrarCommitPendiente {
    pub tx_id: TransaccionId,
    pub preauth_id: String,
}

/// La pasarela confirmó el Commit: la constancia se borra.
#[derive(Debug, PartialEq, Eq)]
pub struct CommitConfirmado {
    pub tx_id: TransaccionId,
}

/// A quién reconoce una estación como líder.
#[derive(Debug, Clone, Copy, PartialEq, Eq, Structural)]
pub struct InfoLider {
    /// `None` si hay una elección en curso o todavía no se conoce al líder.
    pub lider_id: Option<EstacionId>,
    pub term: u64,
    pub soy_lider: bool,
}

/// Fase Prepare del 2PC sobre el `Slot`: pide reservar la bici para una
/// transacción.
#[derive(Debug, PartialEq, Eq)]
pub struct PrepareLiberacion {
    pub tx_id: TransaccionId,
}

/// Voto de un participante del 2PC.
#[derive(Debug, Clone, Copy, PartialEq, Eq, Structural)]
pub enum Voto {
    Si,
    No,
}

/// Fase Commit: libera la bici reservada por la transacción.
#[derive(Debug, PartialEq, Eq)]
pub struct CommitLiberacion {
    pub tx_id: TransaccionId,
}

/// Aborta la reserva de la transacción (no toca la bici).
#[derive(Debug, PartialEq, Eq)]
pub struct AbortLiberacion {
    pub tx_id: TransaccionId,
}

/// Pide al slot asegurar una bici que llega.
#[derive(Debug, Clone, Copy, PartialEq, Eq, Structural)]
pub struct AceptarBici {
    pub bici_id: BiciId,
}

/// Estado visible de un slot.
#[derive(Debug, Clone, Copy, PartialEq, Eq, Structural)]
pub struct EstadoSlot {
    pub ocupado: bool,
    pub bici_id: Option<BiciId>,
}

} // verus!
