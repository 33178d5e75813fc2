//! Estación ↔ Pasarela (TCP). 2PC de la pre-autorización y cobro final.

use vstd::prelude::*;

use crate::comun::ids::{DatosTarjeta, TarjetaVista, TransaccionId, UsuarioId};
use crate::comun::numeros::Real64;
use crate::comun::tiempo::Timestamp;

verus! {

#[derive(Debug, Clone, PartialEq, Eq)]
pub enum MensajeEstacionAPasarela {
    PreparePreauth {
        tx_id: TransaccionId,
        usuario_id: UsuarioId,
        tarjeta: DatosTarjeta,
        monto_propuesto: Real64,
    },
    CommitPreauth { tx_id: TransaccionId, preauth_id: String },
    AbortPreauth { tx_id: TransaccionId, preauth_id: String },
    ProcesarCobro { preauth_id: String, t0: Timestamp, t1: Timestamp },
}

#[allow(inconsistent_fields)]
#[derive(Debug, Clone, PartialEq, Eq)]
pub enum MensajePasarelaAEstacion {
    Voto { tx_id: TransaccionId, resultado: VotoResultado, preauth_id: Option<String> },
    PreauthConfirmada { preauth_id: String },
    PreauthAnulada { preauth_id: String },
    CobroConfirmado { preauth_id: String, monto: Real64 },
    CobroRechazado { preauth_id: String, motivo: String },
}

/// Voto de un participante en el 2PC.
#[derive(Debug, Clone, PartialEq, Eq)]
pub enum VotoResultado {
    Yes,
    No { motivo: String },
}

/// Un pedido a la pasarela, con los textos como secuencias.
#[verifier::ext_equal]
pub enum PedidoVista {
    PreparePreauth {
        tx_id: Seq<char>,
        usuario_id: Seq<char>,
        tarjeta: TarjetaVista,
        monto_propuesto: Real64,
    },
    CommitPreauth { tx_id: Seq<char>, preauth_id: Seq<char> },
    AbortPreauth { tx_id: Seq<char>, preauth_id: Seq<char> },
    ProcesarCobro { preauth_id: Seq<char>, t0: Timestamp, t1: Timestamp },
}

impl View for MensajeEstacionAPasarela {
    type V = PedidoVista;

    open spec fn view(&self) -> PedidoVista {
        match *self {
            MensajeEstacionAPasarela::PreparePreauth {
                tx_id,
                usuario_id,
                tarjeta,
                monto_propuesto,
            } => PedidoVista::PreparePreauth {
                tx_id: tx_id@,
                usuario_id: usuario_id@,
                tarjeta: tarjeta@,
                monto_propuesto,
            },
            MensajeEstacionAPasarela::CommitPreauth { tx_id, preauth_id } => {
                PedidoVista::CommitPreauth { tx_id: tx_id@, preauth_id: preauth_id@ }
            },
            MensajeEstacionAPasarela::AbortPreauth { tx_id, preauth_id } => {
                PedidoVista::AbortPreauth { tx_id: tx_id@, preauth_id: preauth_id@ }
            },
            MensajeEstacionAPasarela::ProcesarCobro { preauth_id, t0, t1 } => {
                PedidoVista::ProcesarCobro { preauth_id: preauth_id@, t0, t1 }
            },
        }
    }
}

/// Una respuesta de la pasarela, con los textos como secuencias. Un voto sin
/// motivo de rechazo es un Sí.
#[allow(inconsistent_fields)]
#[verifier::ext_equal]
pub enum RespuestaVista {
    Voto { tx_id: Seq<char>, rechazo: Option<Seq<char>>, preauth_id: Option<Seq<char>> },
    PreauthConfirmada { preauth_id: Seq<char> },
    PreauthAnulada { preauth_id: Seq<char> },
    CobroConfirmado { preauth_id: Seq<char>, monto: Real64 },
    CobroRechazado { preauth_id: Seq<char>, motivo: Seq<char> },
}

impl View for MensajePasarelaAEstacion {
    type V = RespuestaVista;

    open spec fn view(&self) -> RespuestaVista {
        match *self {
            MensajePasarelaAEstacion::Voto { tx_id, resultado, preauth_id } => {
                RespuestaVista::Voto {
                    tx_id: tx_id@,
                    rechazo: match resultado {
                        VotoResultado::Yes => None,
                        VotoResultado::No { motivo } => Some(motivo@),
                    },
                    preauth_id: match preauth_id {
                        Some(id) => Some(id@),
                        None => None,
                    },
                }
            },
            MensajePasarelaAEstacion::PreauthConfirmada { preauth_id } => {
                RespuestaVista::PreauthConfirmada { preauth_id: preauth_id@ }
            },
            MensajePasarelaAEstacion::PreauthAnulada { preauth_id } => {
                RespuestaVista::PreauthAnulada { preauth_id: preauth_id@ }
            },
            MensajePasarelaAEstacion::CobroConfirmado { preauth_id, monto } => {
                RespuestaVista::CobroConfirmado { preauth_id: preauth_id@, monto }
            },
            MensajePasarelaAEstacion::CobroRechazado { preauth_id, motivo } => {
                RespuestaVista::CobroRechazado { preauth_id: preauth_id@, motivo: motivo@ }
            },
        }
    }
}

/// Un pedido a la pasarela es sus campos, con los textos como secuencias.
pub proof fn ley_pedido_por_sus_campos(m: MensajeEstacionAPasarela)
    ensures
        match m {
            MensajeEstacionAPasarela::PreparePreauth {
                tx_id,
                usuario_id,
                tarjeta,
                monto_propuesto,
            } => {
                &&& m@ matches PedidoVista::PreparePreauth {
                    tx_id: t,
                    usuario_id: u,
                    tarjeta: c,
                    monto_propuesto: p,
                }
                &&& t == tx_id.0@ && u == usuario_id.0@ && c == tarjeta@ && p == monto_propuesto
            },
            MensajeEstacionAPasarela::CommitPreauth { tx_id, preauth_id } => {
                &&& m@ matches PedidoVista::CommitPreauth { tx_id: t, preauth_id: p }
                &&& t == tx_id.0@ && p == preauth_id@
            },
            MensajeEstacionAPasarela::AbortPreauth { tx_id, preauth_id } => {
                &&& m@ matches PedidoVista::AbortPreauth { tx_id: t, preauth_id: p }
                &&& t == tx_id.0@ && p == preauth_id@
            },
            MensajeEstacionAPasarela::ProcesarCobro { preauth_id, t0, t1 } => {
                &&& m@ matches PedidoVista::ProcesarCobro { preauth_id: p, t0: a, t1: b }
                &&& p == preauth_id@ && a == t0 && b == t1
            },
        },
{
}

/// Una respuesta de la pasarela es sus campos, con los textos como secuencias; un voto es
/// un rechazo, con su motivo, si y solo si es No.
pub proof fn ley_respuesta_por_sus_campos(m: MensajePasarelaAEstacion)
    ensures
        match m {
            MensajePasarelaAEstacion::Voto { tx_id, resultado, preauth_id } => {
                &&& m@ matches RespuestaVista::Voto { tx_id: t, rechazo, preauth_id: p }
                &&& t == tx_id.0@
                &&& resultado is Yes <==> rechazo is None
                &&& resultado matches VotoResultado::No { motivo } ==> rechazo == Some(motivo@)
                &&& preauth_id is None <==> p is None
                &&& preauth_id matches Some(id) ==> p == Some(id@)
            },
            MensajePasarelaAEstacion::PreauthConfirmada { preauth_id } => {
                m@ matches RespuestaVista::PreauthConfirmada { preauth_id: p } && p == preauth_id@
            },
            MensajePasarelaAEstacion::PreauthAnulada { preauth_id } => {
                m@ matches RespuestaVista::PreauthAnulada { preauth_id: p } && p == preauth_id@
            },
            MensajePasarelaAEstacion::CobroConfirmado { preauth_id, monto } => {
                &&& m@ matches RespuestaVista::CobroConfirmado { preauth_id: p, monto: x }
                &&& p == preauth_id@ && x == monto
            },
            MensajePasarelaAEstacion::CobroRechazado { preauth_id, motivo } => {
                &&& m@ matches RespuestaVista::CobroRechazado { preauth_id: p, motivo: x }
                &&& p == preauth_id@ && x == motivo@
            },
        },
{
}

} // verus!
