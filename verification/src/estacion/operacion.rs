//! Una operación de usuario en curso y el próximo paso que pide.
//!
//! Un alquiler es una transacción en dos fases entre el slot y la pasarela. La
//! pasarela está en otro proceso: cada vez que la estación tiene que consultarla,
//! el paso dice qué preguntarle y la operación queda esperando la respuesta.

use vstd::prelude::*;

use crate::comun::direccion::Direccion;
#[allow(unused_imports)]
use crate::comun::dominio::AlquilerVista;
use crate::comun::ids::{BiciId, RentalId, TransaccionId, UsuarioId};
use crate::comun::mensajes::estacion_estacion::MensajeEntreEstacionesTCP;
#[allow(unused_imports)]
use crate::comun::mensajes::estacion_estacion::aviso_de_apertura;
use crate::comun::mensajes::estacion_pasarela::MensajeEstacionAPasarela;
#[allow(unused_imports)]
use crate::comun::mensajes::estacion_pasarela::PedidoVista;
#[allow(unused_imports)]
use crate::comun::mensajes::usuario_estacion::ContestacionVista;
use crate::comun::mensajes::usuario_estacion::MensajeEstacionAUsuario;
use crate::estacion::mensajes::Voto;

verus! {

/// Un alquiler que espera una respuesta de la pasarela.
#[derive(Debug)]
#[allow(inconsistent_fields)]
pub enum Operacion {
    /// Fase Prepare: el slot ya votó, falta el voto de la pasarela.
    EsperaVoto {
        tx_id: TransaccionId,
        rental_id: RentalId,
        usuario_id: UsuarioId,
        slot_id: u32,
        voto: Voto,
    },
    /// Se decidió Commit: el slot ya entregó la bici, falta la pasarela.
    EsperaCommit {
        tx_id: TransaccionId,
        rental_id: RentalId,
        usuario_id: UsuarioId,
        preauth_id: String,
        bici_id: BiciId,
    },
    /// Se decidió Abort: falta que la pasarela anule.
    EsperaAbort { motivo: String },
}

/// Un mensaje para otra estación.
#[derive(Debug)]
pub struct Envio {
    pub destino: Direccion,
    pub mensaje: MensajeEntreEstacionesTCP,
}

/// Lo que sigue en una operación.
#[derive(Debug)]
pub enum Paso {
    /// Preguntarle algo a la pasarela y seguir con lo que conteste.
    Consultar { destino: Direccion, pedido: MensajeEstacionAPasarela, operacion: Operacion },
    /// Contestarle al usuario y, si se abrió un alquiler que hay que reportar,
    /// avisarle al líder.
    Terminar { respuesta: MensajeEstacionAUsuario, reporte: Option<Envio> },
}

// ---------------------------------------------------------------------------
// Modelo
// ---------------------------------------------------------------------------

/// Una operación en curso, con los textos como secuencias.
#[verifier::ext_equal]
#[allow(inconsistent_fields)]
pub enum OperacionVista {
    EsperaVoto {
        tx_id: Seq<char>,
        rental_id: Seq<char>,
        usuario_id: Seq<char>,
        slot_id: u32,
        voto: Voto,
    },
    EsperaCommit {
        tx_id: Seq<char>,
        rental_id: Seq<char>,
        usuario_id: Seq<char>,
        preauth_id: Seq<char>,
        bici_id: BiciId,
    },
    EsperaAbort { motivo: Seq<char> },
}

impl OperacionVista {
    /// Con la próxima respuesta de la pasarela se abre un alquiler.
    pub open spec fn abre_alquiler(self) -> bool {
        self is EsperaCommit
    }
}

impl View for Operacion {
    type V = OperacionVista;

    open spec fn view(&self) -> OperacionVista {
        match *self {
            Operacion::EsperaVoto { tx_id, rental_id, usuario_id, slot_id, voto } => {
                OperacionVista::EsperaVoto {
                    tx_id: tx_id@,
                    rental_id: rental_id@,
                    usuario_id: usuario_id@,
                    slot_id,
                    voto,
                }
            },
            Operacion::EsperaCommit { tx_id, rental_id, usuario_id, preauth_id, bici_id } => {
                OperacionVista::EsperaCommit {
                    tx_id: tx_id@,
                    rental_id: rental_id@,
                    usuario_id: usuario_id@,
                    preauth_id: preauth_id@,
                    bici_id,
                }
            },
            Operacion::EsperaAbort { motivo } => OperacionVista::EsperaAbort { motivo: motivo@ },
        }
    }
}

/// El aviso al líder de un alquiler abierto: a qué dirección, con qué id de evento
/// y qué alquiler.
#[verifier::ext_equal]
pub struct ReporteVista {
    pub destino: Direccion,
    pub event_id: Seq<char>,
    pub alquiler: AlquilerVista,
}

/// El envío es ese aviso.
pub open spec fn reporta(envio: Option<Envio>, reporte: Option<ReporteVista>) -> bool {
    match reporte {
        Some(r) => {
            &&& envio is Some
            &&& envio->0.destino == r.destino
            &&& aviso_de_apertura(envio->0.mensaje) == Some((r.event_id, r.alquiler))
        },
        None => envio is None,
    }
}

/// Un paso, con los textos como secuencias.
#[verifier::ext_equal]
pub enum PasoVista {
    Consultar { destino: Direccion, pedido: PedidoVista, operacion: OperacionVista },
    Terminar { respuesta: ContestacionVista, reporte: Option<ReporteVista> },
}

impl Paso {
    /// El paso es el que describe `v`.
    pub open spec fn es(self, v: PasoVista) -> bool {
        match v {
            PasoVista::Consultar { destino, pedido, operacion } => {
                &&& self is Consultar
                &&& self->destino == destino
                &&& self->pedido@ == pedido
                &&& self->operacion@ == operacion
            },
            PasoVista::Terminar { respuesta, reporte } => {
                &&& self is Terminar
                &&& self->respuesta@ == respuesta
                &&& reporta(self->reporte, reporte)
            },
        }
    }
}

/// Una operación en curso es sus campos, con los textos como secuencias.
pub proof fn ley_operacion_por_sus_campos(o: Operacion)
    ensures
        match o {
            Operacion::EsperaVoto { tx_id, rental_id, usuario_id, slot_id, voto } => {
                &&& o@ matches OperacionVista::EsperaVoto {
                    tx_id: t,
                    rental_id: r,
                    usuario_id: u,
                    slot_id: s,
                    voto: v,
                }
                &&& t == tx_id.0@ && r == rental_id.0@ && u == usuario_id.0@ && s == slot_id && v
                    == voto
            },
            Operacion::EsperaCommit { tx_id, rental_id, usuario_id, preauth_id, bici_id } => {
                &&& o@ matches OperacionVista::EsperaCommit {
                    tx_id: t,
                    rental_id: r,
                    usuario_id: u,
                    preauth_id: p,
                    bici_id: b,
                }
                &&& t == tx_id.0@ && r == rental_id.0@ && u == usuario_id.0@ && p == preauth_id@
                    && b == bici_id
            },
            Operacion::EsperaAbort { motivo } => {
                o@ matches OperacionVista::EsperaAbort { motivo: x } && x == motivo@
            },
        },
        o@.abre_alquiler() <==> o is EsperaCommit,
{
}

/// Un envío que es un aviso va a su destino y lleva un mensaje de apertura con los datos
/// del alquiler y el id del evento; sin aviso no hay envío.
pub proof fn ley_que_es_reportar(envio: Option<Envio>, reporte: Option<ReporteVista>)
    requires
        reporta(envio, reporte),
    ensures
        envio is Some <==> reporte is Some,
        envio is Some ==> {
            &&& envio->0.destino == reporte->0.destino
            &&& envio->0.mensaje matches MensajeEntreEstacionesTCP::AlquilerAbierto {
                event_id,
                rental_id,
                bici_id,
                usuario_id,
                estacion_origen,
                t0,
                preauth_id,
            }
            &&& event_id.0@ == reporte->0.event_id
            &&& rental_id.0@ == reporte->0.alquiler.rental_id
            &&& bici_id == reporte->0.alquiler.bici_id
            &&& usuario_id.0@ == reporte->0.alquiler.usuario_id
            &&& estacion_origen == reporte->0.alquiler.estacion_origen
            &&& t0 == reporte->0.alquiler.inicio
            &&& preauth_id@ == reporte->0.alquiler.preauth_id
        },
{
}

/// Un paso es el que se describe si consulta lo mismo en el mismo lugar y sigue con la
/// misma operación, o si contesta lo mismo y reporta lo mismo.
pub proof fn ley_que_es_un_paso(paso: Paso, v: PasoVista)
    requires
        paso.es(v),
    ensures
        paso is Consultar <==> v is Consultar,
        paso matches Paso::Consultar { destino, pedido, operacion } ==> v
            == (PasoVista::Consultar { destino, pedido: pedido@, operacion: operacion@ }),
        paso matches Paso::Terminar { respuesta, reporte } ==> {
            &&& v matches PasoVista::Terminar { respuesta: r, reporte: aviso }
            &&& respuesta@ == r
            &&& reporta(reporte, aviso)
        },
{
}

} // verus!
