//! Un usuario: su identidad, la tarjeta con que paga y si tiene una bici.

use vstd::prelude::*;

use crate::comun::ids::{BiciId, DatosTarjeta, RentalId, UsuarioId};
#[allow(unused_imports)]
use crate::comun::ids::TarjetaVista;
#[allow(unused_imports)]
use crate::comun::mensajes::usuario_estacion::ContestacionVista;
use crate::comun::mensajes::usuario_estacion::MensajeEstacionAUsuario;

verus! {

/// Si el usuario tiene una bici y, en ese caso, cuál y por qué alquiler.
#[derive(Debug, PartialEq, Eq)]
pub enum EstadoUsuario {
    SinBici,
    ConBici { bici_id: BiciId, rental_id: RentalId },
}

/// Un usuario.
pub struct Usuario {
    id: UsuarioId,
    tarjeta: DatosTarjeta,
    estado: EstadoUsuario,
}

/// El estado de un usuario, con los textos como secuencias.
#[verifier::ext_equal]
pub enum EstadoVista {
    SinBici,
    ConBici { bici_id: BiciId, rental_id: Seq<char> },
}

/// Un usuario, con los textos como secuencias.
#[verifier::ext_equal]
pub struct UsuarioVista {
    pub id: Seq<char>,
    pub tarjeta: TarjetaVista,
    pub estado: EstadoVista,
}

impl UsuarioVista {
    /// El usuario tras recibir una respuesta: con la bici si le confirmaron el
    /// alquiler, sin bici si le aceptaron la devolución o si se completó la del
    /// alquiler que tiene. Lo demás no lo cambia.
    pub open spec fn tras(self, respuesta: ContestacionVista) -> UsuarioVista {
        match respuesta {
            ContestacionVista::AlquilerConfirmado { rental_id, bici_id, .. } => UsuarioVista {
                estado: EstadoVista::ConBici { bici_id, rental_id },
                ..self
            },
            ContestacionVista::DevolucionAceptada { .. } => UsuarioVista {
                estado: EstadoVista::SinBici,
                ..self
            },
            ContestacionVista::DevolucionCompletada { rental_id, .. } => match self.estado {
                EstadoVista::ConBici { rental_id: mio, .. } if mio == rental_id => UsuarioVista {
                    estado: EstadoVista::SinBici,
                    ..self
                },
                _ => self,
            },
            _ => self,
        }
    }
}

impl View for EstadoUsuario {
    type V = EstadoVista;

    open spec fn view(&self) -> EstadoVista {
        match *self {
            EstadoUsuario::SinBici => EstadoVista::SinBici,
            EstadoUsuario::ConBici { bici_id, rental_id } => EstadoVista::ConBici {
                bici_id,
                rental_id: rental_id@,
            },
        }
    }
}

impl View for Usuario {
    type V = UsuarioVista;

    closed spec fn view(&self) -> UsuarioVista {
        UsuarioVista { id: self.id@, tarjeta: self.tarjeta@, estado: self.estado@ }
    }
}

/// La tarjeta con que paga un usuario. Es de prueba: la misma para todos, a nombre
/// de cada uno.
pub open spec fn tarjeta_de(id: Seq<char>) -> TarjetaVista {
    TarjetaVista {
        numero: "4111111111111111"@,
        titular: id,
        vencimiento: "12/29"@,
        cvv: "123"@,
    }
}

impl Usuario {
    /// Crea un usuario sin bici.
    pub fn new(id: UsuarioId) -> (u: Self)
        ensures
            u@ == (UsuarioVista {
                id: id@,
                tarjeta: tarjeta_de(id@),
                estado: EstadoVista::SinBici,
            }),
    {
        let tarjeta = DatosTarjeta {
            numero: "4111111111111111".to_string(),
            titular: id.0.clone(),
            vencimiento: "12/29".to_string(),
            cvv: "123".to_string(),
        };
        Usuario { id, tarjeta, estado: EstadoUsuario::SinBici }
    }

    /// El id del usuario.
    pub fn id(&self) -> (id: &UsuarioId)
        ensures
            id@ == self@.id,
    {
        &self.id
    }

    /// La tarjeta del usuario.
    pub fn tarjeta(&self) -> (t: &DatosTarjeta)
        ensures
            t@ == self@.tarjeta,
    {
        &self.tarjeta
    }

    /// Si tiene una bici, y cuál.
    pub fn estado(&self) -> (e: &EstadoUsuario)
        ensures
            e@ == self@.estado,
    {
        &self.estado
    }

    /// Actualiza el estado con una respuesta de una estación.
    pub fn aplicar(&mut self, respuesta: &MensajeEstacionAUsuario)
        ensures
            final(self)@ == old(self)@.tras(respuesta@),
    {
        match respuesta {
            MensajeEstacionAUsuario::AlquilerConfirmado { rental_id, bici_id, .. } => {
                self.estado =
                EstadoUsuario::ConBici { bici_id: *bici_id, rental_id: rental_id.clone() };
            },
            MensajeEstacionAUsuario::DevolucionAceptada { .. } => {
                self.estado = EstadoUsuario::SinBici;
            },
            MensajeEstacionAUsuario::DevolucionCompletada { rental_id, .. } => {
                let es_la_mia = match &self.estado {
                    EstadoUsuario::ConBici { rental_id: mio, .. } => mio.0 == rental_id.0,
                    EstadoUsuario::SinBici => false,
                };
                if es_la_mia {
                    self.estado = EstadoUsuario::SinBici;
                }
            },
            _ => {},
        }
    }
}

/// Una respuesta nunca cambia quién es el usuario ni su tarjeta, y un rechazo no
/// cambia nada.
pub proof fn ley_la_identidad_no_cambia(u: UsuarioVista, respuesta: ContestacionVista)
    ensures
        u.tras(respuesta).id == u.id,
        u.tras(respuesta).tarjeta == u.tarjeta,
        respuesta is AlquilerRechazado || respuesta is DevolucionRechazada ==> u.tras(respuesta)
            == u,
{
}

/// El cierre tardío de un alquiler anterior no le saca al usuario la bici que tiene
/// ahora.
pub proof fn ley_cierre_de_otro_alquiler(u: UsuarioVista, respuesta: ContestacionVista)
    requires
        respuesta is DevolucionCompletada,
        u.estado is ConBici,
        u.estado->rental_id != respuesta->DevolucionCompletada_rental_id,
    ensures
        u.tras(respuesta) == u,
{
}

/// Lo que le hace a un usuario cada respuesta: un alquiler confirmado le da esa bici por
/// ese alquiler; una devolución aceptada se la saca; el cierre del alquiler que tiene,
/// también; y ninguna otra cosa lo cambia.
pub proof fn ley_lo_que_hace_cada_respuesta(u: UsuarioVista, respuesta: ContestacionVista)
    ensures
        respuesta matches ContestacionVista::AlquilerConfirmado { rental_id, bici_id, .. }
            ==> u.tras(respuesta).estado == (EstadoVista::ConBici { bici_id, rental_id }),
        respuesta is DevolucionAceptada ==> u.tras(respuesta).estado is SinBici,
        respuesta is AlquilerRechazado || respuesta is DevolucionRechazada ==> u.tras(
            respuesta,
        ).estado == u.estado,
        respuesta matches ContestacionVista::DevolucionCompletada { rental_id, .. } ==> {
            &&& u.estado is SinBici ==> u.tras(respuesta).estado is SinBici
            &&& u.estado is ConBici && u.estado->rental_id == rental_id ==> u.tras(respuesta).estado
                is SinBici
            &&& u.estado is ConBici && u.estado->rental_id != rental_id ==> u.tras(respuesta).estado
                == u.estado
        },
        u.tras(respuesta).id == u.id,
        u.tras(respuesta).tarjeta == u.tarjeta,
{
}

/// La tarjeta de un usuario está a su nombre y es la de prueba.
pub proof fn ley_la_tarjeta_de_cada_uno(id: Seq<char>)
    ensures
        tarjeta_de(id).titular == id,
        tarjeta_de(id).numero == "4111111111111111"@,
        tarjeta_de(id).vencimiento == "12/29"@,
        tarjeta_de(id).cvv == "123"@,
{
}

/// El estado de un usuario es sus campos, con el alquiler por su texto.
pub proof fn ley_estado_por_sus_campos(e: EstadoUsuario)
    ensures
        e is SinBici <==> e@ is SinBici,
        e matches EstadoUsuario::ConBici { bici_id, rental_id } ==> e@ == (EstadoVista::ConBici {
            bici_id,
            rental_id: rental_id.0@,
        }),
{
}

} // verus!
