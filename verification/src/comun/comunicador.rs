//! Las decisiones de la comunicación por red, sin los sockets: cómo se lee la
//! respuesta a un pedido y cuántas veces se intenta conectar.

use vstd::prelude::*;

use crate::comun::framing::Desenmarcador;
#[allow(unused_imports)]
use crate::comun::framing::{
    completo, despues, ley_completo_es_un_marco, ley_forma_del_marco, ley_ida_y_vuelta, marco,
    primero,
};

verus! {

/// Transporte por el que llegó un paquete.
#[derive(Debug, Clone, Copy, PartialEq, Eq, Structural)]
pub enum Transporte {
    Tcp,
    Udp,
}

/// Cuántas veces se intenta conectar para enviar.
pub const MAX_INTENTOS: u32 = 10;

/// Cuántos milisegundos se espera después de un intento fallido.
pub const ESPERA_MS: u64 = 50;

/// Intentos de conexión para un envío: tolera que el destino todavía no haya
/// terminado de levantar su listener.
#[derive(Debug)]
pub struct Intentos {
    hechos: u32,
}

/// Con `hechos` intentos hechos, todavía queda otro.
pub open spec fn queda_intento(hechos: nat) -> bool {
    hechos < MAX_INTENTOS
}

impl Intentos {
    /// Cuántos intentos se hicieron.
    pub closed spec fn hechos_spec(self) -> nat {
        self.hechos as nat
    }

    /// Todavía no se intentó nada.
    pub fn new() -> (i: Self)
        ensures
            i.hechos_spec() == 0,
    {
        Intentos { hechos: 0 }
    }

    /// ¿Hay que intentar otra vez? Si es así, cuenta el intento.
    pub fn otro(&mut self) -> (r: bool)
        ensures
            r == (old(self).hechos_spec() < MAX_INTENTOS),
            r == queda_intento(old(self).hechos_spec()),
            final(self).hechos_spec() == old(self).hechos_spec() + if r {
                1nat
            } else {
                0nat
            },
    {
        if self.hechos < MAX_INTENTOS {
            self.hechos = self.hechos + 1;
            true
        } else {
            false
        }
    }
}

/// Qué hacer después de leer de la conexión por la que se hizo un pedido.
#[derive(Debug, PartialEq, Eq)]
pub enum Espera {
    /// La respuesta todavía no está completa: seguir leyendo.
    Seguir,
    /// La respuesta.
    Lista { payload: Vec<u8> },
    /// La conexión se cerró sin respuesta.
    Cortada,
}

/// Qué hacer después de leer, con la respuesta por sus bytes.
#[verifier::ext_equal]
pub enum EsperaVista {
    Seguir,
    Lista { payload: Seq<u8> },
    Cortada,
}

/// Qué hacer tras leer `leido` cuando ya se tenían los bytes `antes`.
pub open spec fn espera_de(antes: Seq<u8>, leido: Seq<u8>) -> EsperaVista {
    if leido.len() == 0 {
        EsperaVista::Cortada
    } else if completo(antes + leido) {
        EsperaVista::Lista { payload: primero(antes + leido) }
    } else {
        EsperaVista::Seguir
    }
}

/// Los bytes que quedan sin usar tras leer `leido` cuando ya se tenían los bytes `antes`.
pub open spec fn quedan(antes: Seq<u8>, leido: Seq<u8>) -> Seq<u8> {
    if leido.len() > 0 && completo(antes + leido) {
        despues(antes + leido)
    } else {
        antes + leido
    }
}

impl View for Espera {
    type V = EsperaVista;

    open spec fn view(&self) -> EsperaVista {
        match *self {
            Espera::Seguir => EsperaVista::Seguir,
            Espera::Lista { payload } => EsperaVista::Lista { payload: payload@ },
            Espera::Cortada => EsperaVista::Cortada,
        }
    }
}

/// Recibe lo que se leyó de la conexión por la que se hizo un pedido; no leer nada
/// significa que el otro lado cerró.
pub fn leer_respuesta(desenmarcador: &mut Desenmarcador, leido: &[u8]) -> (e: Espera)
    ensures
        leido@.len() == 0 ==> e is Cortada && final(desenmarcador)@ == old(desenmarcador)@,
        leido@.len() > 0 ==> {
            let flujo = old(desenmarcador)@ + leido@;
            if completo(flujo) {
                &&& e is Lista
                &&& e->payload@ == primero(flujo)
                &&& final(desenmarcador)@ == despues(flujo)
            } else {
                &&& e is Seguir
                &&& final(desenmarcador)@ == flujo
            }
        },
        e@ == espera_de(old(desenmarcador)@, leido@),
        final(desenmarcador)@ == quedan(old(desenmarcador)@, leido@),
{
    if leido.len() == 0 {
        assert(desenmarcador@ + leido@ =~= desenmarcador@);
        return Espera::Cortada;
    }
    desenmarcador.alimentar(leido);
    match desenmarcador.siguiente_payload() {
        Some(payload) => Espera::Lista { payload },
        None => Espera::Seguir,
    }
}

/// Se intenta diez veces, con cincuenta milisegundos entre una y otra.
pub proof fn ley_diez_intentos(hechos: nat)
    ensures
        queda_intento(hechos) <==> hechos < 10,
        ESPERA_MS == 50,
{
}

/// Una respuesta se recibe entera, llegue en los trozos que llegue: mientras lo leído es
/// solo una parte de ella se sigue leyendo, y al completarse se entrega, con lo que haya
/// venido después sin tocar.
pub proof fn ley_la_respuesta_llega(
    respuesta: Seq<u8>,
    antes: Seq<u8>,
    leido: Seq<u8>,
    resto: Seq<u8>,
)
    requires
        respuesta.len() <= u32::MAX,
        leido.len() > 0,
    ensures
        antes + leido == marco(respuesta) + resto ==> {
            &&& espera_de(antes, leido) == (EsperaVista::Lista { payload: respuesta })
            &&& quedan(antes, leido) == resto
        },
        resto.len() > 0 && antes + leido + resto == marco(respuesta) ==> {
            &&& espera_de(antes, leido) == EsperaVista::Seguir
            &&& quedan(antes, leido) == antes + leido
        },
{
    let s = antes + leido;
    if s == marco(respuesta) + resto {
        ley_ida_y_vuelta(respuesta, resto);
    }
    if resto.len() > 0 && s + resto == marco(respuesta) && completo(s) {
        ley_completo_es_un_marco(s);
        ley_ida_y_vuelta(primero(s), despues(s) + resto);
        ley_ida_y_vuelta(respuesta, Seq::<u8>::empty());
        ley_forma_del_marco(respuesta);
        ley_forma_del_marco(primero(s));
        assert(s + resto =~= marco(primero(s)) + (despues(s) + resto));
        assert(s + resto =~= marco(respuesta) + Seq::<u8>::empty());
        assert(primero(s) == respuesta);
    }
}

/// No leer nada es que el otro lado cerró, y no se toca lo que había.
pub proof fn ley_conexion_cerrada(antes: Seq<u8>, leido: Seq<u8>)
    ensures
        espera_de(antes, leido) is Cortada <==> leido.len() == 0,
        leido.len() == 0 ==> quedan(antes, leido) == antes,
{
    if leido.len() == 0 {
        assert(antes + leido =~= antes);
    }
}

} // verus!
