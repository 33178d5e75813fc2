//! Identificadores y datos que viajan en los mensajes.

use vstd::prelude::*;

verus! {

/// Identificador de una estación. Su orden es el del anillo de elección.
#[derive(Debug, Clone, Copy, PartialEq, Eq, PartialOrd, Ord, Hash, Structural)]
pub struct EstacionId(pub u32);

/// Identificador único de una bicicleta.
#[derive(Debug, Clone, Copy, PartialEq, Eq, PartialOrd, Ord, Hash, Structural)]
pub struct BiciId(pub u32);

/// Identificador de un alquiler.
#[derive(Debug, PartialEq, Eq, Hash)]
pub struct RentalId(pub String);

/// Identificador de un usuario.
#[derive(Debug, PartialEq, Eq, Hash)]
pub struct UsuarioId(pub String);

/// Identificador de un evento dirigido al líder.
#[derive(Debug, PartialEq, Eq, Hash)]
pub struct EventId(pub String);

/// Identificador de una transacción del 2PC.
#[derive(Debug, PartialEq, Eq, Hash)]
pub struct TransaccionId(pub String);

/// Tarjeta con la que paga un usuario.
#[derive(Debug, PartialEq, Eq)]
pub struct DatosTarjeta {
    pub numero: String,
    pub titular: String,
    pub vencimiento: String,
    pub cvv: String,
}

impl View for RentalId {
    type V = Seq<char>;

    open spec fn view(&self) -> Seq<char> {
        self.0@
    }
}

impl View for UsuarioId {
    type V = Seq<char>;

    open spec fn view(&self) -> Seq<char> {
        self.0@
    }
}

impl View for EventId {
    type V = Seq<char>;

    open spec fn view(&self) -> Seq<char> {
        self.0@
    }
}

impl View for TransaccionId {
    type V = Seq<char>;

    open spec fn view(&self) -> Seq<char> {
        self.0@
    }
}

/// Los datos de una tarjeta, como textos.
#[verifier::ext_equal]
pub struct TarjetaVista {
    pub numero: Seq<char>,
    pub titular: Seq<char>,
    pub vencimiento: Seq<char>,
    pub cvv: Seq<char>,
}

impl View for DatosTarjeta {
    type V = TarjetaVista;

    open spec fn view(&self) -> TarjetaVista {
        TarjetaVista {
            numero: self.numero@,
            titular: self.titular@,
            vencimiento: self.vencimiento@,
            cvv: self.cvv@,
        }
    }
}

impl Clone for RentalId {
    fn clone(&self) -> (copia: Self)
        ensures
            copia == *self,
    {
        RentalId(self.0.clone())
    }
}

impl Clone for UsuarioId {
    fn clone(&self) -> (copia: Self)
        ensures
            copia == *self,
    {
        UsuarioId(self.0.clone())
    }
}

impl Clone for EventId {
    fn clone(&self) -> (copia: Self)
        ensures
            copia == *self,
    {
        EventId(self.0.clone())
    }
}

impl Clone for TransaccionId {
    fn clone(&self) -> (copia: Self)
        ensures
            copia == *self,
    {
        TransaccionId(self.0.clone())
    }
}

impl Clone for DatosTarjeta {
    fn clone(&self) -> (copia: Self)
        ensures
            copia == *self,
    {
        DatosTarjeta {
            numero: self.numero.clone(),
            titular: self.titular.clone(),
            vencimiento: self.vencimiento.clone(),
            cvv: self.cvv.clone(),
        }
    }
}

/// Un identificador es su texto, y una tarjeta, sus cuatro textos.
pub proof fn ley_por_sus_textos(
    r: RentalId,
    u: UsuarioId,
    e: EventId,
    t: TransaccionId,
    d: DatosTarjeta,
)
    ensures
        r@ == r.0@,
        u@ == u.0@,
        e@ == e.0@,
        t@ == t.0@,
        d@.numero == d.numero@,
        d@.titular == d.titular@,
        d@.vencimiento == d.vencimiento@,
        d@.cvv == d.cvv@,
{
}

} // verus!
