//! Tipos de dominio: alquileres y estado agregado de las estaciones.

use vstd::prelude::*;

use crate::comun::ids::{BiciId, EstacionId, RentalId, UsuarioId};
use crate::comun::numeros::Real64;
use crate::comun::tiempo::Timestamp;

verus! {

/// Ciclo de vida de un alquiler.
#[derive(Debug, Clone, Copy, PartialEq, Eq, Structural)]
pub enum EstadoAlquiler {
    Activo,
    Cerrado,
}

/// Un alquiler, abierto o cerrado.
#[derive(Debug, PartialEq, Eq)]
pub struct Alquiler {
    pub rental_id: RentalId,
    pub bici_id: BiciId,
    pub usuario_id: UsuarioId,
    pub estacion_origen: EstacionId,
    pub inicio: Timestamp,
    pub fin: Option<Timestamp>,
    pub preauth_id: String,
    pub estado: EstadoAlquiler,
}

/// Un alquiler, con los textos como secuencias.
#[verifier::ext_equal]
pub struct AlquilerVista {
    pub rental_id: Seq<char>,
    pub bici_id: BiciId,
    pub usuario_id: Seq<char>,
    pub estacion_origen: EstacionId,
    pub inicio: Timestamp,
    pub fin: Option<Timestamp>,
    pub preauth_id: Seq<char>,
    pub estado: EstadoAlquiler,
}

impl View for Alquiler {
    type V = AlquilerVista;

    open spec fn view(&self) -> AlquilerVista {
        AlquilerVista {
            rental_id: self.rental_id@,
            bici_id: self.bici_id,
            usuario_id: self.usuario_id@,
            estacion_origen: self.estacion_origen,
            inicio: self.inicio,
            fin: self.fin,
            preauth_id: self.preauth_id@,
            estado: self.estado,
        }
    }
}

/// Los alquileres de una lista, con los textos como secuencias.
pub open spec fn vistas_de(lista: Seq<Alquiler>) -> Seq<AlquilerVista> {
    lista.map_values(|a: Alquiler| a@)
}

impl Clone for Alquiler {
    fn clone(&self) -> (copia: Self)
        ensures
            copia == *self,
    {
        Alquiler {
            rental_id: self.rental_id.clone(),
            bici_id: self.bici_id,
            usuario_id: self.usuario_id.clone(),
            estacion_origen: self.estacion_origen,
            inicio: self.inicio,
            fin: self.fin,
            preauth_id: self.preauth_id.clone(),
            estado: self.estado,
        }
    }
}

/// Estado agregado de una estación, para las consultas de disponibilidad.
#[derive(Debug, Clone, Copy, PartialEq, Eq)]
pub struct InfoEstacion {
    pub estacion_id: EstacionId,
    pub ubicacion: (Real64, Real64),
    pub bicis_disponibles: u32,
    pub slots_libres: u32,
    pub last_seen: Timestamp,
}

/// Un alquiler es sus campos, con los textos como secuencias; y una lista, sus alquileres
/// en orden.
pub proof fn ley_alquiler_por_sus_campos(a: Alquiler, lista: Seq<Alquiler>, i: int)
    ensures
        a@.rental_id == a.rental_id.0@,
        a@.bici_id == a.bici_id,
        a@.usuario_id == a.usuario_id.0@,
        a@.estacion_origen == a.estacion_origen,
        a@.inicio == a.inicio,
        a@.fin == a.fin,
        a@.preauth_id == a.preauth_id@,
        a@.estado == a.estado,
        vistas_de(lista).len() == lista.len(),
        0 <= i < lista.len() ==> vistas_de(lista)[i] == lista[i]@,
{
}

} // verus!
