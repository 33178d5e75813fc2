//! Tipos compartidos por las aplicaciones del sistema: identificadores, tipos de
//! dominio, mensajes de red y las partes sin red de la comunicación.
pub mod args;
pub mod comunicador;
pub mod config;
pub mod direccion;
pub mod dominio;
pub mod etiquetas;
pub mod framing;
pub mod ids;
pub mod mensajes;
pub mod numeros;
pub mod tabla;
pub mod texto;
pub mod tiempo;

pub use crate::comun::config::Config;
pub use crate::comun::dominio::{Alquiler, EstadoAlquiler, InfoEstacion};
pub use crate::comun::ids::{
    BiciId, DatosTarjeta, EstacionId, EventId, RentalId, TransaccionId, UsuarioId,
};
pub use crate::comun::numeros::Real64;
pub use crate::comun::tiempo::Timestamp;
