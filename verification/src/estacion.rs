//! La estación: elección de líder, registro, slots y coordinación del alquiler.
pub mod anillo;
pub mod arranque;
pub mod avisos;
pub mod caidas;
pub mod coordinador;
pub mod dos_fases;
pub mod efectos;
pub mod eleccion;
pub mod liderazgo;
pub mod mensajes;
pub mod operacion;
pub mod protocolo;
pub mod reconstruccion;
pub mod registro;
pub mod slot;
