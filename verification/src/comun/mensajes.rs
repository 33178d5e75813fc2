//! Mensajes de red del sistema, por enlace.
pub mod cloud_estacion;
pub mod estacion_estacion;
pub mod estacion_pasarela;
pub mod usuario_cloud;
pub mod usuario_estacion;
