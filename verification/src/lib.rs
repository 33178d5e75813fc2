//! Sistema distribuido de alquiler de bicicletas: los tipos que comparten los
//! procesos, las reglas de la estación (2PC del alquiler, registro, slots y
//! elección de líder por anillo), las de la pasarela de pagos y las del cliente
//! de usuario. Los sockets, los actores y la consola quedan afuera: acá están
//! las decisiones, cada una con su contrato.
pub mod comun;
pub mod estacion;
pub mod pasarela;
pub mod usuario;
