//! Direcciones de red, como valores.

use vstd::prelude::*;

verus! {

/// La dirección IPv4 de la propia máquina, 127.0.0.1.
pub const LOCAL: u32 = 0x7f00_0001;

/// Una dirección IP con su puerto. La IP va como un entero, con el primer octeto
/// en el lugar más alto.
#[derive(Debug, Clone, Copy, PartialEq, Eq, Hash, Structural)]
#[allow(inconsistent_fields)]
pub enum Direccion {
    V4 { ip: u32, puerto: u16 },
    V6 { ip: u128, puerto: u16, flujo: u32, ambito: u32 },
}

impl Direccion {
    /// La dirección de un puerto de la propia máquina.
    pub fn local(puerto: u16) -> (d: Direccion)
        ensures
            d == (Direccion::V4 { ip: LOCAL, puerto }),
    {
        Direccion::V4 { ip: LOCAL, puerto }
    }
}

/// La dirección de la propia máquina es 127.0.0.1.
pub proof fn ley_local()
    ensures
        LOCAL == 127 * 0x100_0000 + 0 * 0x1_0000 + 0 * 0x100 + 1,
{
}

} // verus!
