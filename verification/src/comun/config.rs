//! Configuración de la topología. La comparten las tres aplicaciones: la estación
//! busca su propia entrada por id, la pasarela toma su puerto y la tarifa, y el
//! usuario usa la lista de estaciones para descubrir al líder.

use vstd::prelude::*;

use crate::comun::direccion::{Direccion, LOCAL};
use crate::comun::ids::EstacionId;
use crate::comun::numeros::Real64;

verus! {

/// La topología completa.
#[derive(Debug, Clone, PartialEq, Eq)]
pub struct Config {
    pub estaciones: Vec<EstacionConfig>,
    pub pasarela: PasarelaConfig,
    pub tarifa: TarifaConfig,
}

/// Una estación: su id, el puerto en que escucha y dónde está.
#[derive(Debug, Clone, Copy, PartialEq, Eq)]
pub struct EstacionConfig {
    pub id: EstacionId,
    pub puerto: u16,
    pub ubicacion: (Real64, Real64),
}

/// Dónde escucha la pasarela.
#[derive(Debug, Clone, Copy, PartialEq, Eq, Structural)]
pub struct PasarelaConfig {
    pub puerto: u16,
}

/// Lo que cuesta un alquiler: un monto fijo más otro por minuto.
#[derive(Debug, Clone, Copy, PartialEq, Eq, Structural)]
pub struct TarifaConfig {
    pub base: Real64,
    pub por_minuto: Real64,
}

/// La posición de la primera entrada con ese id, a partir de `i`.
pub open spec fn primera_desde(s: Seq<EstacionConfig>, id: EstacionId, i: int) -> Option<int>
    decreases s.len() - i,
{
    if i < 0 || i >= s.len() {
        None
    } else if s[i].id == id {
        Some(i)
    } else {
        primera_desde(s, id, i + 1)
    }
}

/// La primera entrada con ese id.
pub open spec fn entrada(s: Seq<EstacionConfig>, id: EstacionId) -> Option<EstacionConfig> {
    match primera_desde(s, id, 0) {
        Some(i) => Some(s[i]),
        None => None,
    }
}

/// Cómo es la primera entrada: está en la lista, tiene el id, y ninguna anterior lo
/// tiene. Si no hay, ninguna lo tiene.
pub proof fn ley_primera(s: Seq<EstacionConfig>, id: EstacionId, desde: int)
    requires
        0 <= desde <= s.len(),
    ensures
        match primera_desde(s, id, desde) {
            Some(i) => {
                &&& desde <= i < s.len()
                &&& s[i].id == id
                &&& forall|j: int| desde <= j < i ==> (#[trigger] s[j]).id != id
            },
            None => forall|j: int| desde <= j < s.len() ==> (#[trigger] s[j]).id != id,
        },
    decreases s.len() - desde,
{
    if desde < s.len() && s[desde].id != id {
        ley_primera(s, id, desde + 1);
    }
}

/// La dirección de una estación: el puerto de su primera entrada, en la propia máquina.
pub open spec fn direccion_en(s: Seq<EstacionConfig>, id: EstacionId) -> Option<Direccion> {
    match entrada(s, id) {
        Some(e) => Some(Direccion::V4 { ip: LOCAL, puerto: e.puerto }),
        None => None,
    }
}

/// `id` es el mayor de los ids de la lista.
pub open spec fn es_mayor_id(s: Seq<EstacionConfig>, id: EstacionId) -> bool {
    &&& exists|i: int| 0 <= i < s.len() && (#[trigger] s[i]).id == id
    &&& forall|i: int| 0 <= i < s.len() ==> (#[trigger] s[i]).id.0 <= id.0
}

impl Config {
    /// Devuelve la entrada de configuración de una estación por su id.
    pub fn estacion(&self, id: EstacionId) -> (r: Option<&EstacionConfig>)
        ensures
            match r {
                Some(e) => entrada(self.estaciones@, id) == Some(*e),
                None => entrada(self.estaciones@, id) is None,
            },
    {
        let mut i: usize = 0;
        while i < self.estaciones.len()
            invariant
                i <= self.estaciones@.len(),
                primera_desde(self.estaciones@, id, 0) == primera_desde(
                    self.estaciones@,
                    id,
                    i as int,
                ),
            decreases self.estaciones@.len() - i,
        {
            if self.estaciones[i].id == id {
                return Some(&self.estaciones[i]);
            }
            i += 1;
        }
        None
    }

    /// La dirección de una estación: su puerto en la propia máquina.
    pub fn direccion(&self, id: EstacionId) -> (r: Option<Direccion>)
        ensures
            r == match entrada(self.estaciones@, id) {
                Some(e) => Some(Direccion::V4 { ip: LOCAL, puerto: e.puerto }),
                None => None,
            },
            r == direccion_en(self.estaciones@, id),
    {
        match self.estacion(id) {
            Some(e) => Some(Direccion::local(e.puerto)),
            None => None,
        }
    }

    /// El líder con que arranca el sistema: el designado o, si no se designó a
    /// ninguno, la estación de id mayor, que es la que ganaría una elección.
    pub fn lider_inicial(&self, designado: Option<EstacionId>) -> (r: Option<EstacionId>)
        ensures
            designado is Some ==> r == designado,
            designado is None ==> (r is None <==> self.estaciones@.len() == 0),
            designado is None ==> (r matches Some(id) ==> es_mayor_id(self.estaciones@, id)),
    {
        if designado.is_some() {
            return designado;
        }
        if self.estaciones.len() == 0 {
            return None;
        }
        let mut mayor = self.estaciones[0].id;
        let mut i: usize = 1;
        let ghost s = self.estaciones@;
        assert(s[0].id == mayor);
        while i < self.estaciones.len()
            invariant
                1 <= i <= s.len(),
                s == self.estaciones@,
                exists|j: int| 0 <= j < i && (#[trigger] s[j]).id == mayor,
                forall|j: int| 0 <= j < i ==> (#[trigger] s[j]).id.0 <= mayor.0,
            decreases s.len() - i,
        {
            if self.estaciones[i].id.0 > mayor.0 {
                mayor = self.estaciones[i].id;
                assert(s[i as int].id == mayor);
            }
            i += 1;
        }
        Some(mayor)
    }
}

/// Buscar una estación en la configuración encuentra la primera entrada con ese id, y hay
/// una si y solo si alguna lo tiene. La dirección es 127.0.0.1 con el puerto de esa
/// entrada, y la posición en la lista no importa.
pub proof fn ley_buscar_estacion(s: Seq<EstacionConfig>, id: EstacionId, i: int)
    requires
        0 <= i < s.len(),
        s[i].id == id,
        forall|j: int| 0 <= j < i ==> (#[trigger] s[j]).id != id,
    ensures
        entrada(s, id) == Some(s[i]),
        direccion_en(s, id) == Some(Direccion::V4 { ip: 0x7f00_0001, puerto: s[i].puerto }),
{
    ley_primera(s, id, 0);
    if let Some(k) = primera_desde(s, id, 0) {
        if k < i {
            assert(s[k].id != id);
        }
        if i < k {
            assert(s[i].id != id);
        }
    }
}

/// Si ninguna entrada tiene ese id, no hay estación ni dirección.
pub proof fn ley_estacion_ausente(s: Seq<EstacionConfig>, id: EstacionId)
    requires
        forall|i: int| 0 <= i < s.len() ==> (#[trigger] s[i]).id != id,
    ensures
        entrada(s, id) is None,
        direccion_en(s, id) is None,
{
    ley_primera(s, id, 0);
}

/// El mayor id está en la lista, ninguno lo supera, y hay uno solo.
pub proof fn ley_mayor_id(s: Seq<EstacionConfig>, a: EstacionId, b: EstacionId)
    requires
        es_mayor_id(s, a),
    ensures
        exists|i: int| 0 <= i < s.len() && (#[trigger] s[i]).id == a,
        forall|i: int| 0 <= i < s.len() ==> (#[trigger] s[i]).id.0 <= a.0,
        es_mayor_id(s, b) ==> a == b,
{
    if es_mayor_id(s, b) {
        let i = choose|i: int| 0 <= i < s.len() && (#[trigger] s[i]).id == a;
        let j = choose|j: int| 0 <= j < s.len() && (#[trigger] s[j]).id == b;
        assert(s[i].id.0 <= b.0 && s[j].id.0 <= a.0);
    }
}

} // verus!
