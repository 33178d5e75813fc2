//! Registro de alquileres que mantiene el líder.
//!
//! Es la "fuente de verdad" del sistema sobre qué alquileres están en curso. Cada
//! estación, además, guarda los que abrió ella en un registro propio, con el que
//! se reconstruye el del líder tras una elección.

use vstd::prelude::*;

use crate::comun::dominio::{Alquiler, EstadoAlquiler};
#[allow(unused_imports)]
use crate::comun::dominio::{vistas_de, AlquilerVista};
use crate::comun::ids::{BiciId, RentalId};
use crate::comun::tabla::Tabla;

verus! {

/// Alquileres por id.
pub struct Registro {
    alquileres: Tabla<Alquiler>,
}

/// El alquiler está abierto.
pub open spec fn activo(a: AlquilerVista) -> bool {
    a.estado == EstadoAlquiler::Activo
}

/// El mismo alquiler, cerrado.
pub open spec fn cerrado(a: AlquilerVista) -> AlquilerVista {
    AlquilerVista { estado: EstadoAlquiler::Cerrado, ..a }
}

/// Los ids de los alquileres abiertos.
pub open spec fn ids_activos(m: Map<Seq<char>, AlquilerVista>) -> Set<Seq<char>> {
    m.dom().filter(|k: Seq<char>| activo(m[k]))
}

/// `a` es el alquiler abierto, en el registro, de la bici.
pub open spec fn es_activo_de(
    m: Map<Seq<char>, AlquilerVista>,
    a: AlquilerVista,
    bici_id: BiciId,
) -> bool {
    &&& m.contains_key(a.rental_id)
    &&& m[a.rental_id] == a
    &&& a.bici_id == bici_id
    &&& activo(a)
}

/// El registro tras cerrar el alquiler `id`.
pub open spec fn tras_cerrar(m: Map<Seq<char>, AlquilerVista>, id: Seq<char>) -> Map<
    Seq<char>,
    AlquilerVista,
> {
    if m.contains_key(id) {
        m.insert(id, cerrado(m[id]))
    } else {
        m
    }
}

/// `lista` son los alquileres de `m`, cada uno una vez, en algún orden.
pub open spec fn es_lista_de(lista: Seq<AlquilerVista>, m: Map<Seq<char>, AlquilerVista>) -> bool {
    &&& forall|i: int|
        0 <= i < lista.len() ==> m.contains_key((#[trigger] lista[i]).rental_id)
            && m[lista[i].rental_id] == lista[i]
    &&& forall|i: int, j: int|
        0 <= i < j < lista.len() ==> (#[trigger] lista[i]).rental_id != (
        #[trigger] lista[j]).rental_id
    &&& forall|id: Seq<char>| #[trigger]
        m.contains_key(id) ==> exists|i: int|
            0 <= i < lista.len() && (#[trigger] lista[i]).rental_id == id
}

/// El registro tras incorporar los alquileres de una lista, en orden.
pub open spec fn consolidado(
    m: Map<Seq<char>, AlquilerVista>,
    lista: Seq<AlquilerVista>,
) -> Map<Seq<char>, AlquilerVista>
    decreases lista.len(),
{
    if lista.len() == 0 {
        m
    } else {
        consolidado(m, lista.drop_last()).insert(lista.last().rental_id, lista.last())
    }
}

/// Incorporar la lista de los alquileres de otro registro es unirlos; si están en los dos,
/// vale el de la lista.
pub proof fn lemma_consolidar_lista(
    m: Map<Seq<char>, AlquilerVista>,
    lista: Seq<AlquilerVista>,
    otro: Map<Seq<char>, AlquilerVista>,
)
    requires
        es_lista_de(lista, otro),
    ensures
        consolidado(m, lista) == m.union_prefer_right(otro),
{
    lemma_consolidado(m, lista);
    let c = consolidado(m, lista);
    let u = m.union_prefer_right(otro);
    assert forall|id: Seq<char>|
        c.contains_key(id) == #[trigger] u.contains_key(id) && (u.contains_key(id) ==> c[id]
            == u[id]) by {
        if otro.contains_key(id) {
            let i = choose|i: int| 0 <= i < lista.len() && (#[trigger] lista[i]).rental_id == id;
            assert(c[lista[i].rental_id] == lista[i]);
        } else {
            assert forall|i: int| 0 <= i < lista.len() implies (#[trigger] lista[i]).rental_id
                != id by {
                assert(otro.contains_key(lista[i].rental_id));
            }
        }
    }
    assert(c =~= u);
}

proof fn lemma_consolidado(m: Map<Seq<char>, AlquilerVista>, lista: Seq<AlquilerVista>)
    requires
        forall|i: int, j: int|
            0 <= i < j < lista.len() ==> (#[trigger] lista[i]).rental_id != (
            #[trigger] lista[j]).rental_id,
    ensures
        forall|i: int|
            0 <= i < lista.len() ==> consolidado(m, lista).contains_key(
                (#[trigger] lista[i]).rental_id,
            ) && consolidado(m, lista)[lista[i].rental_id] == lista[i],
        forall|id: Seq<char>|
            (forall|i: int| 0 <= i < lista.len() ==> (#[trigger] lista[i]).rental_id != id) ==> (
            #[trigger] consolidado(m, lista).contains_key(id) == m.contains_key(id)) && (
            m.contains_key(id) ==> consolidado(m, lista)[id] == m[id]),
    decreases lista.len(),
{
    if lista.len() > 0 {
        let previa = lista.drop_last();
        lemma_consolidado(m, previa);
        assert forall|i: int| 0 <= i < lista.len() implies consolidado(m, lista).contains_key(
            (#[trigger] lista[i]).rental_id,
        ) && consolidado(m, lista)[lista[i].rental_id] == lista[i] by {
            if i < lista.len() - 1 {
                assert(previa[i] == lista[i]);
                assert(lista[i].rental_id != lista[lista.len() - 1].rental_id);
            }
        }
        assert forall|id: Seq<char>|
            (forall|i: int| 0 <= i < lista.len() ==> (#[trigger] lista[i]).rental_id
                != id) implies (#[trigger] consolidado(m, lista).contains_key(id)
            == m.contains_key(id)) && (m.contains_key(id) ==> consolidado(m, lista)[id]
            == m[id]) by {
            assert(lista[lista.len() - 1].rental_id != id);
            assert forall|i: int| 0 <= i < previa.len() implies (#[trigger] previa[i]).rental_id
                != id by {
                assert(lista[i].rental_id != id);
            }
            assert(consolidado(m, previa).contains_key(id) == m.contains_key(id));
        }
    }
}

/// Cuántas de las primeras `n` entradas son alquileres abiertos.
spec fn cuenta(pares: Seq<(Seq<char>, Alquiler)>, n: nat) -> nat
    decreases n,
{
    if n == 0 {
        0
    } else {
        cuenta(pares, (n - 1) as nat) + if activo(pares[n - 1].1@) {
            1nat
        } else {
            0nat
        }
    }
}

/// Las claves de los alquileres abiertos entre las primeras `n` entradas.
spec fn claves_activas(pares: Seq<(Seq<char>, Alquiler)>, n: nat) -> Set<Seq<char>>
    decreases n,
{
    if n == 0 {
        Set::empty()
    } else if activo(pares[n - 1].1@) {
        claves_activas(pares, (n - 1) as nat).insert(pares[n - 1].0)
    } else {
        claves_activas(pares, (n - 1) as nat)
    }
}

proof fn lemma_claves_activas(pares: Seq<(Seq<char>, Alquiler)>, n: nat)
    requires
        n <= pares.len(),
        forall|i: int, j: int|
            0 <= i < j < pares.len() ==> (#[trigger] pares[i]).0 != (#[trigger] pares[j]).0,
    ensures
        claves_activas(pares, n).finite(),
        claves_activas(pares, n).len() == cuenta(pares, n),
        forall|k: Seq<char>|
            claves_activas(pares, n).contains(k) <==> exists|i: int|
                0 <= i < n && (#[trigger] pares[i]).0 == k && activo(pares[i].1@),
    decreases n,
{
    if n > 0 {
        let p = (n - 1) as nat;
        lemma_claves_activas(pares, p);
        assert(!claves_activas(pares, p).contains(pares[n - 1].0));
        assert forall|k: Seq<char>|
            claves_activas(pares, n).contains(k) <==> exists|i: int|
                0 <= i < n && (#[trigger] pares[i]).0 == k && activo(pares[i].1@) by {
            if claves_activas(pares, p).contains(k) {
                let i = choose|i: int|
                    0 <= i < p && (#[trigger] pares[i]).0 == k && activo(pares[i].1@);
                assert(pares[i].0 == k);
            }
            if exists|i: int| 0 <= i < n && (#[trigger] pares[i]).0 == k && activo(pares[i].1@) {
                let i = choose|i: int|
                    0 <= i < n && (#[trigger] pares[i]).0 == k && activo(pares[i].1@);
                if i < p {
                    assert(claves_activas(pares, p).contains(k));
                }
            }
        }
    }
}

impl View for Registro {
    type V = Map<Seq<char>, AlquilerVista>;

    closed spec fn view(&self) -> Map<Seq<char>, AlquilerVista> {
        self.alquileres@.map_values(|a: Alquiler| a@)
    }
}

impl Registro {
    /// Cada alquiler está guardado bajo su propio id.
    pub closed spec fn valido(self) -> bool {
        &&& self.alquileres.valida()
        &&& forall|k: Seq<char>| #[trigger]
            self.alquileres@.contains_key(k) ==> self.alquileres@[k].rental_id@ == k
    }

    /// Crea un registro vacío.
    pub fn new() -> (r: Self)
        ensures
            r.valido(),
            r@ == Map::<Seq<char>, AlquilerVista>::empty(),
    {
        let r = Registro { alquileres: Tabla::nueva() };
        assert(r@ =~= Map::<Seq<char>, AlquilerVista>::empty());
        r
    }

    /// Incorpora (o reemplaza) un alquiler al registro.
    pub fn agregar(&mut self, alquiler: Alquiler)
        requires
            old(self).valido(),
        ensures
            final(self).valido(),
            final(self)@ == old(self)@.insert(alquiler.rental_id@, alquiler@),
    {
        let clave = alquiler.rental_id.0.clone();
        let ghost antes = self@;
        let ghost vista = alquiler@;
        self.alquileres.poner(clave, alquiler);
        assert(self@ =~= antes.insert(vista.rental_id, vista));
    }

    /// Busca el alquiler **activo** de una bicicleta.
    pub fn buscar_por_bici(&self, bici_id: BiciId) -> (encontrado: Option<&Alquiler>)
        requires
            self.valido(),
        ensures
            encontrado matches Some(a) ==> es_activo_de(self@, a@, bici_id),
            encontrado is None ==> forall|a: AlquilerVista| !es_activo_de(self@, a, bici_id),
    {
        proof {
            self.alquileres.lemma_pares();
        }
        let n = self.alquileres.largo();
        let mut i: usize = 0;
        while i < n
            invariant
                self.valido(),
                i <= n,
                n == self.alquileres.pares().len(),
                forall|j: int|
                    0 <= j < i ==> !((#[trigger] self.alquileres.pares()[j]).1.bici_id == bici_id
                        && activo(self.alquileres.pares()[j].1@)),
                forall|j: int|
                    0 <= j < n ==> self@.contains_key((#[trigger] self.alquileres.pares()[j]).0)
                        && self@[self.alquileres.pares()[j].0] == self.alquileres.pares()[j].1@,
            decreases n - i,
        {
            let a = self.alquileres.valor(i);
            if a.bici_id == bici_id && a.estado == EstadoAlquiler::Activo {
                assert(self@.contains_key(self.alquileres.pares()[i as int].0));
                return Some(a);
            }
            i += 1;
        }
        assert forall|a: AlquilerVista| !es_activo_de(self@, a, bici_id) by {
            if es_activo_de(self@, a, bici_id) {
                let j = choose|j: int|
                    0 <= j < n && (#[trigger] self.alquileres.pares()[j]).0 == a.rental_id
                        && self.alquileres.pares()[j].1 == self.alquileres@[a.rental_id];
                assert(self.alquileres.pares()[j].1@ == a);
            }
        }
        None
    }

    /// El alquiler con ese id, si está.
    pub fn buscar(&self, rental_id: &RentalId) -> (encontrado: Option<&Alquiler>)
        requires
            self.valido(),
        ensures
            encontrado is Some <==> self@.contains_key(rental_id@),
            encontrado matches Some(a) ==> a@ == self@[rental_id@],
    {
        self.alquileres.buscar(&rental_id.0)
    }

    /// Los alquileres del registro, en algún orden.
    pub fn listar(&self) -> (lista: Vec<Alquiler>)
        requires
            self.valido(),
        ensures
            es_lista_de(vistas_de(lista@), self@),
    {
        let ghost pares = self.alquileres.pares();
        proof {
            self.alquileres.lemma_pares();
        }
        let n = self.alquileres.largo();
        let mut lista: Vec<Alquiler> = Vec::new();
        let mut i: usize = 0;
        while i < n
            invariant
                i <= n,
                n == pares.len(),
                pares == self.alquileres.pares(),
                lista@.len() == i,
                forall|j: int| 0 <= j < i ==> #[trigger] lista@[j] == pares[j].1,
            decreases n - i,
        {
            lista.push(self.alquileres.valor(i).clone());
            i += 1;
        }
        proof {
            let v = vistas_de(lista@);
            assert forall|j: int| 0 <= j < v.len() implies self@.contains_key(
                (#[trigger] v[j]).rental_id,
            ) && self@[v[j].rental_id] == v[j] by {
                assert(lista@[j] == pares[j].1);
                assert(self.alquileres@.contains_key(pares[j].0));
            }
            assert forall|j: int, k: int| 0 <= j < k < v.len() implies (#[trigger] v[j]).rental_id
                != (#[trigger] v[k]).rental_id by {
                assert(lista@[j] == pares[j].1 && lista@[k] == pares[k].1);
                assert(self.alquileres@.contains_key(pares[j].0));
                assert(self.alquileres@.contains_key(pares[k].0));
            }
            assert forall|id: Seq<char>| #[trigger] self@.contains_key(id) implies exists|j: int|
                0 <= j < v.len() && (#[trigger] v[j]).rental_id == id by {
                assert(self.alquileres@.contains_key(id));
                let j = choose|j: int|
                    0 <= j < pares.len() && (#[trigger] pares[j]).0 == id && pares[j].1
                        == self.alquileres@[id];
                assert(lista@[j] == pares[j].1);
                assert(v[j].rental_id == id);
            }
        }
        lista
    }

    /// Incorpora (o reemplaza) cada alquiler de una lista, en orden.
    pub fn consolidar(&mut self, lista: Vec<Alquiler>)
        requires
            old(self).valido(),
        ensures
            final(self).valido(),
            final(self)@ == consolidado(old(self)@, vistas_de(lista@)),
    {
        let mut i: usize = 0;
        while i < lista.len()
            invariant
                self.valido(),
                i <= lista@.len(),
                self@ == consolidado(old(self)@, vistas_de(lista@).take(i as int)),
            decreases lista@.len() - i,
        {
            proof {
                let v = vistas_de(lista@);
                assert(v.take(i + 1).drop_last() =~= v.take(i as int));
                assert(v.take(i + 1).last() == v[i as int]);
            }
            self.agregar(lista[i].clone());
            i += 1;
        }
        assert(vistas_de(lista@).take(i as int) =~= vistas_de(lista@));
    }

    /// Otro registro con los mismos alquileres.
    pub fn copia(&self) -> (r: Registro)
        requires
            self.valido(),
        ensures
            r.valido(),
            r@ == self@,
    {
        let mut r = Registro::new();
        let lista = self.listar();
        proof {
            let vacio = Map::<Seq<char>, AlquilerVista>::empty();
            lemma_consolidar_lista(vacio, vistas_de(lista@), self@);
            assert(vacio.union_prefer_right(self@) =~= self@);
        }
        r.consolidar(lista);
        r
    }

    /// Marca un alquiler como cerrado. Devuelve `true` si existía.
    pub fn cerrar(&mut self, rental_id: &RentalId) -> (existia: bool)
        requires
            old(self).valido(),
        ensures
            final(self).valido(),
            existia == old(self)@.contains_key(rental_id@),
            final(self)@ == tras_cerrar(old(self)@, rental_id@),
    {
        let mut alquiler = match self.alquileres.buscar(&rental_id.0) {
            Some(a) => a.clone(),
            None => {
                return false;
            },
        };
        alquiler.estado = EstadoAlquiler::Cerrado;
        let ghost antes = self@;
        let ghost vista = alquiler@;
        self.alquileres.poner(rental_id.0.clone(), alquiler);
        assert(self@ =~= antes.insert(rental_id@, vista));
        true
    }

    /// Cantidad de alquileres activos (para diagnóstico/consulta).
    pub fn activos(&self) -> (n: usize)
        requires
            self.valido(),
        ensures
            ids_activos(self@).finite(),
            n == ids_activos(self@).len(),
    {
        let total = self.alquileres.largo();
        let mut n: usize = 0;
        let mut i: usize = 0;
        while i < total
            invariant
                i <= total,
                total == self.alquileres.pares().len(),
                n == cuenta(self.alquileres.pares(), i as nat),
                n <= i,
            decreases total - i,
        {
            if self.alquileres.valor(i).estado == EstadoAlquiler::Activo {
                n += 1;
            }
            i += 1;
        }
        proof {
            let pares = self.alquileres.pares();
            self.alquileres.lemma_pares();
            lemma_claves_activas(pares, total as nat);
            let claves = claves_activas(pares, total as nat);
            assert forall|k: Seq<char>| claves.contains(k) <==> ids_activos(self@).contains(k) by {
                if claves.contains(k) {
                    let j = choose|j: int|
                        0 <= j < total && (#[trigger] pares[j]).0 == k && activo(pares[j].1@);
                    assert(self@.contains_key(pares[j].0));
                }
                if ids_activos(self@).contains(k) {
                    assert(self@.contains_key(k));
                }
            }
            assert(claves =~= ids_activos(self@));
        }
        n
    }
}

impl Default for Registro {
    /// Un registro vacío.
    fn default() -> (r: Self)
        ensures
            r.valido(),
            r@ == Map::<Seq<char>, AlquilerVista>::empty(),
    {
        Registro::new()
    }
}

// ---------------------------------------------------------------------------
// Leyes
// ---------------------------------------------------------------------------

/// En un registro, cada alquiler está bajo su propio id.
pub proof fn ley_clave_es_el_id(r: Registro)
    requires
        r.valido(),
    ensures
        forall|k: Seq<char>| #[trigger] r@.contains_key(k) ==> r@[k].rental_id == k,
{
}

/// Un alquiler abierto recién incorporado se encuentra por su bici.
pub proof fn ley_agregado_se_encuentra(m: Map<Seq<char>, AlquilerVista>, a: AlquilerVista)
    requires
        activo(a),
    ensures
        es_activo_de(m.insert(a.rental_id, a), a, a.bici_id),
{
}

/// Incorporar dos veces el mismo alquiler es incorporarlo una.
pub proof fn ley_agregar_idempotente(m: Map<Seq<char>, AlquilerVista>, a: AlquilerVista)
    ensures
        m.insert(a.rental_id, a).insert(a.rental_id, a) == m.insert(a.rental_id, a),
{
    assert(m.insert(a.rental_id, a).insert(a.rental_id, a) =~= m.insert(a.rental_id, a));
}

/// Un alquiler cerrado deja de contarse entre los activos, ya no se encuentra por
/// su bici, y los demás no cambian.
pub proof fn ley_cerrado_no_es_activo(m: Map<Seq<char>, AlquilerVista>, id: Seq<char>)
    ensures
        ids_activos(tras_cerrar(m, id)) == ids_activos(m).remove(id),
        forall|a: AlquilerVista, b: BiciId|
            a.rental_id == id ==> !#[trigger] es_activo_de(tras_cerrar(m, id), a, b),
        forall|k: Seq<char>|
            k != id && m.contains_key(k) ==> tras_cerrar(m, id)[k] == #[trigger] m[k],
{
    assert(ids_activos(tras_cerrar(m, id)) =~= ids_activos(m).remove(id));
}

/// Cerrar dos veces es cerrar una.
pub proof fn ley_cerrar_idempotente(m: Map<Seq<char>, AlquilerVista>, id: Seq<char>)
    ensures
        tras_cerrar(tras_cerrar(m, id), id) == tras_cerrar(m, id),
{
    assert(tras_cerrar(tras_cerrar(m, id), id) =~= tras_cerrar(m, id));
}

/// Los alquileres abiertos de un registro son los que están en él y no se cerraron; el de
/// una bici es uno de ellos que sea de esa bici.
pub proof fn ley_que_esta_abierto(
    m: Map<Seq<char>, AlquilerVista>,
    a: AlquilerVista,
    bici_id: BiciId,
    id: Seq<char>,
)
    ensures
        activo(a) <==> a.estado == EstadoAlquiler::Activo,
        ids_activos(m).contains(id) <==> m.contains_key(id) && m[id].estado
            == EstadoAlquiler::Activo,
        es_activo_de(m, a, bici_id) <==> m.contains_key(a.rental_id) && m[a.rental_id] == a
            && a.bici_id == bici_id && a.estado == EstadoAlquiler::Activo,
{
}

/// Cerrar un alquiler le cambia el estado y nada más: sigue en el registro, con su bici, su
/// usuario, su inicio y su pre-autorización. Cerrar uno que no está no hace nada.
pub proof fn ley_lo_que_cambia_al_cerrar(m: Map<Seq<char>, AlquilerVista>, id: Seq<char>)
    ensures
        tras_cerrar(m, id).dom() == m.dom(),
        !m.contains_key(id) ==> tras_cerrar(m, id) == m,
        m.contains_key(id) ==> {
            let (antes, despues) = (m[id], tras_cerrar(m, id)[id]);
            &&& despues.estado == EstadoAlquiler::Cerrado
            &&& despues.rental_id == antes.rental_id
            &&& despues.bici_id == antes.bici_id
            &&& despues.usuario_id == antes.usuario_id
            &&& despues.estacion_origen == antes.estacion_origen
            &&& despues.inicio == antes.inicio
            &&& despues.fin == antes.fin
            &&& despues.preauth_id == antes.preauth_id
        },
{
    assert(tras_cerrar(m, id).dom() =~= m.dom());
}

/// La lista de un registro tiene todos sus alquileres, como están en él, y ninguno más ni
/// repetido: con ella se lo puede volver a armar.
pub proof fn ley_la_lista_es_el_registro(
    lista: Seq<AlquilerVista>,
    m: Map<Seq<char>, AlquilerVista>,
    id: Seq<char>,
    i: int,
    j: int,
)
    requires
        es_lista_de(lista, m),
    ensures
        m.contains_key(id) ==> exists|n: int|
            0 <= n < lista.len() && (#[trigger] lista[n]).rental_id == id && lista[n] == m[id],
        0 <= i < lista.len() ==> m.contains_key(lista[i].rental_id) && m[lista[i].rental_id]
            == lista[i],
        0 <= i < j < lista.len() ==> lista[i].rental_id != lista[j].rental_id,
        consolidado(Map::<Seq<char>, AlquilerVista>::empty(), lista) == m,
{
    let vacio = Map::<Seq<char>, AlquilerVista>::empty();
    lemma_consolidar_lista(vacio, lista, m);
    assert(vacio.union_prefer_right(m) =~= m);
    if m.contains_key(id) {
        let n = choose|n: int| 0 <= n < lista.len() && (#[trigger] lista[n]).rental_id == id;
        assert(lista[n] == m[id]);
    }
}

/// Incorporar una lista es incorporar sus alquileres de a uno, en orden.
pub proof fn ley_consolidar_de_a_uno(
    m: Map<Seq<char>, AlquilerVista>,
    lista: Seq<AlquilerVista>,
    a: AlquilerVista,
)
    ensures
        consolidado(m, Seq::<AlquilerVista>::empty()) == m,
        consolidado(m, lista.push(a)) == consolidado(m, lista).insert(a.rental_id, a),
{
    assert(lista.push(a).drop_last() =~= lista);
}

} // verus!
