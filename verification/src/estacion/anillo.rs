//! Leyes de la elección por anillo: las de cada nodo y las de una elección
//! completa entre todos los nodos.

use vstd::prelude::*;

use crate::comun::ids::EstacionId;
use crate::estacion::eleccion::{creciente, mayor, AccionVista, EstadoLider, MensajeRing, NodoRing};

verus! {

// ---------------------------------------------------------------------------
// Leyes de un nodo
// ---------------------------------------------------------------------------

/// El ganador está entre los ids reunidos y ninguno lo supera.
pub proof fn ley_gana_el_mayor(ids: Seq<EstacionId>, defecto: EstacionId)
    requires
        ids.len() > 0,
    ensures
        ids.contains(mayor(ids, defecto)),
        forall|x: EstacionId| ids.contains(x) ==> x.0 <= mayor(ids, defecto).0,
    decreases ids.len(),
{
    let m = mayor(ids, defecto);
    if ids.len() == 1 {
        assert(ids[0] == m);
    } else {
        let previos = ids.drop_last();
        ley_gana_el_mayor(previos, defecto);
        let p = mayor(previos, defecto);
        assert(ids[previos.index_of(p)] == p);
        assert(ids[ids.len() - 1] == ids.last());
        assert forall|x: EstacionId| ids.contains(x) implies x.0 <= m.0 by {
            let i = ids.index_of(x);
            assert(ids[i] == x);
            if i < ids.len() - 1 {
                assert(previos[i] == x);
                assert(previos.contains(x));
            }
        }
    }
}

/// Dos recorridos que reunieron los mismos ids eligen al mismo ganador, en
/// cualquier orden que los hayan juntado y sea quien sea el que cierra.
pub proof fn ley_mismos_ids_mismo_ganador(
    a: Seq<EstacionId>,
    b: Seq<EstacionId>,
    cierra_a: EstacionId,
    cierra_b: EstacionId,
)
    requires
        a.len() > 0,
        forall|x: EstacionId| a.contains(x) <==> b.contains(x),
    ensures
        mayor(a, cierra_a) == mayor(b, cierra_b),
{
    assert(a.contains(a[0]));
    assert(b.contains(a[0]));
    ley_gana_el_mayor(a, cierra_a);
    ley_gana_el_mayor(b, cierra_b);
    let x = mayor(a, cierra_a);
    let y = mayor(b, cierra_b);
    assert(b.contains(x) && a.contains(y));
    assert(x.0 == y.0);
}

/// Dos nodos que cierran a la vez sendas elecciones, en el mismo término y con los
/// mismos ids, anuncian lo mismo; y el que ya adoptó un anuncio ignora el otro.
pub proof fn ley_elecciones_simultaneas(
    a: NodoRing,
    ids_a: Seq<EstacionId>,
    b: NodoRing,
    ids_b: Seq<EstacionId>,
    n: NodoRing,
)
    requires
        a.term == b.term,
        a.term < u64::MAX,
        ids_a.len() > 0,
        forall|x: EstacionId| ids_a.contains(x) <==> ids_b.contains(x),
    ensures
        ({
            let (ra, rb) = (a.cerrar(ids_a).0, b.cerrar(ids_b).0);
            let lider = mayor(ids_a, a.mi_id);
            let n1 = n.recibir_coordinator(lider, ra.term).0;
            &&& ra.estado == EstadoLider::Conocido(lider)
            &&& rb.estado == EstadoLider::Conocido(lider)
            &&& ra.term == rb.term
            &&& n1.recibir_coordinator(mayor(ids_b, b.mi_id), rb.term) == (
                n1,
                AccionVista::Ignorar,
            )
        }),
{
    ley_mismos_ids_mismo_ganador(ids_a, ids_b, a.mi_id, b.mi_id);
}

/// El siguiente de un nodo es otro nodo del anillo: el menor de los que lo
/// superan, o el menor de todos si ninguno lo supera.
pub proof fn ley_siguiente(n: NodoRing)
    requires
        n.valido(),
        n.anillo.len() >= 2,
    ensures
        n.siguiente() is Some,
        n.anillo.contains(n.siguiente()->0),
        n.siguiente()->0 != n.mi_id,
        ({
            let s = n.siguiente()->0;
            if exists|x: EstacionId| n.anillo.contains(x) && x.0 > n.mi_id.0 {
                &&& s.0 > n.mi_id.0
                &&& forall|x: EstacionId| n.anillo.contains(x) && x.0 > n.mi_id.0 ==> s.0 <= x.0
            } else {
                forall|x: EstacionId| n.anillo.contains(x) ==> s.0 <= x.0
            }
        }),
{
    let a = n.anillo;
    let p = a.index_of(n.mi_id);
    assert(a[p] == n.mi_id);
    lemma_siguiente_de(n, p);
    let s = n.siguiente()->0;
    assert(a[pos(p, 1, a.len() as int)] == s);
    assert forall|x: EstacionId| a.contains(x) && x.0 > n.mi_id.0 implies s.0 <= x.0 && p + 1
        < a.len() by {
        let q = a.index_of(x);
        assert(a[q] == x);
        assert(q > p);
    }
    if p + 1 < a.len() {
        assert(a.contains(a[p + 1]) && a[p + 1].0 > n.mi_id.0);
    } else {
        assert forall|x: EstacionId| a.contains(x) implies s.0 <= x.0 by {
            let q = a.index_of(x);
            assert(a[q] == x);
        }
    }
}

/// El que sigue a cualquier nodo del anillo es el menor de los que lo superan, o el menor de
/// todos si ninguno lo supera.
pub proof fn ley_siguiente_de_cualquiera(n: NodoRing, id: EstacionId)
    requires
        creciente(n.anillo),
        n.anillo.contains(id),
    ensures
        n.anillo.contains(n.siguiente_de(id)),
        ({
            let s = n.siguiente_de(id);
            if exists|x: EstacionId| n.anillo.contains(x) && x.0 > id.0 {
                &&& s.0 > id.0
                &&& forall|x: EstacionId| n.anillo.contains(x) && x.0 > id.0 ==> s.0 <= x.0
            } else {
                forall|x: EstacionId| n.anillo.contains(x) ==> s.0 <= x.0
            }
        }),
{
    if n.anillo.len() >= 2 {
        ley_siguiente(NodoRing { mi_id: id, ..n });
    } else {
        let i = n.anillo.index_of(id);
        assert(n.anillo[i] == id);
        assert(n.anillo.len() == 1);
        lemma_siguiente_de(n, 0);
        assert forall|x: EstacionId| n.anillo.contains(x) implies x == id by {
            assert(n.anillo[n.anillo.index_of(x)] == x);
        }
    }
}

/// Lo que hace un nodo al arrancar una elección: le manda al siguiente un `Election` con su
/// id, y queda en elección. Si está solo, se proclama en un término nuevo.
pub proof fn ley_lo_que_hace_iniciar(n: NodoRing)
    requires
        n.valido(),
    ensures
        n.anillo.len() >= 2 ==> {
            &&& n.iniciar().0 == (NodoRing { estado: EstadoLider::EnEleccion, ..n })
            &&& n.iniciar().1 matches AccionVista::Reenviar {
                destino,
                mensaje: MensajeRing::Election { ids, iniciador },
            }
            &&& Some(destino) == n.siguiente()
            &&& ids == seq![n.mi_id]
            &&& iniciador == n.mi_id
        },
        n.anillo.len() == 1 && n.term < u64::MAX ==> {
            &&& n.iniciar().0.estado == EstadoLider::Conocido(n.mi_id)
            &&& n.iniciar().0.term == n.term + 1
            &&& n.iniciar().0.mi_id == n.mi_id && n.iniciar().0.anillo == n.anillo
            &&& n.iniciar().1 is AsumirYReenviar
        },
{
}

/// Lo que hace un nodo con un `Election` que no inició: queda en elección y, si su id no
/// estaba, lo agrega y se lo manda al siguiente; si estaba, no lo manda más.
pub proof fn ley_lo_que_hace_con_un_election(
    n: NodoRing,
    ids: Seq<EstacionId>,
    iniciador: EstacionId,
)
    requires
        n.valido(),
        iniciador != n.mi_id,
    ensures
        n.recibir_election(ids, iniciador).0 == (NodoRing { estado: EstadoLider::EnEleccion, ..n }),
        ids.contains(n.mi_id) || n.anillo.len() < 2 ==> n.recibir_election(ids, iniciador).1
            is Ignorar,
        !ids.contains(n.mi_id) && n.anillo.len() >= 2 ==> {
            &&& n.recibir_election(ids, iniciador).1 matches AccionVista::Reenviar {
                destino,
                mensaje: MensajeRing::Election { ids: juntos, iniciador: quien },
            }
            &&& Some(destino) == n.siguiente()
            &&& juntos == ids.push(n.mi_id)
            &&& quien == iniciador
        },
{
}

/// Lo que hace un nodo con el `Election` que inició, cuando vuelve: reconoce en un término
/// nuevo al mayor de los que juntó, y lo anuncia. Si es él mismo, asume; si no, se lo manda
/// al siguiente.
pub proof fn ley_lo_que_hace_al_cerrar(n: NodoRing, ids: Seq<EstacionId>, ganador: EstacionId)
    requires
        n.valido(),
        n.term < u64::MAX,
        ids.contains(ganador),
        forall|x: EstacionId| ids.contains(x) ==> x.0 <= ganador.0,
    ensures
        ({
            let (t, accion) = n.recibir_election(ids, n.mi_id);
            &&& t.estado == EstadoLider::Conocido(ganador)
            &&& t.term == n.term + 1
            &&& t.mi_id == n.mi_id && t.anillo == n.anillo
            &&& ganador == n.mi_id ==> accion == (AccionVista::AsumirYReenviar {
                destino: n.siguiente(),
                mensaje: MensajeRing::Coordinator { lider: ganador, term: t.term },
            })
            &&& ganador != n.mi_id && n.anillo.len() >= 2 ==> accion == (AccionVista::Reenviar {
                destino: n.siguiente()->0,
                mensaje: MensajeRing::Coordinator { lider: ganador, term: t.term },
            })
        }),
{
    ley_gana_el_mayor(ids, n.mi_id);
    let m = mayor(ids, n.mi_id);
    assert(m.0 == ganador.0);
}

/// Lo que hace un nodo con un `Coordinator`: si su término es mayor que el propio, o igual y
/// nombra a otro que el que reconocía, lo adopta y lo anuncia; si no, no hace nada.
pub proof fn ley_lo_que_hace_con_un_coordinator(n: NodoRing, lider: EstacionId, term: u64)
    ensures
        ({
            let (t, accion) = n.recibir_coordinator(lider, term);
            let nuevo = term > n.term || term == n.term && n.estado != EstadoLider::Conocido(lider);
            &&& n.anuncio_viejo(lider, term) <==> !nuevo
            &&& nuevo ==> {
                &&& t.estado == EstadoLider::Conocido(lider)
                &&& t.term == term
                &&& t.mi_id == n.mi_id && t.anillo == n.anillo
                &&& lider == n.mi_id ==> accion == (AccionVista::AsumirYReenviar {
                    destino: n.siguiente(),
                    mensaje: MensajeRing::Coordinator { lider, term },
                })
                &&& lider != n.mi_id && n.anillo.len() >= 2 ==> accion == (AccionVista::Reenviar {
                    destino: n.siguiente()->0,
                    mensaje: MensajeRing::Coordinator { lider, term },
                })
                &&& lider != n.mi_id && n.anillo.len() < 2 ==> accion is Ignorar
            }
            &&& !nuevo ==> t == n && accion is Ignorar
        }),
{
}

/// Lo que hace un nodo con un mensaje: el `Election` y el `Coordinator`, cada uno lo suyo;
/// cualquier otro, nada.
pub proof fn ley_cada_mensaje_lo_suyo(n: NodoRing, ids: Seq<EstacionId>, x: EstacionId, term: u64)
    ensures
        n.recibir(MensajeRing::Election { ids, iniciador: x }) == n.recibir_election(ids, x),
        n.recibir(MensajeRing::Coordinator { lider: x, term }) == n.recibir_coordinator(x, term),
        n.recibir(MensajeRing::Ajeno) == (n, AccionVista::Ignorar),
{
}

/// Lo que hace un nodo cuando `caida` no recibe un mensaje: se lo manda, igual, a la que le
/// sigue a ella; si la que sigue es él mismo, lo toma como recibido.
pub proof fn ley_lo_que_hace_al_saltear(n: NodoRing, caida: EstacionId, mensaje: MensajeRing)
    requires
        n.valido(),
        mensaje !is Ajeno,
    ensures
        !n.anillo.contains(caida) ==> n.saltear(caida, mensaje) == (n, AccionVista::Ignorar),
        n.anillo.contains(caida) && n.siguiente_de(caida) != n.mi_id ==> n.saltear(caida, mensaje)
            == (n, AccionVista::Reenviar { destino: n.siguiente_de(caida), mensaje }),
        n.anillo.contains(caida) && n.siguiente_de(caida) == n.mi_id ==> n.saltear(caida, mensaje)
            == n.recibir(mensaje),
{
}

/// Lo que manda una acción.
pub proof fn ley_lo_que_manda_una_accion(destino: EstacionId, mensaje: MensajeRing)
    ensures
        envio(AccionVista::Ignorar) is None,
        envio(AccionVista::Reenviar { destino, mensaje }) == Some((destino, mensaje)),
        envio(AccionVista::AsumirYReenviar { destino: Some(destino), mensaje }) == Some(
            (destino, mensaje),
        ),
        envio(AccionVista::AsumirYReenviar { destino: None, mensaje }) is None,
{
}

/// El término de un nodo nunca retrocede.
pub proof fn ley_term_no_retrocede(
    n: NodoRing,
    ids: Seq<EstacionId>,
    iniciador: EstacionId,
    lider: EstacionId,
    term: u64,
    caida: EstacionId,
    mensaje: MensajeRing,
)
    requires
        n.term < u64::MAX,
    ensures
        n.iniciar().0.term >= n.term,
        n.saltear(caida, mensaje).0.term >= n.term,
        n.recibir_election(ids, iniciador).0.term >= n.term,
        n.recibir_coordinator(lider, term).0.term >= n.term,
{
}

/// Cerrar una elección abre un término nuevo.
pub proof fn ley_cerrar_incrementa_el_term(n: NodoRing, ids: Seq<EstacionId>)
    requires
        n.term < u64::MAX,
    ensures
        n.recibir_election(ids, n.mi_id).0.term == n.term + 1,
        n.recibir_election(ids, n.mi_id).0.estado == EstadoLider::Conocido(mayor(ids, n.mi_id)),
{
}

/// Un `Coordinator` repetido no cambia nada ni se reenvía: los anuncios son
/// idempotentes y el que da la vuelta completa se detiene.
pub proof fn ley_coordinator_idempotente(n: NodoRing, lider: EstacionId, term: u64)
    ensures
        ({
            let tras_el_primero = n.recibir_coordinator(lider, term).0;
            tras_el_primero.recibir_coordinator(lider, term) == (
                tras_el_primero,
                AccionVista::Ignorar,
            )
        }),
{
}

/// Un anuncio con un término mayor se adopta siempre, aunque nombre a otro: un
/// líder que vuelve de una caída deja de serlo.
pub proof fn ley_term_mayor_se_adopta(n: NodoRing, lider: EstacionId, term: u64)
    requires
        term > n.term,
    ensures
        n.recibir_coordinator(lider, term).0.estado == EstadoLider::Conocido(lider),
        n.recibir_coordinator(lider, term).0.term == term,
        lider != n.mi_id ==> !(n.recibir_coordinator(lider, term).1 is AsumirYReenviar),
{
}

/// Un anuncio con un término menor se descarta.
pub proof fn ley_term_menor_se_descarta(n: NodoRing, lider: EstacionId, term: u64)
    requires
        term < n.term,
    ensures
        n.recibir_coordinator(lider, term) == (n, AccionVista::Ignorar),
{
}

/// Un nodo nunca deja pasar dos veces el mismo `Election`: si ya está en la lista
/// y no lo inició, no lo reenvía.
pub proof fn ley_election_no_gira_para_siempre(
    n: NodoRing,
    ids: Seq<EstacionId>,
    iniciador: EstacionId,
)
    requires
        iniciador != n.mi_id,
        ids.contains(n.mi_id),
    ensures
        n.recibir_election(ids, iniciador).1 == AccionVista::Ignorar,
{
}

// ---------------------------------------------------------------------------
// Una elección completa
// ---------------------------------------------------------------------------

/// Todos los nodos de un anillo, por posición, y el mensaje que está viajando.
pub struct Red {
    pub nodos: Seq<NodoRing>,
    pub vuelo: Option<(EstacionId, MensajeRing)>,
    /// Cantidad de mensajes enviados.
    pub enviados: nat,
}

/// El envío que pide una acción.
pub open spec fn envio(a: AccionVista) -> Option<(EstacionId, MensajeRing)> {
    match a {
        AccionVista::Ignorar => None,
        AccionVista::Reenviar { destino, mensaje } => Some((destino, mensaje)),
        AccionVista::AsumirYReenviar { destino: Some(destino), mensaje } => Some(
            (destino, mensaje),
        ),
        AccionVista::AsumirYReenviar { destino: None, mensaje } => None,
    }
}

/// La posición que está `k` lugares más adelante que `i` en un anillo de `n`.
pub open spec fn pos(i: int, k: int, n: int) -> int {
    if i + k < n {
        i + k
    } else {
        i + k - n
    }
}

impl Red {
    /// Cada nodo está en su lugar del anillo y todos conocen el mismo anillo.
    pub open spec fn valida(self, anillo: Seq<EstacionId>) -> bool {
        &&& creciente(anillo)
        &&& self.nodos.len() == anillo.len()
        &&& forall|p: int|
            0 <= p < anillo.len() ==> (#[trigger] self.nodos[p]).mi_id == anillo[p]
                && self.nodos[p].anillo == anillo
    }

    /// El nodo `p` hizo lo que dice `paso`: cambia de estado y envía.
    pub open spec fn con_paso(self, p: int, paso: (NodoRing, AccionVista)) -> Red {
        Red {
            nodos: self.nodos.update(p, paso.0),
            vuelo: envio(paso.1),
            enviados: if envio(paso.1) is Some {
                self.enviados + 1
            } else {
                self.enviados
            },
        }
    }

    /// El nodo de la posición `i` arranca una elección.
    pub open spec fn iniciar(self, i: int) -> Red {
        self.con_paso(i, self.nodos[i].iniciar())
    }

    /// Entrega el mensaje que está viajando.
    pub open spec fn entregar(self, anillo: Seq<EstacionId>) -> Red {
        match self.vuelo {
            None => self,
            Some((destino, mensaje)) => {
                let p = anillo.index_of(destino);
                self.con_paso(p, self.nodos[p].recibir(mensaje))
            },
        }
    }

    /// El mensaje que está viajando es un `Election`.
    pub open spec fn viaja_election(self) -> bool {
        self.vuelo matches Some((_, mensaje)) && mensaje is Election
    }

    /// El mensaje que está viajando anuncia a `lider` en `term`.
    pub open spec fn viaja_anuncio(self, lider: EstacionId, term: int) -> bool {
        self.vuelo matches Some((_, MensajeRing::Coordinator { lider: l, term: t })) && l == lider
            && t == term
    }

    /// El mensaje que está viajando es para `destino`.
    pub open spec fn viaja_a(self, destino: EstacionId) -> bool {
        self.vuelo matches Some((d, _)) && d == destino
    }

    /// Lo que hace el que recibe el mensaje que está viajando.
    pub open spec fn reaccion(self, anillo: Seq<EstacionId>) -> AccionVista {
        match self.vuelo {
            None => AccionVista::Ignorar,
            Some((destino, mensaje)) => self.nodos[anillo.index_of(destino)].recibir(mensaje).1,
        }
    }

    /// Entrega `k` mensajes, uno tras otro.
    pub open spec fn entregas(self, anillo: Seq<EstacionId>, k: nat) -> Red
        decreases k,
    {
        if k == 0 {
            self
        } else {
            self.entregas(anillo, (k - 1) as nat).entregar(anillo)
        }
    }
}

/// Los `m` ids que siguen a la posición `i`, contándola, en el orden del anillo.
pub open spec fn tramo(anillo: Seq<EstacionId>, i: int, m: nat) -> Seq<EstacionId> {
    Seq::new(m, |j: int| anillo[pos(i, j, anillo.len() as int)])
}

pub(crate) proof fn lemma_distintos(anillo: Seq<EstacionId>, p: int)
    requires
        creciente(anillo),
        0 <= p < anillo.len(),
    ensures
        anillo.index_of(anillo[p]) == p,
{
    let q = anillo.index_of(anillo[p]);
    assert(anillo.contains(anillo[p]));
    assert(anillo[q] == anillo[p]);
}

pub(crate) proof fn lemma_siguiente_de(n: NodoRing, p: int)
    requires
        creciente(n.anillo),
        0 <= p < n.anillo.len(),
    ensures
        n.siguiente_de(n.anillo[p]) == n.anillo[pos(p, 1, n.anillo.len() as int)],
{
    lemma_distintos(n.anillo, p);
    let len = n.anillo.len() as int;
    if p + 1 < len {
        vstd::arithmetic::div_mod::lemma_small_mod((p + 1) as nat, len as nat);
    } else {
        vstd::arithmetic::div_mod::lemma_mod_self_0(len);
    }
}

/// El estado de la red tras `k` entregas del `Election` que inició `i`.
spec fn fase_election(red0: Red, red: Red, anillo: Seq<EstacionId>, i: int, k: int) -> bool {
    let n = anillo.len() as int;
    &&& red.valida(anillo)
    &&& forall|p: int| 0 <= p < n ==> (#[trigger] red.nodos[p]).term == red0.nodos[p].term
    &&& forall|j: int|
        #![trigger pos(i, j, n)]
        0 <= j <= k ==> red.nodos[pos(i, j, n)].estado == EstadoLider::EnEleccion
    &&& red.enviados == red0.enviados + k + 1
    &&& red.vuelo == Some(
        (
            anillo[pos(i, k + 1, n)],
            MensajeRing::Election { ids: tramo(anillo, i, (k + 1) as nat), iniciador: anillo[i] },
        ),
    )
}

proof fn lemma_fase_election(red0: Red, anillo: Seq<EstacionId>, i: int, k: nat)
    requires
        red0.valida(anillo),
        anillo.len() >= 2,
        0 <= i < anillo.len(),
        k < anillo.len(),
    ensures
        fase_election(red0, red0.iniciar(i).entregas(anillo, k), anillo, i, k as int),
    decreases k,
{
    let n = anillo.len() as int;
    if k == 0 {
        lemma_siguiente_de(red0.nodos[i], i);
        assert(tramo(anillo, i, 1) =~= seq![anillo[i]]);
    } else {
        let previa = (k - 1) as nat;
        lemma_fase_election(red0, anillo, i, previa);
        let red = red0.iniciar(i).entregas(anillo, previa);
        let p = pos(i, k as int, n);
        let nodo = red.nodos[p];
        lemma_distintos(anillo, p);
        lemma_siguiente_de(nodo, p);
        let ids = tramo(anillo, i, k);
        assert(!ids.contains(anillo[p])) by {
            if ids.contains(anillo[p]) {
                let j = ids.index_of(anillo[p]);
                assert(ids[j] == anillo[p]);
                lemma_distintos(anillo, pos(i, j, n));
            }
        }
        assert(anillo[i] != anillo[p]) by {
            lemma_distintos(anillo, i);
        }
        assert(tramo(anillo, i, (k + 1) as nat) =~= ids.push(anillo[p]));
        assert(pos(p, 1, n) == pos(i, k as int + 1, n));
    }
}

/// El estado de la red tras `k` entregas del `Coordinator` que emitió `i`.
spec fn fase_coordinator(red0: Red, red: Red, anillo: Seq<EstacionId>, i: int, k: int) -> bool {
    let n = anillo.len() as int;
    let term = (red0.nodos[i].term + 1) as u64;
    &&& red.valida(anillo)
    &&& forall|j: int|
        #![trigger pos(i, j, n)]
        0 <= j <= k ==> red.nodos[pos(i, j, n)].estado == EstadoLider::Conocido(anillo.last())
            && red.nodos[pos(i, j, n)].term == term
    &&& forall|j: int|
        #![trigger pos(i, j, n)]
        k < j < n ==> red.nodos[pos(i, j, n)].estado == EstadoLider::EnEleccion
            && red.nodos[pos(i, j, n)].term <= term
    &&& red.enviados == red0.enviados + n + 1 + k
    &&& red.vuelo == Some(
        (anillo[pos(i, k + 1, n)], MensajeRing::Coordinator { lider: anillo.last(), term }),
    )
}

proof fn lemma_gana_el_ultimo(anillo: Seq<EstacionId>, i: int)
    requires
        creciente(anillo),
        0 <= i < anillo.len(),
    ensures
        mayor(tramo(anillo, i, anillo.len()), anillo[i]) == anillo.last(),
{
    let n = anillo.len() as int;
    let ids = tramo(anillo, i, anillo.len());
    ley_gana_el_mayor(ids, anillo[i]);
    let ultimo = anillo.last();
    let j = if i == n - 1 {
        0
    } else {
        n - 1 - i
    };
    assert(ids[j] == ultimo);
    assert(ids.contains(ultimo));
    let m = mayor(ids, anillo[i]);
    let q = ids.index_of(m);
    assert(ids[q] == m);
    assert(anillo[pos(i, q, n)] == m);
    assert(m.0 <= ultimo.0);
}

proof fn lemma_fase_coordinator(red0: Red, anillo: Seq<EstacionId>, i: int, k: nat)
    requires
        red0.valida(anillo),
        anillo.len() >= 2,
        0 <= i < anillo.len(),
        k < anillo.len(),
        red0.nodos[i].term < u64::MAX,
        forall|p: int|
            0 <= p < anillo.len() ==> (#[trigger] red0.nodos[p]).term <= red0.nodos[i].term
                + 1,
    ensures
        fase_coordinator(
            red0,
            red0.iniciar(i).entregas(anillo, anillo.len() + k),
            anillo,
            i,
            k as int,
        ),
    decreases k,
{
    let n = anillo.len() as int;
    if k == 0 {
        let previa = (n - 1) as nat;
        lemma_fase_election(red0, anillo, i, previa);
        let red = red0.iniciar(i).entregas(anillo, previa);
        assert(red0.iniciar(i).entregas(anillo, anillo.len() + 0) == red.entregar(anillo));
        assert(pos(i, n, n) == i);
        lemma_distintos(anillo, i);
        lemma_siguiente_de(red.nodos[i], i);
        lemma_gana_el_ultimo(anillo, i);
    } else {
        let previa = (k - 1) as nat;
        lemma_fase_coordinator(red0, anillo, i, previa);
        let red = red0.iniciar(i).entregas(anillo, anillo.len() + previa);
        assert((anillo.len() + k - 1) as nat == anillo.len() + previa);
        assert(red0.iniciar(i).entregas(anillo, anillo.len() + k) == red.entregar(anillo));
        let p = pos(i, k as int, n);
        lemma_distintos(anillo, p);
        lemma_siguiente_de(red.nodos[p], p);
        assert(pos(p, 1, n) == pos(i, k as int + 1, n));
    }
}

/// La reacción a la entrega `k`: quien ya pasó el mensaje lo reenvía, asume el de id
/// mayor cuando le llega el resultado, y el anuncio se detiene donde empezó.
proof fn lemma_reaccion(red0: Red, anillo: Seq<EstacionId>, i: int, k: nat)
    requires
        red0.valida(anillo),
        anillo.len() >= 2,
        0 <= i < anillo.len(),
        k < 2 * anillo.len(),
        red0.nodos[i].term < u64::MAX,
        forall|p: int|
            0 <= p < anillo.len() ==> (#[trigger] red0.nodos[p]).term <= red0.nodos[i].term
                + 1,
    ensures
        ({
            let red = red0.iniciar(i).entregas(anillo, k);
            &&& k < anillo.len() ==> red.viaja_election()
            &&& k >= anillo.len() ==> red.viaja_anuncio(anillo.last(), red0.nodos[i].term + 1)
            &&& red.reaccion(anillo) is AsumirYReenviar <==> k == 2 * anillo.len() - 2 - i
            &&& k == 2 * anillo.len() - 2 - i ==> red.viaja_a(anillo.last())
            &&& red.reaccion(anillo) is Ignorar <==> k == 2 * anillo.len() - 1
            &&& k == 2 * anillo.len() - 1 ==> red.viaja_a(anillo[i])
        }),
{
    let n = anillo.len() as int;
    let red = red0.iniciar(i).entregas(anillo, k);
    lemma_distintos(anillo, n - 1);
    if k < n {
        lemma_fase_election(red0, anillo, i, k);
        let p = pos(i, k as int + 1, n);
        lemma_distintos(anillo, p);
        lemma_distintos(anillo, i);
        lemma_siguiente_de(red.nodos[p], p);
        let ids = tramo(anillo, i, (k + 1) as nat);
        if k < n - 1 {
            assert(!ids.contains(anillo[p])) by {
                if ids.contains(anillo[p]) {
                    let j = ids.index_of(anillo[p]);
                    assert(ids[j] == anillo[p]);
                    lemma_distintos(anillo, pos(i, j, n));
                }
            }
        } else {
            assert(p == i);
            lemma_gana_el_ultimo(anillo, i);
        }
    } else {
        let j = (k - n) as nat;
        lemma_fase_coordinator(red0, anillo, i, j);
        assert(anillo.len() + j == k);
        let p = pos(i, j as int + 1, n);
        lemma_distintos(anillo, p);
        lemma_distintos(anillo, i);
        lemma_siguiente_de(red.nodos[p], p);
        assert(pos(i, 0, n) == i);
    }
}

/// Una elección en un anillo de `n` nodos que funcionan, ninguno en un término mayor
/// que el siguiente al del iniciador, son `n` mensajes `Election` y después `n`
/// `Coordinator` que anuncian al de id mayor. Terminado el último no queda ninguno
/// viajando, y todos los nodos reconocen al de id mayor, en el término siguiente al del
/// iniciador. Ese nodo es el único que asume, una sola vez, y el anuncio se detiene en el
/// iniciador.
pub proof fn ley_eleccion_completa(red0: Red, anillo: Seq<EstacionId>, i: int)
    requires
        red0.valida(anillo),
        anillo.len() >= 2,
        0 <= i < anillo.len(),
        red0.nodos[i].term < u64::MAX,
        forall|p: int|
            0 <= p < anillo.len() ==> (#[trigger] red0.nodos[p]).term <= red0.nodos[i].term
                + 1,
    ensures
        ({
            let red = red0.iniciar(i).entregas(anillo, 2 * anillo.len());
            &&& red.vuelo is None
            &&& red.enviados == red0.enviados + 2 * anillo.len()
            &&& forall|p: int|
                0 <= p < anillo.len() ==> (#[trigger] red.nodos[p]).estado
                    == EstadoLider::Conocido(anillo.last()) && red.nodos[p].term
                    == red0.nodos[i].term + 1
            &&& forall|x: EstacionId| anillo.contains(x) ==> x.0 <= anillo.last().0
        }),
        // Los mensajes que viajan.
        forall|k: nat|
            k < anillo.len() ==> (#[trigger] red0.iniciar(i).entregas(anillo, k)).viaja_election(),
        forall|k: nat|
            anillo.len() <= k < 2 * anillo.len() ==> (#[trigger] red0.iniciar(i).entregas(
                anillo,
                k,
            )).viaja_anuncio(anillo.last(), red0.nodos[i].term + 1),
        // Quién asume: el que inicia no, y de las entregas, una sola.
        !(red0.nodos[i].iniciar().1 is AsumirYReenviar),
        forall|k: nat|
            k < 2 * anillo.len() ==> ((#[trigger] red0.iniciar(i).entregas(anillo, k)).reaccion(
                anillo,
            ) is AsumirYReenviar <==> k == 2 * anillo.len() - 2 - i),
        red0.iniciar(i).entregas(anillo, (2 * anillo.len() - 2 - i) as nat).viaja_a(anillo.last()),
        // Dónde termina: solo la última entrega se ignora, y es al iniciador.
        forall|k: nat|
            k < 2 * anillo.len() ==> ((#[trigger] red0.iniciar(i).entregas(anillo, k)).reaccion(
                anillo,
            ) is Ignorar <==> k == 2 * anillo.len() - 1),
        red0.iniciar(i).entregas(anillo, (2 * anillo.len() - 1) as nat).viaja_a(anillo[i]),
{
    assert forall|k: nat| k < 2 * anillo.len() implies {
        let red = #[trigger] red0.iniciar(i).entregas(anillo, k);
        &&& k < anillo.len() ==> red.viaja_election()
        &&& k >= anillo.len() ==> red.viaja_anuncio(anillo.last(), red0.nodos[i].term + 1)
        &&& red.reaccion(anillo) is AsumirYReenviar <==> k == 2 * anillo.len() - 2 - i
        &&& red.reaccion(anillo) is Ignorar <==> k == 2 * anillo.len() - 1
    } by {
        lemma_reaccion(red0, anillo, i, k);
    }
    lemma_reaccion(red0, anillo, i, (2 * anillo.len() - 2 - i) as nat);
    lemma_reaccion(red0, anillo, i, (2 * anillo.len() - 1) as nat);
    lemma_siguiente_de(red0.nodos[i], i);
    let n = anillo.len() as int;
    let previa = (n - 1) as nat;
    lemma_fase_coordinator(red0, anillo, i, previa);
    let red = red0.iniciar(i).entregas(anillo, anillo.len() + previa);
    assert((2 * anillo.len() - 1) as nat == anillo.len() + previa);
    let ultima = red0.iniciar(i).entregas(anillo, 2 * anillo.len());
    assert(ultima == red.entregar(anillo));
    assert(pos(i, n, n) == i);
    lemma_distintos(anillo, i);
    assert(pos(i, 0, n) == i);
    assert forall|p: int| 0 <= p < n implies (#[trigger] ultima.nodos[p]).estado
        == EstadoLider::Conocido(anillo.last()) && ultima.nodos[p].term == red0.nodos[i].term
        + 1 by {
        let j = if p >= i {
            p - i
        } else {
            p - i + n
        };
        assert(pos(i, j, n) == p);
    }
    assert forall|x: EstacionId| anillo.contains(x) implies x.0 <= anillo.last().0 by {
        assert(anillo[anillo.index_of(x)] == x);
    }
}

/// Un nodo solo se proclama líder sin enviar nada.
pub proof fn ley_nodo_solo_se_proclama(n: NodoRing)
    requires
        n.valido(),
        n.anillo.len() == 1,
        n.term < u64::MAX,
    ensures
        n.iniciar().0.estado == EstadoLider::Conocido(n.mi_id),
        n.iniciar().0.term == n.term + 1,
        n.iniciar().1 is AsumirYReenviar,
        envio(n.iniciar().1) is None,
{
}

} // verus!
