//! La elección cuando hay estaciones caídas: los mensajes las saltean, y las que están
//! vivas eligen como si el anillo fuera el de ellas.

use vstd::prelude::*;

#[allow(unused_imports)]
use crate::comun::ids::EstacionId;
#[allow(unused_imports)]
use crate::estacion::anillo::{
    envio, lemma_distintos, lemma_siguiente_de, ley_eleccion_completa, pos, Red,
};
#[allow(unused_imports)]
use crate::estacion::eleccion::{creciente, AccionVista, EstadoLider, MensajeRing, NodoRing};

verus! {

/// Las estaciones de un anillo, por posición, y el mensaje que está viajando: quién lo
/// mandó, a quién y cuál es.
pub struct RedConCaidas {
    pub nodos: Seq<NodoRing>,
    pub vuelo: Option<(EstacionId, EstacionId, MensajeRing)>,
}

impl RedConCaidas {
    /// Cada nodo está en su lugar del anillo y todos conocen el mismo anillo.
    pub open spec fn valida(self, anillo: Seq<EstacionId>) -> bool {
        &&& self.nodos.len() == anillo.len()
        &&& forall|p: int|
            0 <= p < anillo.len() ==> (#[trigger] self.nodos[p]).mi_id == anillo[p]
                && self.nodos[p].anillo == anillo
    }

    /// El nodo `p` hizo lo que dice `paso`: cambia de estado y envía.
    pub open spec fn con_paso(self, p: int, paso: (NodoRing, AccionVista)) -> RedConCaidas {
        RedConCaidas {
            nodos: self.nodos.update(p, paso.0),
            vuelo: match envio(paso.1) {
                Some((destino, mensaje)) => Some((self.nodos[p].mi_id, destino, mensaje)),
                None => None,
            },
        }
    }

    /// El nodo de la posición `p` arranca una elección.
    pub open spec fn iniciar(self, p: int) -> RedConCaidas {
        self.con_paso(p, self.nodos[p].iniciar())
    }

    /// Lo que pasa con el mensaje que está viajando: si el destino está vivo, lo recibe;
    /// si no, el que lo mandó se entera y lo saltea.
    pub open spec fn paso(self, anillo: Seq<EstacionId>, vivas: Seq<EstacionId>) -> RedConCaidas {
        match self.vuelo {
            None => self,
            Some((emisor, destino, mensaje)) => if vivas.contains(destino) {
                let p = anillo.index_of(destino);
                self.con_paso(p, self.nodos[p].recibir(mensaje))
            } else {
                let p = anillo.index_of(emisor);
                self.con_paso(p, self.nodos[p].saltear(destino, mensaje))
            },
        }
    }

    /// `k` pasos, uno tras otro.
    pub open spec fn pasos(
        self,
        anillo: Seq<EstacionId>,
        vivas: Seq<EstacionId>,
        k: nat,
    ) -> RedConCaidas
        decreases k,
    {
        if k == 0 {
            self
        } else {
            self.pasos(anillo, vivas, (k - 1) as nat).paso(anillo, vivas)
        }
    }
}

/// `vivas` es el anillo de las estaciones vivas de `anillo`.
pub open spec fn anillo_vivo(anillo: Seq<EstacionId>, vivas: Seq<EstacionId>) -> bool {
    &&& creciente(anillo)
    &&& creciente(vivas)
    &&& forall|x: EstacionId| vivas.contains(x) ==> anillo.contains(x)
}

proof fn lemma_pasos(
    red: RedConCaidas,
    anillo: Seq<EstacionId>,
    vivas: Seq<EstacionId>,
    a: nat,
    b: nat,
)
    ensures
        red.pasos(anillo, vivas, a).pasos(anillo, vivas, b) == red.pasos(anillo, vivas, a + b),
    decreases b,
{
    if b > 0 {
        lemma_pasos(red, anillo, vivas, a, (b - 1) as nat);
        assert((a + b - 1) as nat == a + (b - 1) as nat);
    }
}

/// Un mensaje para la posición `p` saltea, en `d` pasos, las `d` estaciones caídas que
/// encuentra, si ninguna de las que siguen es la que lo mandó.
proof fn lemma_saltos(
    red: RedConCaidas,
    anillo: Seq<EstacionId>,
    vivas: Seq<EstacionId>,
    e: int,
    p: int,
    mensaje: MensajeRing,
    d: nat,
)
    requires
        anillo_vivo(anillo, vivas),
        red.valida(anillo),
        0 <= e < anillo.len(),
        0 <= p < anillo.len(),
        d < anillo.len(),
        mensaje !is Ajeno,
        red.vuelo == Some((anillo[e], anillo[p], mensaje)),
        forall|j: int|
            #![trigger pos(p, j, anillo.len() as int)]
            0 <= j < d ==> !vivas.contains(anillo[pos(p, j, anillo.len() as int)]),
        forall|j: int|
            #![trigger pos(p, j, anillo.len() as int)]
            1 <= j <= d ==> pos(p, j, anillo.len() as int) != e,
    ensures
        red.pasos(anillo, vivas, d) == (RedConCaidas {
            vuelo: Some((anillo[e], anillo[pos(p, d as int, anillo.len() as int)], mensaje)),
            ..red
        }),
    decreases d,
{
    let n = anillo.len() as int;
    if d > 0 {
        let previa = (d - 1) as nat;
        lemma_saltos(red, anillo, vivas, e, p, mensaje, previa);
        let q = pos(p, previa as int, n);
        let nodo = red.nodos[e];
        lemma_distintos(anillo, e);
        lemma_siguiente_de(nodo, q);
        assert(anillo.contains(anillo[q]));
        assert(pos(q, 1, n) == pos(p, d as int, n));
        lemma_distintos(anillo, pos(p, d as int, n));
        assert(red.nodos.update(e, nodo) =~= red.nodos);
    }
}

/// Entre una estación viva y la siguiente del anillo de las vivas solo hay caídas.
/// Devuelve cuántas.
proof fn lemma_caidas_en_el_medio(
    anillo: Seq<EstacionId>,
    vivas: Seq<EstacionId>,
    e: int,
    q: int,
) -> (d: nat)
    requires
        anillo_vivo(anillo, vivas),
        vivas.len() >= 2,
        0 <= e < anillo.len(),
        0 <= q < vivas.len(),
        anillo[e] == vivas[q],
    ensures
        d < anillo.len() - 1,
        anillo[pos(e, d as int + 1, anillo.len() as int)] == vivas[pos(q, 1, vivas.len() as int)],
        forall|j: int|
            #![trigger pos(e, j, anillo.len() as int)]
            1 <= j <= d ==> !vivas.contains(anillo[pos(e, j, anillo.len() as int)]),
{
    let n = anillo.len() as int;
    let m = vivas.len() as int;
    let s = pos(q, 1, m);
    let t = vivas[s];
    assert(vivas.contains(t));
    let f = anillo.index_of(t);
    assert(anillo[f] == t);
    assert(f != e) by {
        assert(vivas[q].0 != vivas[s].0);
    }
    let salto = if f > e {
        f - e
    } else {
        f - e + n
    };
    assert(pos(e, salto, n) == f);
    let d = (salto - 1) as nat;
    assert forall|j: int|
        #![trigger pos(e, j, n)]
        1 <= j <= d implies !vivas.contains(anillo[pos(e, j, n)]) by {
        let x = pos(e, j, n);
        if vivas.contains(anillo[x]) {
            let r = vivas.index_of(anillo[x]);
            assert(vivas[r] == anillo[x]);
            if q + 1 < m {
                assert(vivas[q].0 < vivas[s].0);
                assert(f > e);
                assert(r > q && r < s);
            } else {
                assert(s == 0);
                assert(vivas[s].0 < vivas[q].0);
                assert(f < e);
                if x > e {
                    assert(r > q);
                } else {
                    assert(x < f);
                    assert(r < s);
                }
            }
        }
    }
    d
}

/// Un nodo, si el anillo fuera el de las vivas.
spec fn entre_vivas(n: NodoRing, vivas: Seq<EstacionId>) -> NodoRing {
    NodoRing { anillo: vivas, ..n }
}

/// Los nodos de `sub` son los vivos de `red`, en el anillo de las vivas.
spec fn mismos_nodos(
    red: RedConCaidas,
    sub: Red,
    anillo: Seq<EstacionId>,
    vivas: Seq<EstacionId>,
) -> bool {
    &&& red.valida(anillo)
    &&& sub.nodos.len() == vivas.len()
    &&& forall|q: int|
        0 <= q < vivas.len() ==> #[trigger] sub.nodos[q] == entre_vivas(
            red.nodos[anillo.index_of(vivas[q])],
            vivas,
        )
}

/// `sub` es lo que ven las vivas de `red`: sus nodos y el mensaje que les llega.
spec fn refleja(
    red: RedConCaidas,
    sub: Red,
    anillo: Seq<EstacionId>,
    vivas: Seq<EstacionId>,
) -> bool {
    &&& mismos_nodos(red, sub, anillo, vivas)
    &&& match red.vuelo {
        Some((emisor, destino, mensaje)) => vivas.contains(destino) && sub.vuelo == Some(
            (destino, mensaje),
        ),
        None => sub.vuelo is None,
    }
}

/// Lo que hace un nodo vivo es lo que haría en el anillo de las vivas, salvo a quién le
/// manda el mensaje: al que le sigue en cada anillo.
spec fn corresponde(
    paso: (NodoRing, AccionVista),
    paso_sub: (NodoRing, AccionVista),
    anillo: Seq<EstacionId>,
    vivas: Seq<EstacionId>,
    e: int,
    q: int,
) -> bool {
    &&& paso.0.mi_id == anillo[e]
    &&& paso.0.anillo == anillo
    &&& paso_sub.0 == entre_vivas(paso.0, vivas)
    &&& match envio(paso.1) {
        Some((destino, mensaje)) => {
            &&& mensaje !is Ajeno
            &&& destino == anillo[pos(e, 1, anillo.len() as int)]
            &&& envio(paso_sub.1) == Some((vivas[pos(q, 1, vivas.len() as int)], mensaje))
        },
        None => envio(paso_sub.1) is None,
    }
}

proof fn lemma_corresponde(
    n: NodoRing,
    mensaje: MensajeRing,
    anillo: Seq<EstacionId>,
    vivas: Seq<EstacionId>,
    e: int,
    q: int,
)
    requires
        anillo_vivo(anillo, vivas),
        vivas.len() >= 2,
        anillo.len() >= 2,
        0 <= e < anillo.len(),
        0 <= q < vivas.len(),
        anillo[e] == vivas[q],
        n.mi_id == anillo[e],
        n.anillo == anillo,
    ensures
        corresponde(n.iniciar(), entre_vivas(n, vivas).iniciar(), anillo, vivas, e, q),
        corresponde(
            n.recibir(mensaje),
            entre_vivas(n, vivas).recibir(mensaje),
            anillo,
            vivas,
            e,
            q,
        ),
{
    lemma_siguiente_de(n, e);
    lemma_siguiente_de(entre_vivas(n, vivas), q);
}

/// Tras el paso de un nodo vivo, los saltos llevan el mensaje a la misma estación que en
/// el anillo de las vivas. Devuelve cuántos.
proof fn lemma_un_paso(
    red: RedConCaidas,
    sub: Red,
    anillo: Seq<EstacionId>,
    vivas: Seq<EstacionId>,
    e: int,
    q: int,
    paso: (NodoRing, AccionVista),
    paso_sub: (NodoRing, AccionVista),
) -> (k: nat)
    requires
        anillo_vivo(anillo, vivas),
        vivas.len() >= 2,
        mismos_nodos(red, sub, anillo, vivas),
        0 <= e < anillo.len(),
        0 <= q < vivas.len(),
        anillo[e] == vivas[q],
        corresponde(paso, paso_sub, anillo, vivas, e, q),
    ensures
        refleja(
            red.con_paso(e, paso).pasos(anillo, vivas, k),
            sub.con_paso(q, paso_sub),
            anillo,
            vivas,
        ),
{
    let n = anillo.len() as int;
    let red1 = red.con_paso(e, paso);
    let sub1 = sub.con_paso(q, paso_sub);
    assert(mismos_nodos(red1, sub1, anillo, vivas)) by {
        assert forall|r: int| 0 <= r < vivas.len() implies #[trigger] sub1.nodos[r] == entre_vivas(
            red1.nodos[anillo.index_of(vivas[r])],
            vivas,
        ) by {
            assert(vivas.contains(vivas[r]));
            assert(anillo[anillo.index_of(vivas[r])] == vivas[r]);
            lemma_distintos(anillo, e);
            if r != q {
                assert(vivas[r].0 != vivas[q].0);
                assert(sub.nodos[r] == entre_vivas(red.nodos[anillo.index_of(vivas[r])], vivas));
            }
        }
    }
    match envio(paso.1) {
        None => 0,
        Some((destino, mensaje)) => {
            let d = lemma_caidas_en_el_medio(anillo, vivas, e, q);
            let p = pos(e, 1, n);
            assert forall|j: int|
                #![trigger pos(p, j, n)]
                0 <= j <= d implies pos(p, j, n) == pos(e, j + 1, n) by {}
            lemma_saltos(red1, anillo, vivas, e, p, mensaje, d);
            assert(pos(p, d as int, n) == pos(e, d as int + 1, n));
            assert(vivas.contains(vivas[pos(q, 1, vivas.len() as int)]));
            d
        },
    }
}

/// Lo que ven las vivas tras `h` entregas, si el anillo fuera el de ellas, es lo que ven
/// tras los pasos que hagan falta para saltear a las caídas. Devuelve cuántos.
proof fn lemma_simula(
    red0: RedConCaidas,
    sub0: Red,
    anillo: Seq<EstacionId>,
    vivas: Seq<EstacionId>,
    i: int,
    h: nat,
) -> (k: nat)
    requires
        anillo_vivo(anillo, vivas),
        vivas.len() >= 2,
        mismos_nodos(red0, sub0, anillo, vivas),
        0 <= i < vivas.len(),
    ensures
        refleja(
            red0.iniciar(anillo.index_of(vivas[i])).pasos(anillo, vivas, k),
            sub0.iniciar(i).entregas(vivas, h),
            anillo,
            vivas,
        ),
    decreases h,
{
    let e = anillo.index_of(vivas[i]);
    assert(vivas.contains(vivas[i]));
    assert(anillo[e] == vivas[i]);
    assert(anillo.len() >= 2) by {
        assert(vivas.contains(vivas[0]) && vivas.contains(vivas[1]));
        assert(vivas[0].0 < vivas[1].0);
        assert(anillo[anillo.index_of(vivas[0])] != anillo[anillo.index_of(vivas[1])]);
    }
    let inicio = red0.iniciar(e);
    if h == 0 {
        let n = red0.nodos[e];
        assert(sub0.nodos[i] == entre_vivas(n, vivas));
        lemma_corresponde(n, MensajeRing::Ajeno, anillo, vivas, e, i);
        lemma_un_paso(red0, sub0, anillo, vivas, e, i, n.iniciar(), sub0.nodos[i].iniciar())
    } else {
        let previa = (h - 1) as nat;
        let k1 = lemma_simula(red0, sub0, anillo, vivas, i, previa);
        let red1 = inicio.pasos(anillo, vivas, k1);
        let sub1 = sub0.iniciar(i).entregas(vivas, previa);
        match red1.vuelo {
            None => k1,
            Some((emisor, destino, mensaje)) => {
                let q = vivas.index_of(destino);
                let f = anillo.index_of(destino);
                assert(vivas[q] == destino && anillo[f] == destino);
                let n = red1.nodos[f];
                assert(sub1.nodos[q] == entre_vivas(n, vivas));
                lemma_corresponde(n, mensaje, anillo, vivas, f, q);
                let k2 = lemma_un_paso(
                    red1,
                    sub1,
                    anillo,
                    vivas,
                    f,
                    q,
                    n.recibir(mensaje),
                    sub1.nodos[q].recibir(mensaje),
                );
                assert(inicio.pasos(anillo, vivas, k1 + 1) == red1.paso(anillo, vivas));
                lemma_pasos(inicio, anillo, vivas, k1 + 1, k2);
                k1 + 1 + k2
            },
        }
    }
}

/// La única viva de un anillo saltea a todas las demás, dos veces, y se proclama.
proof fn lemma_unica_viva(red0: RedConCaidas, anillo: Seq<EstacionId>, e: int) -> (k: nat)
    requires
        creciente(anillo),
        red0.valida(anillo),
        anillo.len() >= 2,
        0 <= e < anillo.len(),
        red0.nodos[e].term < u64::MAX,
    ensures
        ({
            let red = red0.iniciar(e).pasos(anillo, seq![anillo[e]], k);
            &&& red.vuelo is None
            &&& red.nodos[e].estado == EstadoLider::Conocido(anillo[e])
            &&& red.nodos[e].term == red0.nodos[e].term + 1
        }),
{
    let n = anillo.len() as int;
    let yo = anillo[e];
    let vivas = seq![yo];
    let d = (n - 2) as nat;
    let p = pos(e, 1, n);
    let ultima = pos(e, n - 1, n);
    let inicio = red0.iniciar(e);
    assert(vivas[0] == yo);
    lemma_distintos(anillo, e);
    assert forall|j: int| #![trigger pos(p, j, n)] 0 <= j <= d implies pos(p, j, n) != e
        && !vivas.contains(anillo[pos(p, j, n)]) by {
        lemma_distintos(anillo, pos(p, j, n));
    }
    assert(pos(p, d as int, n) == ultima);
    assert(pos(ultima, 1, n) == e);
    assert(anillo.contains(anillo[ultima]));
    lemma_siguiente_de(red0.nodos[e], e);
    lemma_siguiente_de(red0.nodos[e], ultima);
    // El Election da la vuelta.
    let ids = seq![yo];
    lemma_saltos(
        inicio,
        anillo,
        vivas,
        e,
        p,
        MensajeRing::Election { ids, iniciador: yo },
        d,
    );
    let cierre = inicio.pasos(anillo, vivas, d + 1);
    assert(cierre == inicio.pasos(anillo, vivas, d).paso(anillo, vivas));
    // El Coordinator da la vuelta.
    let term = (red0.nodos[e].term + 1) as u64;
    lemma_saltos(
        cierre,
        anillo,
        vivas,
        e,
        p,
        MensajeRing::Coordinator { lider: yo, term },
        d,
    );
    let fin = cierre.pasos(anillo, vivas, d + 1);
    assert(fin == cierre.pasos(anillo, vivas, d).paso(anillo, vivas));
    lemma_pasos(inicio, anillo, vivas, d + 1, d + 1);
    (d + 1) + (d + 1)
}

/// Una elección en la que algunas estaciones están caídas termina igual: los mensajes las
/// saltean, y al cabo de `k` pasos no queda ninguno viajando y todas las vivas reconocen
/// a la de id mayor entre ellas, en el término siguiente al de la que la inició. Si el
/// que cayó es el líder, lo reemplaza otra.
pub proof fn ley_eleccion_con_caidas(
    red0: RedConCaidas,
    anillo: Seq<EstacionId>,
    vivas: Seq<EstacionId>,
    i: int,
) -> (k: nat)
    requires
        anillo_vivo(anillo, vivas),
        red0.valida(anillo),
        0 <= i < vivas.len(),
        ({
            let term = red0.nodos[anillo.index_of(vivas[i])].term;
            &&& term < u64::MAX
            &&& forall|q: int|
                0 <= q < vivas.len() ==> red0.nodos[anillo.index_of(#[trigger] vivas[q])].term
                    <= term + 1
        }),
    ensures
        ({
            let e = anillo.index_of(vivas[i]);
            let red = red0.iniciar(e).pasos(anillo, vivas, k);
            &&& red.vuelo is None
            &&& forall|q: int| #![trigger vivas[q]]
                0 <= q < vivas.len() ==> {
                    let n = red.nodos[anillo.index_of(vivas[q])];
                    n.estado == EstadoLider::Conocido(vivas.last()) && n.term == red0.nodos[e].term
                        + 1
                }
            &&& forall|x: EstacionId| vivas.contains(x) ==> x.0 <= vivas.last().0
        }),
{
    let e = anillo.index_of(vivas[i]);
    assert(vivas.contains(vivas[i]));
    assert(anillo[e] == vivas[i]);
    assert forall|x: EstacionId| vivas.contains(x) implies x.0 <= vivas.last().0 by {
        assert(vivas[vivas.index_of(x)] == x);
    }
    if anillo.len() == 1 {
        assert(vivas.len() == 1) by {
            if vivas.len() > 1 {
                assert(vivas.contains(vivas[0]) && vivas.contains(vivas[1]));
                assert(vivas[0].0 < vivas[1].0);
                assert(anillo[anillo.index_of(vivas[0])] != anillo[anillo.index_of(vivas[1])]);
            }
        }
        assert(red0.nodos[e].siguiente() is None);
        0
    } else if vivas.len() == 1 {
        assert(vivas =~= seq![anillo[e]]);
        lemma_unica_viva(red0, anillo, e)
    } else {
        let sub0 = Red {
            nodos: Seq::new(
                vivas.len(),
                |q: int| entre_vivas(red0.nodos[anillo.index_of(vivas[q])], vivas),
            ),
            vuelo: None,
            enviados: 0,
        };
        assert(sub0.valida(vivas)) by {
            assert forall|q: int| 0 <= q < vivas.len() implies (#[trigger] sub0.nodos[q]).mi_id
                == vivas[q] && sub0.nodos[q].anillo == vivas by {
                assert(vivas.contains(vivas[q]));
                assert(anillo[anillo.index_of(vivas[q])] == vivas[q]);
            }
        }
        assert forall|q: int| 0 <= q < vivas.len() implies (#[trigger] sub0.nodos[q]).term
            <= sub0.nodos[i].term + 1 by {
            assert(sub0.nodos[q].term == red0.nodos[anillo.index_of(vivas[q])].term);
        }
        ley_eleccion_completa(sub0, vivas, i);
        let k = lemma_simula(red0, sub0, anillo, vivas, i, 2 * vivas.len());
        let red = red0.iniciar(e).pasos(anillo, vivas, k);
        let sub = sub0.iniciar(i).entregas(vivas, 2 * vivas.len());
        assert forall|q: int| #![trigger vivas[q]] 0 <= q < vivas.len() implies {
            let n = red.nodos[anillo.index_of(vivas[q])];
            n.estado == EstadoLider::Conocido(vivas.last()) && n.term == red0.nodos[e].term + 1
        } by {
            assert(sub.nodos[q] == entre_vivas(red.nodos[anillo.index_of(vivas[q])], vivas));
        }
        k
    }
}

} // verus!
