//! Tabla de valores por clave de texto, que conserva el orden de llegada.

use vstd::prelude::*;

verus! {

/// Valores por clave, sin claves repetidas.
pub struct Tabla<V> {
    entradas: Vec<(String, V)>,
}

/// No hay dos entradas con la misma clave.
spec fn sin_repetidas<V>(s: Seq<(String, V)>) -> bool {
    forall|i: int, j: int| 0 <= i < j < s.len() ==> (#[trigger] s[i]).0@ != (#[trigger] s[j]).0@
}

/// La clave `k` está en la posición `i`.
spec fn esta_en<V>(s: Seq<(String, V)>, k: Seq<char>, i: int) -> bool {
    0 <= i < s.len() && s[i].0@ == k
}

/// La lista, vista como un mapa.
spec fn mapa<V>(s: Seq<(String, V)>) -> Map<Seq<char>, V>
    decreases s.len(),
{
    if s.len() == 0 {
        Map::empty()
    } else {
        mapa(s.drop_last()).insert(s.last().0@, s.last().1)
    }
}

proof fn lemma_sin_repetidas_prefijo<V>(s: Seq<(String, V)>)
    requires
        sin_repetidas(s),
        s.len() > 0,
    ensures
        sin_repetidas(s.drop_last()),
{
    let p = s.drop_last();
    assert forall|i: int, j: int| 0 <= i < j < p.len() implies (#[trigger] p[i]).0@ != (
    #[trigger] p[j]).0@ by {
        assert(s[i].0@ != s[j].0@);
    }
}

proof fn lemma_mapa<V>(s: Seq<(String, V)>)
    requires
        sin_repetidas(s),
    ensures
        mapa(s).dom().finite(),
        mapa(s).dom().len() == s.len(),
        forall|k: Seq<char>| #[trigger]
            mapa(s).contains_key(k) ==> exists|i: int| #[trigger]
                esta_en(s, k, i) && mapa(s)[k] == s[i].1,
        forall|i: int|
            0 <= i < s.len() ==> mapa(s).contains_key((#[trigger] s[i]).0@) && mapa(s)[s[i].0@]
                == s[i].1,
    decreases s.len(),
{
    if s.len() > 0 {
        let p = s.drop_last();
        let id = s.last().0@;
        lemma_sin_repetidas_prefijo(s);
        lemma_mapa(p);
        assert(!mapa(p).contains_key(id)) by {
            if mapa(p).contains_key(id) {
                let i = choose|i: int| #[trigger] esta_en(p, id, i) && mapa(p)[id] == p[i].1;
                assert(s[i].0@ != s[s.len() - 1].0@);
            }
        }
        assert(mapa(s).dom() =~= mapa(p).dom().insert(id));
        assert forall|k: Seq<char>| #[trigger] mapa(s).contains_key(k) implies exists|i: int|
            #[trigger] esta_en(s, k, i) && mapa(s)[k] == s[i].1 by {
            if k == id {
                assert(esta_en(s, k, s.len() - 1));
            } else {
                assert(mapa(p).contains_key(k));
                let i = choose|i: int| #[trigger] esta_en(p, k, i) && mapa(p)[k] == p[i].1;
                assert(esta_en(s, k, i));
            }
        }
        assert forall|i: int| 0 <= i < s.len() implies mapa(s).contains_key((#[trigger] s[i]).0@)
            && mapa(s)[s[i].0@] == s[i].1 by {
            if i < s.len() - 1 {
                assert(p[i] == s[i]);
                assert(s[i].0@ != s[s.len() - 1].0@);
            }
        }
    }
}

/// Dos listas sin repetidas son el mismo mapa si tienen las mismas entradas.
proof fn lemma_mapa_es<V>(s: Seq<(String, V)>, m: Map<Seq<char>, V>)
    requires
        sin_repetidas(s),
        forall|k: Seq<char>| #[trigger]
            m.contains_key(k) ==> exists|i: int| #[trigger] esta_en(s, k, i) && m[k] == s[i].1,
        forall|i: int| 0 <= i < s.len() ==> m.contains_key((#[trigger] s[i]).0@),
    ensures
        mapa(s) == m,
{
    lemma_mapa(s);
    assert forall|k: Seq<char>| mapa(s).contains_key(k) <==> m.contains_key(k) by {
        if mapa(s).contains_key(k) {
            let i = choose|i: int| #[trigger] esta_en(s, k, i) && mapa(s)[k] == s[i].1;
            assert(m.contains_key(s[i].0@));
        }
        if m.contains_key(k) {
            let i = choose|i: int| #[trigger] esta_en(s, k, i) && m[k] == s[i].1;
            assert(mapa(s).contains_key(s[i].0@));
        }
    }
    assert forall|k: Seq<char>| #[trigger] m.contains_key(k) implies mapa(s)[k] == m[k] by {
        let i = choose|i: int| #[trigger] esta_en(s, k, i) && m[k] == s[i].1;
        assert(mapa(s)[s[i].0@] == s[i].1);
    }
    assert(mapa(s) =~= m);
}

impl<V> View for Tabla<V> {
    type V = Map<Seq<char>, V>;

    closed spec fn view(&self) -> Map<Seq<char>, V> {
        mapa(self.entradas@)
    }
}

impl<V> Tabla<V> {
    /// Ninguna clave está repetida.
    pub closed spec fn valida(self) -> bool {
        sin_repetidas(self.entradas@)
    }

    /// Las entradas, en el orden en que llegaron sus claves.
    pub closed spec fn pares(self) -> Seq<(Seq<char>, V)> {
        self.entradas@.map_values(|e: (String, V)| (e.0@, e.1))
    }

    /// Las entradas enumeran exactamente el mapa, cada clave una vez.
    pub proof fn lemma_pares(self)
        requires
            self.valida(),
        ensures
            self@.dom().finite(),
            self@.dom().len() == self.pares().len(),
            forall|i: int|
                0 <= i < self.pares().len() ==> self@.contains_key((#[trigger] self.pares()[i]).0)
                    && self@[self.pares()[i].0] == self.pares()[i].1,
            forall|k: Seq<char>| #[trigger]
                self@.contains_key(k) ==> exists|i: int|
                    0 <= i < self.pares().len() && (#[trigger] self.pares()[i]).0 == k
                        && self.pares()[i].1 == self@[k],
            forall|i: int, j: int|
                0 <= i < j < self.pares().len() ==> (#[trigger] self.pares()[i]).0 != (
                #[trigger] self.pares()[j]).0,
    {
        let s = self.entradas@;
        lemma_mapa(s);
        assert(self.pares().len() == s.len());
        assert forall|i: int| 0 <= i < self.pares().len() implies self@.contains_key(
            (#[trigger] self.pares()[i]).0,
        ) && self@[self.pares()[i].0] == self.pares()[i].1 by {
            assert(self@.contains_key(s[i].0@));
        }
        assert forall|k: Seq<char>| #[trigger] self@.contains_key(k) implies exists|i: int|
            0 <= i < self.pares().len() && (#[trigger] self.pares()[i]).0 == k && self.pares()[i].1
                == self@[k] by {
            let i = choose|i: int| #[trigger] esta_en(s, k, i) && mapa(s)[k] == s[i].1;
            assert(self.pares()[i].0 == k);
        }
        assert forall|i: int, j: int| 0 <= i < j < self.pares().len() implies (
        #[trigger] self.pares()[i]).0 != (#[trigger] self.pares()[j]).0 by {
            assert(s[i].0@ != s[j].0@);
        }
    }

    /// Crea una tabla vacía.
    pub fn nueva() -> (t: Self)
        ensures
            t.valida(),
            t@ == Map::<Seq<char>, V>::empty(),
    {
        Tabla { entradas: Vec::new() }
    }

    /// Cantidad de entradas.
    pub fn largo(&self) -> (n: usize)
        requires
            self.valida(),
        ensures
            n == self.pares().len(),
            n == self@.dom().len(),
    {
        proof {
            self.lemma_pares();
        }
        self.entradas.len()
    }

    /// La clave de la entrada `i`.
    pub fn clave(&self, i: usize) -> (k: &String)
        requires
            i < self.pares().len(),
        ensures
            k@ == self.pares()[i as int].0,
    {
        &self.entradas[i].0
    }

    /// El valor de la entrada `i`.
    pub fn valor(&self, i: usize) -> (v: &V)
        requires
            i < self.pares().len(),
        ensures
            *v == self.pares()[i as int].1,
    {
        &self.entradas[i].1
    }

    /// Posición de `clave`, o la cantidad de entradas si no está.
    fn posicion(&self, clave: &String) -> (pos: usize)
        requires
            self.valida(),
        ensures
            pos <= self.entradas@.len(),
            pos < self.entradas@.len() ==> self.entradas@[pos as int].0@ == clave@
                && self@[clave@] == self.entradas@[pos as int].1,
            self@.contains_key(clave@) <==> pos < self.entradas@.len(),
    {
        let mut i: usize = 0;
        proof {
            lemma_mapa(self.entradas@);
        }
        while i < self.entradas.len()
            invariant
                i <= self.entradas@.len(),
                forall|j: int| 0 <= j < i ==> (#[trigger] self.entradas@[j]).0@ != clave@,
                forall|j: int|
                    0 <= j < self.entradas@.len() ==> self@.contains_key(
                        (#[trigger] self.entradas@[j]).0@,
                    ) && self@[self.entradas@[j].0@] == self.entradas@[j].1,
            decreases self.entradas@.len() - i,
        {
            if self.entradas[i].0 == *clave {
                assert(self@.contains_key(self.entradas@[i as int].0@));
                return i;
            }
            i += 1;
        }
        i
    }

    /// El valor de `clave`, si está.
    pub fn buscar(&self, clave: &String) -> (r: Option<&V>)
        requires
            self.valida(),
        ensures
            r is Some <==> self@.contains_key(clave@),
            r matches Some(v) ==> *v == self@[clave@],
    {
        let pos = self.posicion(clave);
        if pos < self.entradas.len() {
            Some(&self.entradas[pos].1)
        } else {
            None
        }
    }

    /// ¿Está `clave`?
    pub fn contiene(&self, clave: &String) -> (r: bool)
        requires
            self.valida(),
        ensures
            r == self@.contains_key(clave@),
    {
        self.posicion(clave) < self.entradas.len()
    }

    /// Asocia `valor` a `clave`, en lugar del que tuviera.
    pub fn poner(&mut self, clave: String, valor: V)
        requires
            old(self).valida(),
        ensures
            final(self).valida(),
            final(self)@ == old(self)@.insert(clave@, valor),
    {
        let pos = self.posicion(&clave);
        let ghost s = self.entradas@;
        let ghost e = (clave, valor);
        let ghost m = self@.insert(clave@, valor);
        proof {
            lemma_mapa(s);
        }
        if pos < self.entradas.len() {
            self.entradas.set(pos, (clave, valor));
            proof {
                let t = self.entradas@;
                assert(t == s.update(pos as int, e));
                assert forall|x: int, y: int| 0 <= x < y < t.len() implies (#[trigger] t[x]).0@ != (
                #[trigger] t[y]).0@ by {
                    assert(s[x].0@ != s[y].0@);
                }
                assert forall|k: Seq<char>| #[trigger] m.contains_key(k) implies exists|i: int|
                    #[trigger] esta_en(t, k, i) && m[k] == t[i].1 by {
                    if k == clave@ {
                        assert(esta_en(t, k, pos as int));
                    } else {
                        assert(mapa(s).contains_key(k));
                        let i = choose|i: int| #[trigger]
                            esta_en(s, k, i) && mapa(s)[k] == s[i].1;
                        assert(esta_en(t, k, i));
                    }
                }
                assert forall|i: int| 0 <= i < t.len() implies m.contains_key(
                    (#[trigger] t[i]).0@,
                ) by {
                    assert(mapa(s).contains_key(s[i].0@));
                }
                lemma_mapa_es(t, m);
            }
        } else {
            self.entradas.push((clave, valor));
            proof {
                let t = self.entradas@;
                assert(t.drop_last() =~= s);
                assert forall|x: int, y: int| 0 <= x < y < t.len() implies (#[trigger] t[x]).0@ != (
                #[trigger] t[y]).0@ by {
                    assert(mapa(s).contains_key(s[x].0@));
                    if y < s.len() {
                        assert(s[x].0@ != s[y].0@);
                    }
                }
            }
        }
    }

    /// Olvida `clave`, si estaba.
    pub fn quitar(&mut self, clave: &String)
        requires
            old(self).valida(),
        ensures
            final(self).valida(),
            final(self)@ == old(self)@.remove(clave@),
    {
        let pos = self.posicion(clave);
        let ghost s = self.entradas@;
        let ghost m = self@.remove(clave@);
        proof {
            lemma_mapa(s);
        }
        if pos < self.entradas.len() {
            let _ = self.entradas.remove(pos);
            proof {
                let t = self.entradas@;
                assert(t =~= s.remove(pos as int));
                assert forall|x: int, y: int| 0 <= x < y < t.len() implies (#[trigger] t[x]).0@ != (
                #[trigger] t[y]).0@ by {
                    let a = if x < pos {
                        x
                    } else {
                        x + 1
                    };
                    let b = if y < pos {
                        y
                    } else {
                        y + 1
                    };
                    assert(s[a].0@ != s[b].0@);
                }
                assert forall|k: Seq<char>| #[trigger] m.contains_key(k) implies exists|i: int|
                    #[trigger] esta_en(t, k, i) && m[k] == t[i].1 by {
                    assert(mapa(s).contains_key(k));
                    let i = choose|i: int| #[trigger] esta_en(s, k, i) && mapa(s)[k] == s[i].1;
                    assert(esta_en(
                        t,
                        k,
                        if i < pos {
                            i
                        } else {
                            i - 1
                        },
                    ));
                }
                assert forall|i: int| 0 <= i < t.len() implies m.contains_key(
                    (#[trigger] t[i]).0@,
                ) by {
                    let a = if i < pos {
                        i
                    } else {
                        i + 1
                    };
                    assert(mapa(s).contains_key(s[a].0@));
                    if a < pos {
                        assert(s[a].0@ != s[pos as int].0@);
                    } else {
                        assert(s[pos as int].0@ != s[a].0@);
                    }
                }
                lemma_mapa_es(t, m);
            }
        } else {
            assert(m =~= self@);
        }
    }
}

} // verus!
