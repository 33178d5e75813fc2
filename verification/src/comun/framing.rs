//! Enmarcado de mensajes sobre un flujo de bytes: cada payload viaja precedido de su
//! largo, en cuatro bytes con el más significativo primero.

use vstd::prelude::*;

verus! {

/// Bytes que ocupa el prefijo de largo.
pub const PREFIJO: usize = 4;

/// El payload no se puede enmarcar: su largo no entra en el prefijo.
#[derive(Debug, Clone, Copy, PartialEq, Eq, Structural)]
pub struct PayloadDemasiadoGrande {
    pub largo: usize,
}

impl PayloadDemasiadoGrande {
    /// El error, en palabras.
    pub fn mensaje(&self) -> (s: String)
        ensures
            s@ == "el payload es demasiado grande para enmarcarlo"@,
    {
        "el payload es demasiado grande para enmarcarlo".to_string()
    }
}

/// Junta los bytes de un flujo y separa los payloads a medida que se completan.
pub struct Desenmarcador {
    buffer: Vec<u8>,
}

// ---------------------------------------------------------------------------
// Modelo
// ---------------------------------------------------------------------------

/// El número `n`, de 32 bits, en cuatro bytes.
pub open spec fn en_bytes(n: nat) -> Seq<u8> {
    seq![
        (n / 0x100_0000) as u8,
        (n / 0x1_0000 % 0x100) as u8,
        (n / 0x100 % 0x100) as u8,
        (n % 0x100) as u8,
    ]
}

/// El número que escriben los primeros cuatro bytes.
pub open spec fn largo_anunciado(s: Seq<u8>) -> nat {
    (s[0] * 0x100_0000 + s[1] * 0x1_0000 + s[2] * 0x100 + s[3]) as nat
}

/// Un payload enmarcado.
pub open spec fn marco(payload: Seq<u8>) -> Seq<u8> {
    en_bytes(payload.len()) + payload
}

/// Hay un payload completo al principio del flujo.
pub open spec fn completo(s: Seq<u8>) -> bool {
    s.len() >= PREFIJO && s.len() - PREFIJO >= largo_anunciado(s)
}

/// El primer payload de un flujo que lo tiene completo.
pub open spec fn primero(s: Seq<u8>) -> Seq<u8> {
    s.subrange(PREFIJO as int, PREFIJO + largo_anunciado(s))
}

/// Lo que queda del flujo después del primer payload.
pub open spec fn despues(s: Seq<u8>) -> Seq<u8> {
    s.skip(PREFIJO + largo_anunciado(s))
}

/// Todos los payloads completos de un flujo, en orden.
pub open spec fn payloads(s: Seq<u8>) -> Seq<Seq<u8>>
    decreases s.len(),
{
    if completo(s) {
        seq![primero(s)] + payloads(despues(s))
    } else {
        Seq::empty()
    }
}

/// Lo que queda del flujo después de sacar todos los payloads completos.
pub open spec fn sobrante(s: Seq<u8>) -> Seq<u8>
    decreases s.len(),
{
    if completo(s) {
        sobrante(despues(s))
    } else {
        s
    }
}

/// Varios payloads enmarcados, uno detrás de otro.
pub open spec fn marcos(ps: Seq<Seq<u8>>) -> Seq<u8>
    decreases ps.len(),
{
    if ps.len() == 0 {
        Seq::empty()
    } else {
        marco(ps[0]) + marcos(ps.skip(1))
    }
}

impl View for Desenmarcador {
    type V = Seq<u8>;

    closed spec fn view(&self) -> Seq<u8> {
        self.buffer@
    }
}

// ---------------------------------------------------------------------------
// Operaciones
// ---------------------------------------------------------------------------

/// Enmarca un payload. Falla si su largo no entra en 32 bits.
pub fn enmarcar_payload(payload: &[u8]) -> (r: Result<Vec<u8>, PayloadDemasiadoGrande>)
    ensures
        r is Ok <==> payload@.len() <= u32::MAX,
        r matches Ok(bytes) ==> bytes@ == marco(payload@),
        r matches Err(e) ==> e.largo == payload@.len(),
{
    let largo = payload.len();
    if largo as u64 > u32::MAX as u64 {
        return Err(PayloadDemasiadoGrande { largo });
    }
    let mut bytes: Vec<u8> = Vec::new();
    bytes.push((largo / 0x100_0000) as u8);
    bytes.push((largo / 0x1_0000 % 0x100) as u8);
    bytes.push((largo / 0x100 % 0x100) as u8);
    bytes.push((largo % 0x100) as u8);
    assert(bytes@ =~= en_bytes(payload@.len()));
    agregar(&mut bytes, payload);
    Ok(bytes)
}

/// Agrega bytes al final de un vector.
fn agregar(v: &mut Vec<u8>, datos: &[u8])
    ensures
        final(v)@ == old(v)@ + datos@,
{
    let mut i: usize = 0;
    assert(v@ =~= old(v)@ + datos@.take(0));
    while i < datos.len()
        invariant
            i <= datos@.len(),
            v@ == old(v)@ + datos@.take(i as int),
        decreases datos@.len() - i,
    {
        v.push(datos[i]);
        i += 1;
        assert(v@ =~= old(v)@ + datos@.take(i as int));
    }
    assert(datos@.take(i as int) =~= datos@);
}

impl Desenmarcador {
    /// Empieza con un flujo vacío.
    pub fn new() -> (d: Self)
        ensures
            d@ == Seq::<u8>::empty(),
    {
        Desenmarcador { buffer: Vec::new() }
    }

    /// Agrega los bytes que llegaron.
    pub fn alimentar(&mut self, datos: &[u8])
        ensures
            final(self)@ == old(self)@ + datos@,
    {
        agregar(&mut self.buffer, datos);
    }

    /// El próximo payload completo, si ya está; lo saca del flujo.
    pub fn siguiente_payload(&mut self) -> (r: Option<Vec<u8>>)
        ensures
            r is Some <==> completo(old(self)@),
            r matches Some(p) ==> p@ == primero(old(self)@) && final(self)@ == despues(old(self)@),
            r is None ==> final(self)@ == old(self)@,
    {
        if self.buffer.len() < PREFIJO {
            return None;
        }
        let largo: u64 = self.buffer[0] as u64 * 0x100_0000 + self.buffer[1] as u64 * 0x1_0000
            + self.buffer[2] as u64 * 0x100 + self.buffer[3] as u64;
        if ((self.buffer.len() - PREFIJO) as u64) < largo {
            return None;
        }
        let fin: usize = PREFIJO + largo as usize;
        let payload = tramo(&self.buffer, PREFIJO, fin);
        let resto = tramo(&self.buffer, fin, self.buffer.len());
        assert(resto@ =~= despues(self@));
        self.buffer = resto;
        Some(payload)
    }

    /// Agrega los bytes que llegaron y saca todos los payloads que se completaron, en
    /// orden.
    pub fn recibir(&mut self, datos: &[u8]) -> (ps: Vec<Vec<u8>>)
        ensures
            vistas(ps@) == payloads(old(self)@ + datos@),
            final(self)@ == sobrante(old(self)@ + datos@),
    {
        self.alimentar(datos);
        let ghost flujo = self@;
        let mut ps: Vec<Vec<u8>> = Vec::new();
        assert(vistas(ps@) + payloads(flujo) =~= payloads(flujo));
        loop
            invariant
                vistas(ps@) + payloads(self@) == payloads(flujo),
                sobrante(self@) == sobrante(flujo),
            ensures
                vistas(ps@) == payloads(flujo),
                self@ == sobrante(flujo),
            decreases self@.len(),
        {
            let ghost antes = self@;
            match self.siguiente_payload() {
                Some(p) => {
                    proof {
                        assert(vistas(ps@.push(p)) =~= vistas(ps@).push(p@));
                        assert(vistas(ps@).push(p@) + payloads(self@) =~= vistas(ps@) + payloads(
                            antes,
                        ));
                    }
                    ps.push(p);
                },
                None => {
                    assert(payloads(self@) =~= Seq::<Seq<u8>>::empty());
                    assert(vistas(ps@) + payloads(self@) =~= vistas(ps@));
                    break ;
                },
            }
        }
        ps
    }
}

/// Los payloads, como valores matemáticos.
pub open spec fn vistas(ps: Seq<Vec<u8>>) -> Seq<Seq<u8>> {
    ps.map_values(|p: Vec<u8>| p@)
}

/// Copia los bytes desde `desde` hasta antes de `hasta`.
fn tramo(v: &Vec<u8>, desde: usize, hasta: usize) -> (t: Vec<u8>)
    requires
        desde <= hasta <= v@.len(),
    ensures
        t@ == v@.subrange(desde as int, hasta as int),
{
    let mut t: Vec<u8> = Vec::new();
    let mut i: usize = desde;
    while i < hasta
        invariant
            desde <= i <= hasta <= v@.len(),
            t@ == v@.subrange(desde as int, i as int),
        decreases hasta - i,
    {
        t.push(v[i]);
        i += 1;
        assert(t@ =~= v@.subrange(desde as int, i as int));
    }
    t
}

// ---------------------------------------------------------------------------
// Leyes
// ---------------------------------------------------------------------------

proof fn lemma_en_bytes(n: nat)
    requires
        n <= u32::MAX,
    ensures
        en_bytes(n).len() == 4,
        largo_anunciado(en_bytes(n)) == n,
{
    let a = n / 0x100_0000;
    let b = n / 0x1_0000 % 0x100;
    let c = n / 0x100 % 0x100;
    let d = n % 0x100;
    assert(a < 0x100);
    assert(a * 0x100_0000 + b * 0x1_0000 + c * 0x100 + d == n);
}

/// Ida y vuelta: lo primero que se lee de un payload enmarcado, siga lo que siga, es
/// ese payload, y queda exactamente lo que seguía.
pub proof fn ley_ida_y_vuelta(payload: Seq<u8>, resto: Seq<u8>)
    requires
        payload.len() <= u32::MAX,
    ensures
        completo(marco(payload) + resto),
        primero(marco(payload) + resto) == payload,
        despues(marco(payload) + resto) == resto,
{
    lemma_en_bytes(payload.len());
    let s = marco(payload) + resto;
    assert(s[0] == en_bytes(payload.len())[0]);
    assert(s[1] == en_bytes(payload.len())[1]);
    assert(s[2] == en_bytes(payload.len())[2]);
    assert(s[3] == en_bytes(payload.len())[3]);
    assert(primero(s) =~= payload);
    assert(despues(s) =~= resto);
}

/// Leer un flujo que empieza con un payload enmarcado es leer ese payload y después
/// lo que sigue.
proof fn lemma_un_marco(payload: Seq<u8>, resto: Seq<u8>)
    requires
        payload.len() <= u32::MAX,
    ensures
        payloads(marco(payload) + resto) == seq![payload] + payloads(resto),
        sobrante(marco(payload) + resto) == sobrante(resto),
{
    ley_ida_y_vuelta(payload, resto);
}

/// Varios payloads enmarcados uno detrás de otro se recuperan todos, en orden, y no
/// sobra más que lo que venía después.
pub proof fn ley_se_recuperan_todos(ps: Seq<Seq<u8>>, cola: Seq<u8>)
    requires
        forall|i: int| 0 <= i < ps.len() ==> (#[trigger] ps[i]).len() <= u32::MAX,
        !completo(cola),
    ensures
        payloads(marcos(ps) + cola) == ps,
        sobrante(marcos(ps) + cola) == cola,
    decreases ps.len(),
{
    let s = marcos(ps) + cola;
    if ps.len() == 0 {
        assert(s =~= cola);
        assert(payloads(s) =~= ps);
    } else {
        let demas = ps.skip(1);
        let resto = marcos(demas) + cola;
        assert(s == marco(ps[0]) + resto) by {
            assert(s =~= marco(ps[0]) + resto);
        }
        lemma_un_marco(ps[0], resto);
        assert forall|i: int| 0 <= i < demas.len() implies (#[trigger] demas[i]).len()
            <= u32::MAX by {
            assert(ps[i + 1].len() <= u32::MAX);
        }
        ley_se_recuperan_todos(demas, cola);
        assert(seq![ps[0]] + demas =~= ps);
    }
}

/// No importa en qué trozos lleguen los bytes: leer `a` y después `b` da los mismos
/// payloads, y deja lo mismo sin leer, que leer todo junto.
pub proof fn ley_los_trozos_no_importan(a: Seq<u8>, b: Seq<u8>)
    ensures
        payloads(a + b) == payloads(a) + payloads(sobrante(a) + b),
        sobrante(a + b) == sobrante(sobrante(a) + b),
    decreases a.len(),
{
    if completo(a) {
        let s = a + b;
        assert(s[0] == a[0] && s[1] == a[1] && s[2] == a[2] && s[3] == a[3]);
        assert(completo(s));
        assert(primero(s) =~= primero(a));
        assert(despues(s) =~= despues(a) + b);
        ley_los_trozos_no_importan(despues(a), b);
        assert(payloads(s) =~= payloads(a) + payloads(sobrante(a) + b));
    } else {
        assert(payloads(a) + payloads(sobrante(a) + b) =~= payloads(a + b));
    }
}

/// Lo que sobra nunca tiene un payload completo: no queda nada por entregar.
pub proof fn ley_no_queda_nada_por_entregar(s: Seq<u8>)
    ensures
        !completo(sobrante(s)),
        payloads(sobrante(s)) == Seq::<Seq<u8>>::empty(),
    decreases s.len(),
{
    if completo(s) {
        ley_no_queda_nada_por_entregar(despues(s));
    }
}

/// La forma de un payload enmarcado: cuatro bytes con su largo, el más significativo
/// primero, y después el payload tal cual.
pub proof fn ley_forma_del_marco(payload: Seq<u8>)
    requires
        payload.len() <= u32::MAX,
    ensures
        ({
            let m = marco(payload);
            &&& m.len() == 4 + payload.len()
            &&& m[0] * 16777216 + m[1] * 65536 + m[2] * 256 + m[3] == payload.len()
            &&& m.skip(4) == payload
        }),
{
    lemma_en_bytes(payload.len());
    let m = marco(payload);
    let n = payload.len();
    assert(n == 16777216 * (n / 16777216) + 65536 * (n / 65536 % 256) + 256 * (n / 256 % 256) + n
        % 256);
    assert(n / 16777216 < 256);
    assert(m[0] == n / 16777216);
    assert(m[1] == n / 65536 % 256);
    assert(m[2] == n / 256 % 256);
    assert(m[3] == n % 256);
    assert(m.skip(4) =~= payload);
}

/// El largo de un flujo dice cuatro bytes; escribirlo devuelve los mismos cuatro.
proof fn lemma_en_bytes_de(s: Seq<u8>)
    requires
        s.len() >= 4,
    ensures
        largo_anunciado(s) <= u32::MAX,
        en_bytes(largo_anunciado(s)) == s.take(4),
{
    let n = largo_anunciado(s);
    let (a, b, c, d) = (s[0] as int, s[1] as int, s[2] as int, s[3] as int);
    assert(n == a * 0x100_0000 + b * 0x1_0000 + c * 0x100 + d);
    assert(n / 0x100_0000 == a);
    assert(n / 0x1_0000 == a * 0x100 + b);
    assert(n / 0x1_0000 % 0x100 == b);
    assert(n / 0x100 == a * 0x1_0000 + b * 0x100 + c);
    assert(n / 0x100 % 0x100 == c);
    assert(n % 0x100 == d);
    assert(en_bytes(n) =~= s.take(4));
}

/// Un flujo con un payload completo es ese payload enmarcado y lo que sigue.
pub proof fn ley_completo_es_un_marco(s: Seq<u8>)
    requires
        completo(s),
    ensures
        primero(s).len() <= u32::MAX,
        s == marco(primero(s)) + despues(s),
{
    lemma_en_bytes_de(s);
    assert(primero(s).len() == largo_anunciado(s));
    assert(s =~= marco(primero(s)) + despues(s));
}

/// Lo que empieza con un payload enmarcado está completo: si un flujo no lo está, no es un
/// marco seguido de algo.
pub proof fn ley_incompleto_no_es_un_marco(s: Seq<u8>, payload: Seq<u8>, resto: Seq<u8>)
    requires
        !completo(s),
        payload.len() <= u32::MAX,
    ensures
        s != marco(payload) + resto,
{
    ley_ida_y_vuelta(payload, resto);
}

/// Enmarcar varios es enmarcar cada uno y ponerlos en fila.
pub proof fn ley_marcos_en_fila(a: Seq<Seq<u8>>, p: Seq<u8>, b: Seq<Seq<u8>>)
    ensures
        marcos(Seq::<Seq<u8>>::empty()) == Seq::<u8>::empty(),
        marcos(seq![p]) == marco(p),
        marcos(a + b) == marcos(a) + marcos(b),
    decreases a.len(),
{
    let uno = seq![p];
    assert(uno.skip(1).len() == 0);
    assert(marcos(uno.skip(1)) == Seq::<u8>::empty());
    assert(marcos(uno) =~= marco(p));
    if a.len() == 0 {
        assert(a + b =~= b);
        assert(marcos(a) + marcos(b) =~= marcos(b));
    } else {
        ley_marcos_en_fila(a.skip(1), p, b);
        assert((a + b).skip(1) =~= a.skip(1) + b);
        assert(marcos(a + b) =~= marcos(a) + marcos(b));
    }
}

/// No se pierde ni se inventa un byte: los payloads que se leen, vueltos a enmarcar, y lo
/// que sobra son el flujo.
pub proof fn ley_no_se_pierde_un_byte(s: Seq<u8>)
    ensures
        marcos(payloads(s)) + sobrante(s) == s,
    decreases s.len(),
{
    if completo(s) {
        ley_completo_es_un_marco(s);
        ley_no_se_pierde_un_byte(despues(s));
        let demas = payloads(despues(s));
        ley_marcos_en_fila(seq![primero(s)], primero(s), demas);
        assert(marcos(payloads(s)) + sobrante(s) =~= marco(primero(s)) + (marcos(demas) + sobrante(
            despues(s),
        )));
    } else {
        assert(marcos(payloads(s)) + sobrante(s) =~= s);
    }
}

} // verus!
