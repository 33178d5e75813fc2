//! Texto: escritura y lectura de naturales en base diez, y separación en
//! palabras.

use vstd::prelude::*;
use vstd::string::{StrSliceExecFns, StringExecFns};

verus! {

// ---------------------------------------------------------------------------
// Naturales
// ---------------------------------------------------------------------------

/// La cifra decimal `d`.
pub open spec fn cifra(d: int) -> char {
    (48 + d) as char
}

/// `c` es una cifra decimal.
pub open spec fn es_cifra(c: char) -> bool {
    '0' <= c <= '9'
}

/// El natural `n` escrito en base diez, sin ceros de más.
pub open spec fn decimal(n: nat) -> Seq<char>
    decreases n,
{
    if n < 10 {
        seq![cifra(n as int)]
    } else {
        decimal(n / 10).push(cifra((n % 10) as int))
    }
}

/// El natural que escriben las cifras `s`.
pub open spec fn valor(s: Seq<char>) -> int
    decreases s.len(),
{
    if s.len() == 0 {
        0
    } else {
        valor(s.drop_last()) * 10 + (s.last() as int - 48)
    }
}

/// `s` es una o más cifras.
pub open spec fn es_natural(s: Seq<char>) -> bool {
    s.len() > 0 && forall|i: int| 0 <= i < s.len() ==> es_cifra(#[trigger] s[i])
}

/// `s` sin el signo `+` inicial, si lo tiene.
pub open spec fn sin_mas(s: Seq<char>) -> Seq<char> {
    if s.len() > 0 && s[0] == '+' {
        s.skip(1)
    } else {
        s
    }
}

/// Lectura de un natural de 32 bits: un `+` opcional seguido solo de cifras, y un
/// valor que entra en 32 bits.
pub open spec fn leer_u32_spec(s: Seq<char>) -> Option<u32> {
    let c = sin_mas(s);
    if es_natural(c) && valor(c) <= u32::MAX {
        Some(valor(c) as u32)
    } else {
        None
    }
}

/// La cifra `d`, como texto.
fn texto_cifra(d: u64) -> (s: &'static str)
    requires
        d < 10,
    ensures
        s@ == seq![cifra(d as int)],
{
    proof {
        reveal_strlit("0");
        reveal_strlit("1");
        reveal_strlit("2");
        reveal_strlit("3");
        reveal_strlit("4");
        reveal_strlit("5");
        reveal_strlit("6");
        reveal_strlit("7");
        reveal_strlit("8");
        reveal_strlit("9");
    }
    let s = if d == 0 {
        "0"
    } else if d == 1 {
        "1"
    } else if d == 2 {
        "2"
    } else if d == 3 {
        "3"
    } else if d == 4 {
        "4"
    } else if d == 5 {
        "5"
    } else if d == 6 {
        "6"
    } else if d == 7 {
        "7"
    } else if d == 8 {
        "8"
    } else {
        "9"
    };
    assert(s@ =~= seq![cifra(d as int)]);
    s
}

/// Escribe `n` en base diez.
pub fn en_decimal(n: u64) -> (s: String)
    ensures
        s@ == decimal(n as nat),
    decreases n,
{
    if n < 10 {
        texto_cifra(n).to_owned()
    } else {
        let mut s = en_decimal(n / 10);
        s.append(texto_cifra(n % 10));
        assert(s@ =~= decimal(n as nat));
        s
    }
}

/// Las letras de un texto.
pub fn letras(s: &str) -> (v: Vec<char>)
    ensures
        v@ == s@,
{
    let mut v: Vec<char> = Vec::new();
    for c in it: s.chars()
        invariant
            v@ == it.seq().take(it.index() as int),
            it.seq() == s@,
    {
        v.push(c);
        assert(v@ =~= it.seq().take(it.index() + 1));
    }
    assert(v@ =~= s@);
    v
}

/// Lee un natural de 32 bits.
pub fn leer_u32(s: &str) -> (r: Option<u32>)
    ensures
        r == leer_u32_spec(s@),
{
    let v = letras(s);
    let inicio: usize = if v.len() > 0 && v[0] == '+' {
        1
    } else {
        0
    };
    let ghost c = sin_mas(s@);
    assert(c =~= v@.skip(inicio as int));
    if inicio >= v.len() {
        return None;
    }
    let mut n: u64 = 0;
    let mut i: usize = inicio;
    while i < v.len()
        invariant
            inicio <= i <= v@.len(),
            inicio < v@.len(),
            c == v@.skip(inicio as int),
            c == sin_mas(s@),
            n == valor(c.take(i - inicio)),
            n <= u32::MAX,
            forall|j: int| 0 <= j < i - inicio ==> es_cifra(#[trigger] c[j]),
        decreases v@.len() - i,
    {
        let x = v[i];
        assert(c[i - inicio] == x);
        if x < '0' || x > '9' {
            assert(!es_natural(c));
            return None;
        }
        assert(c.take(i - inicio + 1).drop_last() =~= c.take(i - inicio));
        n = n * 10 + (x as u64 - 48);
        if n > u32::MAX as u64 {
            proof {
                if es_natural(c) {
                    lemma_valor_crece(c, i - inicio + 1);
                }
            }
            return None;
        }
        i += 1;
    }
    assert(c.take(i - inicio) =~= c);
    Some(n as u32)
}

/// Agregar cifras no achica el valor.
proof fn lemma_valor_crece(s: Seq<char>, k: int)
    requires
        0 <= k <= s.len(),
        forall|i: int| 0 <= i < s.len() ==> es_cifra(#[trigger] s[i]),
    ensures
        0 <= valor(s.take(k)) <= valor(s),
    decreases s.len(),
{
    if s.len() == 0 {
        assert(s.take(k) =~= s);
    } else if k == s.len() {
        assert(s.take(k) =~= s);
        let p = s.drop_last();
        assert forall|i: int| 0 <= i < p.len() implies es_cifra(#[trigger] p[i]) by {
            assert(es_cifra(s[i]));
        }
        lemma_valor_crece(p, p.len() as int);
        assert(p.take(p.len() as int) =~= p);
        assert(es_cifra(s[s.len() - 1]));
    } else {
        let p = s.drop_last();
        assert forall|i: int| 0 <= i < p.len() implies es_cifra(#[trigger] p[i]) by {
            assert(es_cifra(s[i]));
        }
        lemma_valor_crece(p, k);
        assert(p.take(k) =~= s.take(k));
        assert(es_cifra(s[s.len() - 1]));
    }
}

/// Lo escrito en base diez son cifras, y su valor es el número escrito.
pub proof fn lemma_decimal(n: nat)
    ensures
        es_natural(decimal(n)),
        valor(decimal(n)) == n,
    decreases n,
{
    if n < 10 {
        let s = decimal(n);
        assert(s.drop_last() =~= Seq::<char>::empty());
        assert(valor(s.drop_last()) == 0);
    } else {
        lemma_decimal(n / 10);
        let s = decimal(n);
        assert(s.drop_last() =~= decimal(n / 10));
        assert forall|i: int| 0 <= i < s.len() implies es_cifra(#[trigger] s[i]) by {
            if i < s.len() - 1 {
                assert(es_cifra(decimal(n / 10)[i]));
            }
        }
    }
}

/// Naturales distintos se escriben distinto.
pub proof fn ley_decimal_inyectivo(a: nat, b: nat)
    requires
        decimal(a) == decimal(b),
    ensures
        a == b,
{
    lemma_decimal(a);
    lemma_decimal(b);
}

/// Leer lo que se escribió devuelve el mismo número.
pub proof fn ley_leer_lo_escrito(n: u32)
    ensures
        leer_u32_spec(decimal(n as nat)) == Some(n),
{
    lemma_decimal(n as nat);
    assert(es_cifra(decimal(n as nat)[0]));
}

/// Las cifras son los diez caracteres de código 48 a 57.
pub proof fn ley_que_es_una_cifra(c: char)
    ensures
        es_cifra(c) <==> 48 <= c as int <= 57,
{
}

/// Cómo se escribe un número: el de una cifra es ella sola; el de más es el que queda sin
/// la última, seguido de ella; y no empieza con cero.
pub proof fn ley_como_se_escribe(n: nat)
    ensures
        n < 10 ==> decimal(n).len() == 1 && decimal(n)[0] as int == 48 + n,
        n >= 10 ==> {
            &&& decimal(n).drop_last() == decimal(n / 10)
            &&& decimal(n).len() > 1
            &&& decimal(n).last() as int == 48 + n % 10
        },
        n > 0 ==> decimal(n)[0] != '0',
    decreases n,
{
    if n >= 10 {
        ley_como_se_escribe(n / 10);
        assert(decimal(n).drop_last() =~= decimal(n / 10));
        assert(decimal(n)[0] == decimal(n / 10)[0]);
    }
}

/// El valor de unas cifras: cada una vale diez veces menos que la anterior, y la última
/// vale lo que dice. Un cero adelante no cuenta.
pub proof fn ley_valor_de_las_cifras(s: Seq<char>, c: char)
    ensures
        valor(Seq::<char>::empty()) == 0,
        valor(s.push(c)) == 10 * valor(s) + (c as int - 48),
        valor(seq!['0'] + s) == valor(s),
    decreases s.len(),
{
    assert(s.push(c).drop_last() =~= s);
    let t = seq!['0'] + s;
    if s.len() == 0 {
        assert(t.drop_last() =~= Seq::<char>::empty());
        assert(s =~= Seq::<char>::empty());
    } else {
        ley_valor_de_las_cifras(s.drop_last(), c);
        assert(t.drop_last() =~= seq!['0'] + s.drop_last());
    }
}

/// Qué se lee como un número de 32 bits: una o más cifras cuyo valor cabe, con o sin un
/// `+` adelante, y ese valor; nada más.
pub proof fn ley_que_se_lee(s: Seq<char>)
    ensures
        ({
            let cifras = s.len() > 0 && forall|i: int|
                0 <= i < s.len() ==> 48 <= (#[trigger] s[i]) as int <= 57;
            &&& cifras && valor(s) <= u32::MAX ==> {
                &&& leer_u32_spec(s) == Some(valor(s) as u32)
                &&& leer_u32_spec(seq!['+'] + s) == Some(valor(s) as u32)
            }
            &&& cifras && valor(s) > u32::MAX ==> {
                &&& leer_u32_spec(s) is None
                &&& leer_u32_spec(seq!['+'] + s) is None
            }
            &&& !cifras ==> leer_u32_spec(seq!['+'] + s) is None
            &&& !cifras && !(s.len() > 0 && s[0] == '+') ==> leer_u32_spec(s) is None
        }),
{
    let mas = seq!['+'] + s;
    assert(mas.skip(1) =~= s);
    let cifras = s.len() > 0 && forall|i: int|
        0 <= i < s.len() ==> 48 <= (#[trigger] s[i]) as int <= 57;
    if cifras {
        assert(48 <= s[0] as int <= 57);
        assert forall|i: int| 0 <= i < s.len() implies es_cifra(#[trigger] s[i]) by {
            assert(48 <= s[i] as int <= 57);
        }
    } else if s.len() > 0 {
        let i = choose|i: int|
            0 <= i < s.len() && !(48 <= (#[trigger] s[i]) as int && s[i] as int <= 57);
        assert(!es_cifra(s[i]));
    }
}

/// Un cero adelante no cambia lo que se lee.
pub proof fn ley_leer_con_cero(s: Seq<char>)
    requires
        s.len() > 0,
        forall|i: int| 0 <= i < s.len() ==> 48 <= (#[trigger] s[i]) as int <= 57,
    ensures
        leer_u32_spec(seq!['0'] + s) == leer_u32_spec(s),
{
    let t = seq!['0'] + s;
    assert forall|i: int| 0 <= i < t.len() implies 48 <= (#[trigger] t[i]) as int <= 57 by {
        if i > 0 {
            assert(t[i] == s[i - 1]);
        }
    }
    ley_valor_de_las_cifras(s, '0');
    ley_que_se_lee(s);
    ley_que_se_lee(t);
}

// ---------------------------------------------------------------------------
// Palabras
// ---------------------------------------------------------------------------

/// `c` separa palabras: es un espacio en blanco de Unicode (propiedad
/// `White_Space`).
pub open spec fn es_blanco(c: char) -> bool {
    let n = c as u32;
    ||| 0x9 <= n <= 0xd
    ||| n == 0x20
    ||| n == 0x85
    ||| n == 0xa0
    ||| n == 0x1680
    ||| 0x2000 <= n <= 0x200a
    ||| n == 0x2028
    ||| n == 0x2029
    ||| n == 0x202f
    ||| n == 0x205f
    ||| n == 0x3000
}

/// Largo de la palabra con que empieza `s`.
pub open spec fn largo_palabra(s: Seq<char>) -> nat
    decreases s.len(),
{
    if s.len() == 0 || es_blanco(s[0]) {
        0
    } else {
        1 + largo_palabra(s.skip(1))
    }
}

/// Las palabras de `s`: los tramos más largos posibles sin blancos, en orden.
pub open spec fn palabras(s: Seq<char>) -> Seq<Seq<char>>
    decreases s.len(),
{
    if s.len() == 0 {
        Seq::empty()
    } else if es_blanco(s[0]) {
        palabras(s.skip(1))
    } else {
        let k = 1 + largo_palabra(s.skip(1)) as int;
        proof {
            lemma_largo_acotado(s.skip(1));
        }
        seq![s.take(k)] + palabras(s.skip(k))
    }
}

/// Una palabra no es más larga que el texto con que empieza.
pub proof fn lemma_largo_acotado(s: Seq<char>)
    ensures
        largo_palabra(s) <= s.len(),
    decreases s.len(),
{
    if s.len() > 0 && !es_blanco(s[0]) {
        lemma_largo_acotado(s.skip(1));
    }
}

/// ¿Es un blanco?
pub fn blanco(c: char) -> (r: bool)
    ensures
        r == es_blanco(c),
{
    let n: u32 = c as u32;
    (0x9 <= n && n <= 0xd) || n == 0x20 || n == 0x85 || n == 0xa0 || n == 0x1680 || (0x2000 <= n
        && n <= 0x200a) || n == 0x2028 || n == 0x2029 || n == 0x202f || n == 0x205f || n == 0x3000
}

/// Las palabras como valores matemáticos.
pub open spec fn vistas(v: Seq<String>) -> Seq<Seq<char>> {
    v.map_values(|p: String| p@)
}

proof fn lemma_largo_palabra(s: Seq<char>, k: int)
    requires
        0 <= k <= s.len(),
        forall|i: int| 0 <= i < k ==> !es_blanco(#[trigger] s[i]),
        k == s.len() || es_blanco(s[k]),
    ensures
        largo_palabra(s) == k,
    decreases s.len(),
{
    if k > 0 {
        assert(!es_blanco(s[0]));
        let r = s.skip(1);
        assert forall|i: int| 0 <= i < k - 1 implies !es_blanco(#[trigger] r[i]) by {
            assert(!es_blanco(s[i + 1]));
        }
        lemma_largo_palabra(r, k - 1);
    }
}

/// Separa un texto en palabras.
pub fn separar(s: &str) -> (r: Vec<String>)
    ensures
        vistas(r@) == palabras(s@),
{
    let v = letras(s);
    let n = v.len();
    let mut r: Vec<String> = Vec::new();
    let mut i: usize = 0;
    assert(s@.skip(0) =~= s@);
    assert(vistas(r@) + palabras(s@) =~= palabras(s@));
    while i < n
        invariant
            i <= n,
            n == v@.len(),
            v@ == s@,
            vistas(r@) + palabras(s@.skip(i as int)) == palabras(s@),
        decreases n - i,
    {
        let ghost resto = s@.skip(i as int);
        assert(resto[0] == v@[i as int]);
        if blanco(v[i]) {
            assert(resto.skip(1) =~= s@.skip(i + 1));
            i += 1;
        } else {
            let mut j: usize = i + 1;
            while j < n && !blanco(v[j])
                invariant
                    i < j <= n,
                    n == v@.len(),
                    forall|k: int| i <= k < j ==> !es_blanco(#[trigger] v@[k]),
                decreases n - j,
            {
                j += 1;
            }
            let p = s.substring_char(i, j).to_owned();
            proof {
                let cola = resto.skip(1);
                let k = j - i - 1;
                assert forall|x: int| 0 <= x < k implies !es_blanco(#[trigger] cola[x]) by {
                    assert(!es_blanco(v@[i + 1 + x]));
                }
                if k < cola.len() {
                    assert(cola[k] == v@[j as int]);
                }
                lemma_largo_palabra(cola, k);
                assert(resto.take(1 + k) =~= p@);
                assert(resto.skip(1 + k) =~= s@.skip(j as int));
                let antes = vistas(r@);
                let despues = vistas(r@.push(p));
                assert(despues =~= antes.push(p@));
                assert(despues + palabras(s@.skip(j as int)) =~= antes + palabras(resto));
            }
            r.push(p);
            i = j;
        }
    }
    assert(palabras(s@.skip(i as int)) =~= Seq::<Seq<char>>::empty());
    assert(vistas(r@) + palabras(s@.skip(i as int)) =~= vistas(r@));
    r
}

/// Los blancos son los de Unicode, y ningún otro carácter.
pub proof fn ley_que_es_un_blanco(c: char)
    ensures
        es_blanco(c) <==> {
            let n = c as int;
            ||| n == 9 || n == 10 || n == 11 || n == 12 || n == 13 || n == 32
            ||| n == 133 || n == 160 || n == 5760
            ||| 8192 <= n <= 8202
            ||| n == 8232 || n == 8233 || n == 8239 || n == 8287 || n == 12288
        },
{
}

/// Un texto sin blancos es una sola palabra, y uno vacío, ninguna.
pub proof fn ley_una_palabra(s: Seq<char>)
    requires
        forall|i: int| 0 <= i < s.len() ==> !es_blanco(#[trigger] s[i]),
    ensures
        s.len() > 0 ==> palabras(s) == seq![s],
        s.len() == 0 ==> palabras(s) == Seq::<Seq<char>>::empty(),
{
    if s.len() > 0 {
        let cola = s.skip(1);
        assert(!es_blanco(s[0]));
        assert forall|i: int| 0 <= i < cola.len() implies !es_blanco(#[trigger] cola[i]) by {
            assert(!es_blanco(s[i + 1]));
        }
        lemma_largo_palabra(cola, cola.len() as int);
        assert(s.take(s.len() as int) =~= s);
        assert(palabras(s.skip(s.len() as int)) =~= Seq::<Seq<char>>::empty());
        assert(palabras(s) =~= seq![s]);
    }
}

/// La palabra con que empieza un texto no depende de lo que sigue a un blanco.
proof fn lemma_largo_hasta_el_blanco(a: Seq<char>, b: char, c: Seq<char>)
    requires
        es_blanco(b),
    ensures
        largo_palabra(a + seq![b] + c) == largo_palabra(a),
    decreases a.len(),
{
    let s = a + seq![b] + c;
    if a.len() == 0 {
        assert(s[0] == b);
    } else {
        assert(s[0] == a[0]);
        if !es_blanco(a[0]) {
            assert(s.skip(1) =~= a.skip(1) + seq![b] + c);
            lemma_largo_hasta_el_blanco(a.skip(1), b, c);
        }
    }
}

/// Un blanco separa: las palabras de un texto son las de antes de él y después las de
/// después de él.
pub proof fn ley_un_blanco_separa(a: Seq<char>, b: char, c: Seq<char>)
    requires
        es_blanco(b),
    ensures
        palabras(a + seq![b] + c) == palabras(a) + palabras(c),
    decreases a.len(),
{
    let s = a + seq![b] + c;
    if a.len() == 0 {
        assert(s[0] == b);
        assert(s.skip(1) =~= c);
        assert(palabras(a) + palabras(c) =~= palabras(c));
    } else if es_blanco(a[0]) {
        assert(s[0] == a[0]);
        assert(s.skip(1) =~= a.skip(1) + seq![b] + c);
        ley_un_blanco_separa(a.skip(1), b, c);
    } else {
        assert(s[0] == a[0]);
        assert(s.skip(1) =~= a.skip(1) + seq![b] + c);
        lemma_largo_hasta_el_blanco(a.skip(1), b, c);
        lemma_largo_acotado(a.skip(1));
        let k = 1 + largo_palabra(a.skip(1)) as int;
        assert(s.take(k) =~= a.take(k));
        assert(s.skip(k) =~= a.skip(k) + seq![b] + c);
        ley_un_blanco_separa(a.skip(k), b, c);
        assert(palabras(s) =~= palabras(a) + palabras(c));
    }
}

/// Ninguna palabra está vacía ni tiene blancos, y entre todas no tienen más letras que el
/// texto.
pub proof fn ley_las_palabras_no_tienen_blancos(s: Seq<char>, i: int, j: int)
    requires
        0 <= i < palabras(s).len(),
    ensures
        palabras(s)[i].len() > 0,
        0 <= j < palabras(s)[i].len() ==> !es_blanco(palabras(s)[i][j]),
        palabras(s)[i].len() <= s.len(),
    decreases s.len(),
{
    if s.len() > 0 {
        if es_blanco(s[0]) {
            ley_las_palabras_no_tienen_blancos(s.skip(1), i, j);
        } else {
            let k = 1 + largo_palabra(s.skip(1)) as int;
            lemma_largo_acotado(s.skip(1));
            if i == 0 {
                if 0 < j < k {
                    lemma_letra_de_palabra(s.skip(1), j - 1);
                }
            } else {
                assert(palabras(s)[i] == palabras(s.skip(k))[i - 1]);
                ley_las_palabras_no_tienen_blancos(s.skip(k), i - 1, j);
            }
        }
    }
}

proof fn lemma_letra_de_palabra(s: Seq<char>, j: int)
    requires
        0 <= j < largo_palabra(s),
    ensures
        j < s.len(),
        !es_blanco(s[j]),
    decreases s.len(),
{
    if j > 0 {
        lemma_letra_de_palabra(s.skip(1), j - 1);
    }
}

} // verus!
