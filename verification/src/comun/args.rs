//! Parsing mínimo de argumentos de línea de comandos.

use vstd::prelude::*;

verus! {

/// La posición de la primera aparición de `nombre` a partir de `i`.
pub open spec fn posicion_desde(args: Seq<String>, nombre: Seq<char>, i: int) -> Option<int>
    decreases args.len() - i,
{
    if i < 0 || i >= args.len() {
        None
    } else if args[i]@ == nombre {
        Some(i)
    } else {
        posicion_desde(args, nombre, i + 1)
    }
}

/// El valor que sigue a la primera aparición de `nombre`.
pub open spec fn valor_de(args: Seq<String>, nombre: Seq<char>) -> Option<Seq<char>> {
    match posicion_desde(args, nombre, 0) {
        Some(i) => if i + 1 < args.len() {
            Some(args[i + 1]@)
        } else {
            None
        },
        None => None,
    }
}

/// Devuelve el valor que sigue a una bandera `--nombre valor` en los argumentos, o
/// `None` si la bandera no está o no la sigue nada.
pub fn flag(args: &Vec<String>, nombre: &str) -> (r: Option<String>)
    ensures
        match r {
            Some(v) => valor_de(args@, nombre@) == Some(v@),
            None => valor_de(args@, nombre@) is None,
        },
{
    let buscado = nombre.to_owned();
    let mut i: usize = 0;
    while i < args.len()
        invariant
            i <= args@.len(),
            buscado@ == nombre@,
            posicion_desde(args@, nombre@, 0) == posicion_desde(args@, nombre@, i as int),
        decreases args@.len() - i,
    {
        if args[i] == buscado {
            if i + 1 < args.len() {
                return Some(args[i + 1].clone());
            }
            return None;
        }
        i += 1;
    }
    None
}

/// El valor de una bandera es el argumento que sigue a su primera aparición, esté donde
/// esté; si no la sigue nada, no tiene.
pub proof fn ley_valor_de_la_bandera(args: Seq<String>, nombre: Seq<char>, i: int)
    requires
        0 <= i < args.len(),
        args[i]@ == nombre,
        forall|j: int| 0 <= j < i ==> (#[trigger] args[j])@ != nombre,
    ensures
        i + 1 < args.len() ==> valor_de(args, nombre) == Some(args[i + 1]@),
        i + 1 == args.len() ==> valor_de(args, nombre) is None,
{
    lemma_posicion(args, nombre, 0, i);
}

/// Una bandera que no está no tiene valor.
pub proof fn ley_bandera_ausente(args: Seq<String>, nombre: Seq<char>)
    requires
        forall|j: int| 0 <= j < args.len() ==> (#[trigger] args[j])@ != nombre,
    ensures
        valor_de(args, nombre) is None,
{
    lemma_posicion(args, nombre, 0, args.len() as int);
}

/// Si hasta `i` no está, la primera aparición es la de `i`, o ninguna si `i` es el final.
proof fn lemma_posicion(args: Seq<String>, nombre: Seq<char>, desde: int, i: int)
    requires
        0 <= desde <= i <= args.len(),
        i < args.len() ==> args[i]@ == nombre,
        forall|j: int| desde <= j < i ==> (#[trigger] args[j])@ != nombre,
    ensures
        posicion_desde(args, nombre, desde) == if i < args.len() {
            Some(i)
        } else {
            None
        },
    decreases i - desde,
{
    if desde < i {
        assert(args[desde]@ != nombre);
        lemma_posicion(args, nombre, desde + 1, i);
    }
}

} // verus!
