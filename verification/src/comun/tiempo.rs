//! Tiempo, como un valor absoluto que puede viajar entre procesos, y la regla de
//! los plazos que usa el 2PC.

use std::time::{Duration, SystemTime, UNIX_EPOCH};

use vstd::prelude::*;

verus! {

/// Milisegundos por minuto.
pub const MS_POR_MINUTO: u64 = 60_000;

/// Instante en milisegundos desde el epoch UNIX.
///
/// Un valor absoluto, y no un reloj local de cada proceso, porque el monto a cobrar
/// depende de `t1 - t0` y los dos instantes se toman en máquinas distintas.
#[derive(Debug, Clone, Copy, PartialEq, Eq, PartialOrd, Ord, Hash, Structural)]
pub struct Timestamp(pub u64);

/// Declara `std::time::SystemTime`, el reloj del sistema. Se lo trata como un valor
/// opaco.
#[verifier::external_type_specification]
#[verifier::external_body]
pub struct ExSystemTime(SystemTime);

/// `SystemTime::now`: la hora actual del reloj del sistema. No se afirma nada de
/// ella.
#[verifier::external_body]
fn reloj() -> (t: SystemTime) {
    SystemTime::now()
}

/// `SystemTime::duration_since` respecto del epoch UNIX: el lapso transcurrido, o
/// nada si el reloj está antes del epoch. Como depende de la hora, no se afirma
/// cuál es.
#[verifier::external_body]
fn desde_epoch(t: SystemTime) -> (lapso: Option<Duration>) {
    match t.duration_since(UNIX_EPOCH) {
        Ok(lapso) => Some(lapso),
        Err(_) => None,
    }
}

/// `Duration::as_millis`: los milisegundos enteros de un lapso. El lapso es opaco,
/// así que no se afirma cuántos son.
#[verifier::external_body]
fn milisegundos(lapso: Duration) -> (ms: u128) {
    lapso.as_millis()
}

impl Timestamp {
    /// Minutos enteros entre `self` y `posterior`; ninguno si `posterior` es
    /// anterior.
    pub open spec fn minutos_enteros(self, posterior: Timestamp) -> int {
        if posterior.0 <= self.0 {
            0
        } else {
            (posterior.0 - self.0) / MS_POR_MINUTO as int
        }
    }

    /// Los minutos que se facturan entre `self` y `posterior`: los enteros, en 32 bits.
    pub open spec fn minutos_facturados(self, posterior: Timestamp) -> u32 {
        (self.minutos_enteros(posterior) % 0x1_0000_0000) as u32
    }

    /// El instante que está a `ms` milisegundos del epoch, en 64 bits.
    pub open spec fn instante(ms: u128) -> Timestamp {
        Timestamp((ms % 0x1_0000_0000_0000_0000) as u64)
    }

    /// El instante que está a `millis` milisegundos del epoch, o ninguno si el reloj
    /// está antes del epoch. Se conservan los 64 bits bajos, que alcanzan para más de
    /// quinientos millones de años.
    pub fn desde_millis(millis: Option<u128>) -> (t: Option<Timestamp>)
        ensures
            millis is None ==> t is None,
            millis matches Some(ms) ==> t == Some(Timestamp((ms % 0x1_0000_0000_0000_0000) as u64)),
            millis matches Some(ms) ==> t == Some(Timestamp::instante(ms)),
    {
        match millis {
            Some(ms) => Some(Timestamp((ms % 0x1_0000_0000_0000_0000) as u64)),
            None => None,
        }
    }

    /// Instante del momento actual, o ninguno si el reloj del sistema está antes del
    /// epoch UNIX. Qué instante es depende del reloj.
    pub fn ahora() -> (t: Option<Timestamp>) {
        let millis = match desde_epoch(reloj()) {
            Some(lapso) => Some(milisegundos(lapso)),
            None => None,
        };
        Timestamp::desde_millis(millis)
    }

    /// Minutos transcurridos entre `self` y un instante posterior, redondeados hacia
    /// abajo. Si `posterior` es anterior, devuelve 0. Se conservan los 32 bits bajos,
    /// que alcanzan para más de ocho mil años.
    pub fn minutos_hasta(self, posterior: Timestamp) -> (minutos: u32)
        ensures
            minutos == self.minutos_enteros(posterior) % 0x1_0000_0000,
            minutos == self.minutos_facturados(posterior),
    {
        let lapso: u64 = if posterior.0 > self.0 {
            posterior.0 - self.0
        } else {
            0
        };
        let minutos: u64 = lapso / MS_POR_MINUTO;
        (minutos % 0x1_0000_0000) as u32
    }
}

/// Resultado de un trabajo con plazo, cada vez que se lo revisa.
#[derive(Debug, Clone, Copy, PartialEq, Eq)]
pub enum Plazo<T> {
    /// Terminó a tiempo.
    Listo(T),
    /// Venció el plazo.
    Vencido,
    /// Todavía no pasó ninguna de las dos cosas.
    Pendiente,
}

/// Qué pasó con un trabajo con plazo.
pub open spec fn plazo_de<T>(resultado: Option<T>, vencido: bool) -> Plazo<T> {
    match resultado {
        Some(v) => Plazo::Listo(v),
        None => if vencido {
            Plazo::Vencido
        } else {
            Plazo::Pendiente
        },
    }
}

/// Decide qué pasó con un trabajo con plazo. Se mira primero el trabajo: si terminó,
/// vale su resultado aunque el plazo también haya vencido. Un participante del 2PC
/// cuyo plazo vence cuenta como un voto No implícito.
pub fn resolver_plazo<T>(resultado: Option<T>, vencido: bool) -> (plazo: Plazo<T>)
    ensures
        resultado matches Some(v) ==> plazo == Plazo::Listo(v),
        resultado is None && vencido ==> plazo == Plazo::<T>::Vencido,
        resultado is None && !vencido ==> plazo == Plazo::<T>::Pendiente,
        plazo == plazo_de(resultado, vencido),
{
    match resultado {
        Some(v) => Plazo::Listo(v),
        None => if vencido {
            Plazo::Vencido
        } else {
            Plazo::Pendiente
        },
    }
}

// ---------------------------------------------------------------------------
// Leyes
// ---------------------------------------------------------------------------

/// Los minutos entre dos instantes son los enteros que caben en el lapso: un minuto más
/// ya no entra. Hacia atrás no hay ninguno. Lo facturado es lo mismo mientras quepa en 32
/// bits; si no cabe, le faltan vueltas enteras.
pub proof fn ley_minutos(t0: Timestamp, t1: Timestamp)
    ensures
        t0.0 <= t1.0 ==> {
            let lapso = t1.0 - t0.0;
            let m = t0.minutos_enteros(t1);
            &&& 60_000 * m <= lapso < 60_000 * (m + 1)
            &&& lapso < 60_000 * 0x1_0000_0000 ==> {
                let f = t0.minutos_facturados(t1);
                60_000 * f <= lapso < 60_000 * (f + 1)
            }
        },
        t1.0 <= t0.0 ==> t0.minutos_enteros(t1) == 0 && t0.minutos_facturados(t1) == 0,
        t0.minutos_facturados(t1) <= t0.minutos_enteros(t1),
        (t0.minutos_enteros(t1) - t0.minutos_facturados(t1)) % 0x1_0000_0000 == 0,
{
}

/// Los minutos no bajan cuando el segundo instante avanza ni cuando el primero retrocede.
pub proof fn ley_minutos_no_bajan(t0: Timestamp, t1: Timestamp, antes: Timestamp, luego: Timestamp)
    requires
        antes.0 <= t0.0,
        t1.0 <= luego.0,
    ensures
        t0.minutos_enteros(t1) <= antes.minutos_enteros(luego),
{
}

/// Los minutos dependen del lapso y de nada más: correr los dos instantes no los cambia.
pub proof fn ley_minutos_del_lapso(a: Timestamp, b: Timestamp, c: Timestamp, d: Timestamp)
    requires
        b.0 - a.0 == d.0 - c.0,
    ensures
        a.minutos_enteros(b) == c.minutos_enteros(d),
        a.minutos_facturados(b) == c.minutos_facturados(d),
{
}

/// Partir un lapso en dos pierde a lo sumo un minuto por el redondeo, y no agrega ninguno.
pub proof fn ley_minutos_por_tramos(a: Timestamp, b: Timestamp, c: Timestamp)
    requires
        a.0 <= b.0 <= c.0,
    ensures
        a.minutos_enteros(b) + b.minutos_enteros(c) <= a.minutos_enteros(c) <= a.minutos_enteros(b)
            + b.minutos_enteros(c) + 1,
{
}

/// Un reloj que cabe en 64 bits da el instante exacto, así que a lecturas distintas
/// corresponden instantes distintos, en el mismo orden.
pub proof fn ley_instante_exacto(ms: u128, otros: u128)
    requires
        ms <= u64::MAX,
        otros <= u64::MAX,
    ensures
        Timestamp::instante(ms).0 == ms,
        Timestamp::instante(ms) == Timestamp::instante(otros) <==> ms == otros,
        Timestamp::instante(ms).0 < Timestamp::instante(otros).0 <==> ms < otros,
{
}

/// Un resultado que llegó vale siempre, haya vencido o no el plazo; sin resultado, lo que
/// decide es el plazo.
pub proof fn ley_el_resultado_manda<T>(resultado: Option<T>, vencido: bool)
    ensures
        resultado matches Some(v) ==> plazo_de(resultado, vencido) == Plazo::Listo(v),
        plazo_de(resultado, vencido) is Listo <==> resultado is Some,
        plazo_de(resultado, vencido) is Vencido <==> resultado is None && vencido,
        plazo_de(resultado, vencido) is Pendiente <==> resultado is None && !vencido,
{
}

} // verus!
