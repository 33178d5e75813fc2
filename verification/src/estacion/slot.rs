//! El slot: una posición física que puede tener o no una bicicleta.
//!
//! Es la unidad atómica del 2PC de alquiler: reserva tentativamente la bici en la
//! fase Prepare y la libera en Commit (o suelta la reserva en Abort). También
//! asegura bicis que llegan en una devolución.
//!
//! Los mensajes pueden llegar repetidos. El slot recuerda qué votó y qué bici
//! entregó a cada transacción, y a un repetido le contesta lo mismo que la primera
//! vez, sin volver a procesarlo.

use vstd::prelude::*;

use crate::comun::ids::{BiciId, TransaccionId};
use crate::comun::tabla::Tabla;
use crate::estacion::mensajes::{
    AbortLiberacion, AceptarBici, CommitLiberacion, EstadoSlot, PrepareLiberacion, Voto,
};

verus! {

/// Una posición de la estación.
pub struct Slot {
    id: u32,
    bici: Option<BiciId>,
    reservado_para: Option<TransaccionId>,
    /// Qué se votó en el Prepare de cada transacción.
    votos: Tabla<Voto>,
    /// Qué bici se llevó cada transacción que hizo Commit.
    entregas: Tabla<BiciId>,
}

// ---------------------------------------------------------------------------
// Modelo
// ---------------------------------------------------------------------------

/// El estado de un slot, con las transacciones por su texto.
#[verifier::ext_equal]
pub struct SlotVista {
    pub bici: Option<BiciId>,
    pub reserva: Option<Seq<char>>,
    pub votos: Map<Seq<char>, Voto>,
    pub entregas: Map<Seq<char>, BiciId>,
}

impl SlotVista {
    /// Una reserva es de una bici que está, de una transacción que recibió un voto
    /// Sí y que todavía no se llevó nada.
    pub open spec fn valido(self) -> bool {
        &&& self.reserva matches Some(tx) ==> {
            &&& self.bici is Some
            &&& self.votos.contains_key(tx)
            &&& self.votos[tx] == Voto::Si
            &&& !self.entregas.contains_key(tx)
        }
        &&& forall|tx: Seq<char>| #[trigger]
            self.entregas.contains_key(tx) ==> self.votos.contains_key(tx) && self.votos[tx]
                == Voto::Si
    }

    /// Tiene una bici que no está reservada.
    pub open spec fn disponible(self) -> bool {
        self.bici is Some && self.reserva is None
    }

    /// El voto del Prepare de `tx`: el mismo de antes si ya votó; si no, Sí cuando
    /// tiene una bici sin reservar.
    pub open spec fn voto(self, tx: Seq<char>) -> Voto {
        if self.votos.contains_key(tx) {
            self.votos[tx]
        } else if self.disponible() {
            Voto::Si
        } else {
            Voto::No
        }
    }

    /// Tras el Prepare de `tx`.
    pub open spec fn preparado(self, tx: Seq<char>) -> SlotVista {
        if self.votos.contains_key(tx) {
            self
        } else {
            SlotVista {
                reserva: if self.disponible() {
                    Some(tx)
                } else {
                    self.reserva
                },
                votos: self.votos.insert(tx, self.voto(tx)),
                ..self
            }
        }
    }

    /// La bici que entrega el Commit de `tx`: la reservada para ella, o la que ya se
    /// había llevado.
    pub open spec fn entrega(self, tx: Seq<char>) -> Option<BiciId> {
        if self.reserva == Some(tx) {
            self.bici
        } else if self.entregas.contains_key(tx) {
            Some(self.entregas[tx])
        } else {
            None
        }
    }

    /// Tras el Commit de `tx`.
    pub open spec fn commiteado(self, tx: Seq<char>) -> SlotVista {
        if self.reserva == Some(tx) {
            SlotVista {
                bici: None,
                reserva: None,
                entregas: self.entregas.insert(tx, self.bici->0),
                ..self
            }
        } else {
            self
        }
    }

    /// Tras el Abort de `tx`.
    pub open spec fn abortado(self, tx: Seq<char>) -> SlotVista {
        if self.reserva == Some(tx) {
            SlotVista { reserva: None, ..self }
        } else {
            self
        }
    }

    /// Tras acercarle la bici `b`.
    pub open spec fn con_bici_acercada(self, b: BiciId) -> SlotVista {
        if self.bici is None {
            SlotVista { bici: Some(b), ..self }
        } else {
            self
        }
    }
}

/// Un slot sin historia, con o sin bici.
pub open spec fn slot_inicial(bici: Option<BiciId>) -> SlotVista {
    SlotVista { bici, reserva: None, votos: Map::empty(), entregas: Map::empty() }
}

impl View for Slot {
    type V = SlotVista;

    closed spec fn view(&self) -> SlotVista {
        SlotVista {
            bici: self.bici,
            reserva: match self.reservado_para {
                Some(tx) => Some(tx@),
                None => None,
            },
            votos: self.votos@,
            entregas: self.entregas@,
        }
    }
}

// ---------------------------------------------------------------------------
// Operaciones
// ---------------------------------------------------------------------------

impl Slot {
    /// El slot está bien formado.
    pub closed spec fn valido(self) -> bool {
        self.votos.valida() && self.entregas.valida() && self@.valido()
    }

    /// El número del slot en su estación.
    pub closed spec fn numero(self) -> u32 {
        self.id
    }

    /// Crea un slot vacío.
    pub fn nuevo(id: u32) -> (slot: Self)
        ensures
            slot.valido(),
            slot.numero() == id,
            slot@ == slot_inicial(None),
    {
        Slot {
            id,
            bici: None,
            reservado_para: None,
            votos: Tabla::nueva(),
            entregas: Tabla::nueva(),
        }
    }

    /// Crea un slot que ya tiene una bici asegurada.
    pub fn con_bici(id: u32, bici: BiciId) -> (slot: Self)
        ensures
            slot.valido(),
            slot.numero() == id,
            slot@ == slot_inicial(Some(bici)),
    {
        Slot {
            id,
            bici: Some(bici),
            reservado_para: None,
            votos: Tabla::nueva(),
            entregas: Tabla::nueva(),
        }
    }

    /// El número del slot.
    pub fn id(&self) -> (id: u32)
        ensures
            id == self.numero(),
    {
        self.id
    }

    /// ¿Está reservado para esta transacción?
    fn reservado_por(&self, tx_id: &TransaccionId) -> (r: bool)
        ensures
            r == (self@.reserva == Some(tx_id@)),
    {
        match &self.reservado_para {
            Some(tx) => tx.0 == tx_id.0,
            None => false,
        }
    }

    /// Fase Prepare: vota Sí solo si tiene una bici y no está ya reservado para otra
    /// transacción. A una transacción que ya votó le repite el voto.
    pub fn prepare_liberacion(&mut self, msg: PrepareLiberacion) -> (voto: Voto)
        requires
            old(self).valido(),
        ensures
            final(self).valido(),
            final(self).numero() == old(self).numero(),
            voto == old(self)@.voto(msg.tx_id@),
            final(self)@ == old(self)@.preparado(msg.tx_id@),
    {
        if let Some(voto) = self.votos.buscar(&msg.tx_id.0) {
            return *voto;
        }
        if self.bici.is_some() && self.reservado_para.is_none() {
            self.votos.poner(msg.tx_id.0.clone(), Voto::Si);
            self.reservado_para = Some(msg.tx_id);
            Voto::Si
        } else {
            self.votos.poner(msg.tx_id.0, Voto::No);
            Voto::No
        }
    }

    /// Fase Commit: entrega la bici reservada por la transacción. Si la transacción
    /// ya se la había llevado, contesta la misma bici; si no la tenía reservada,
    /// ninguna.
    pub fn commit_liberacion(&mut self, msg: CommitLiberacion) -> (bici: Option<BiciId>)
        requires
            old(self).valido(),
        ensures
            final(self).valido(),
            final(self).numero() == old(self).numero(),
            bici == old(self)@.entrega(msg.tx_id@),
            final(self)@ == old(self)@.commiteado(msg.tx_id@),
    {
        if self.reservado_por(&msg.tx_id) {
            let bici = self.bici;
            if let Some(b) = bici {
                self.entregas.poner(msg.tx_id.0, b);
            }
            self.reservado_para = None;
            self.bici = None;
            bici
        } else {
            match self.entregas.buscar(&msg.tx_id.0) {
                Some(b) => Some(*b),
                None => None,
            }
        }
    }

    /// Abort: suelta la reserva de la transacción. No toca la bici, ni la reserva de
    /// otra transacción.
    pub fn abort_liberacion(&mut self, msg: AbortLiberacion)
        requires
            old(self).valido(),
        ensures
            final(self).valido(),
            final(self).numero() == old(self).numero(),
            final(self)@ == old(self)@.abortado(msg.tx_id@),
    {
        if self.reservado_por(&msg.tx_id) {
            self.reservado_para = None;
        }
    }

    /// Asegura una bici que llega. `true` si la aseguró (estaba vacío), `false` si ya
    /// estaba ocupado.
    pub fn aceptar_bici(&mut self, msg: AceptarBici) -> (asegurada: bool)
        requires
            old(self).valido(),
        ensures
            final(self).valido(),
            final(self).numero() == old(self).numero(),
            asegurada == (old(self)@.bici is None),
            final(self)@ == old(self)@.con_bici_acercada(msg.bici_id),
    {
        if self.bici.is_none() {
            self.bici = Some(msg.bici_id);
            true
        } else {
            false
        }
    }

    /// El estado actual del slot.
    pub fn consultar_estado(&self) -> (estado: EstadoSlot)
        ensures
            estado.ocupado == (self@.bici is Some),
            estado.bici_id == self@.bici,
    {
        EstadoSlot { ocupado: self.bici.is_some(), bici_id: self.bici }
    }
}

// ---------------------------------------------------------------------------
// Leyes
// ---------------------------------------------------------------------------

/// El estado de un slot bien formado cumple el invariante del modelo.
pub proof fn ley_vista_valida(s: Slot)
    requires
        s.valido(),
    ensures
        s@.valido(),
{
}

/// Una operación sobre el slot.
pub enum Paso {
    Prepare(Seq<char>),
    Commit(Seq<char>),
    Abort(Seq<char>),
    Acercar(BiciId),
}

impl SlotVista {
    /// Tras un paso.
    pub open spec fn tras_paso(self, p: Paso) -> SlotVista {
        match p {
            Paso::Prepare(tx) => self.preparado(tx),
            Paso::Commit(tx) => self.commiteado(tx),
            Paso::Abort(tx) => self.abortado(tx),
            Paso::Acercar(b) => self.con_bici_acercada(b),
        }
    }

    /// Tras una serie de pasos, en orden.
    pub open spec fn tras(self, pasos: Seq<Paso>) -> SlotVista
        decreases pasos.len(),
    {
        if pasos.len() == 0 {
            self
        } else {
            self.tras(pasos.drop_last()).tras_paso(pasos.last())
        }
    }
}

/// Lo que se conserva a lo largo de cualquier serie de pasos: la buena formación,
/// los votos dados y las entregas hechas; y una transacción que ya votó y que no
/// tiene la reserva no la vuelve a tener.
pub proof fn ley_historia_estable(s: SlotVista, pasos: Seq<Paso>, tx: Seq<char>)
    requires
        s.valido(),
    ensures
        s.tras(pasos).valido(),
        s.votos.contains_key(tx) ==> s.tras(pasos).votos.contains_key(tx) && s.tras(pasos).votos[tx]
            == s.votos[tx],
        s.entregas.contains_key(tx) ==> s.tras(pasos).entregas.contains_key(tx) && s.tras(
            pasos,
        ).entregas[tx] == s.entregas[tx],
        s.votos.contains_key(tx) && s.reserva != Some(tx) ==> {
            &&& s.tras(pasos).reserva != Some(tx)
            &&& s.tras(pasos).entregas.contains_key(tx) == s.entregas.contains_key(tx)
        },
    decreases pasos.len(),
{
    if pasos.len() > 0 {
        ley_historia_estable(s, pasos.drop_last(), tx);
    }
}

/// Un Prepare repetido recibe el mismo voto que la primera vez y no cambia nada,
/// haya pasado lo que haya pasado en el medio.
pub proof fn ley_prepare_idempotente(s: SlotVista, pasos: Seq<Paso>, tx: Seq<char>)
    requires
        s.valido(),
    ensures
        s.preparado(tx).tras(pasos).voto(tx) == s.voto(tx),
        s.preparado(tx).tras(pasos).preparado(tx) == s.preparado(tx).tras(pasos),
{
    ley_historia_estable(s.preparado(tx), pasos, tx);
}

/// Un Commit repetido de una transacción preparada contesta la misma bici que la
/// primera vez y no cambia nada, haya pasado lo que haya pasado en el medio.
pub proof fn ley_commit_idempotente(s: SlotVista, pasos: Seq<Paso>, tx: Seq<char>)
    requires
        s.valido(),
        s.votos.contains_key(tx),
    ensures
        s.commiteado(tx).tras(pasos).entrega(tx) == s.entrega(tx),
        s.commiteado(tx).tras(pasos).commiteado(tx) == s.commiteado(tx).tras(pasos),
{
    ley_historia_estable(s.commiteado(tx), pasos, tx);
}

/// Un Abort repetido de una transacción preparada no cambia nada, haya pasado lo
/// que haya pasado en el medio; y tras él la transacción ya no puede llevarse la
/// bici.
pub proof fn ley_abort_idempotente(s: SlotVista, pasos: Seq<Paso>, tx: Seq<char>)
    requires
        s.valido(),
        s.votos.contains_key(tx),
    ensures
        s.abortado(tx).tras(pasos).abortado(tx) == s.abortado(tx).tras(pasos),
        s.abortado(tx).tras(pasos).commiteado(tx) == s.abortado(tx).tras(pasos),
{
    ley_historia_estable(s.abortado(tx), pasos, tx);
}

/// Votar Sí por primera vez y commitear entrega la bici que había y deja el slot
/// vacío y sin reserva.
pub proof fn ley_si_y_commit_entrega_la_bici(s: SlotVista, tx: Seq<char>)
    requires
        s.valido(),
        !s.votos.contains_key(tx),
        s.voto(tx) == Voto::Si,
    ensures
        s.preparado(tx).entrega(tx) == s.bici,
        s.bici is Some,
        s.preparado(tx).commiteado(tx).bici is None,
        s.preparado(tx).commiteado(tx).reserva is None,
{
}

/// Votar Sí por primera vez y abortar deja la bici en su lugar y el slot sin
/// reserva: puede volver a votar Sí a otra transacción.
pub proof fn ley_si_y_abort_conserva_la_bici(s: SlotVista, tx: Seq<char>, otra: Seq<char>)
    requires
        s.valido(),
        !s.votos.contains_key(tx),
        s.voto(tx) == Voto::Si,
        otra != tx,
        !s.votos.contains_key(otra),
    ensures
        s.preparado(tx).abortado(tx).bici == s.bici,
        s.preparado(tx).abortado(tx).reserva is None,
        s.preparado(tx).abortado(tx).voto(otra) == Voto::Si,
{
}

/// Mientras está reservado, el slot vota No a cualquier otra transacción nueva, y
/// ni el Commit ni el Abort de otra le sacan la bici o la reserva.
pub proof fn ley_la_reserva_es_exclusiva(s: SlotVista, tx: Seq<char>, otra: Seq<char>)
    requires
        s.valido(),
        s.reserva == Some(tx),
        otra != tx,
    ensures
        !s.votos.contains_key(otra) ==> s.voto(otra) == Voto::No,
        s.preparado(otra).reserva == s.reserva,
        s.preparado(otra).bici == s.bici,
        s.commiteado(otra) == s,
        s.abortado(otra) == s,
{
}

/// Lo único que saca una bici del slot es el Commit de la transacción que la tenía
/// reservada; lo único que pone una es acercarla a un slot vacío.
pub proof fn ley_la_bici_no_se_pierde(s: SlotVista, tx: Seq<char>, b: BiciId)
    requires
        s.valido(),
    ensures
        s.preparado(tx).bici == s.bici,
        s.abortado(tx).bici == s.bici,
        s.commiteado(tx).bici != s.bici ==> s.reserva == Some(tx) && s.commiteado(tx).bici is None
            && s.entrega(tx) == s.bici,
        s.bici is Some ==> s.con_bici_acercada(b) == s,
        s.bici is None ==> s.con_bici_acercada(b).bici == Some(b),
{
}

/// Una transacción a la que se le votó No nunca se lleva una bici de este slot.
pub proof fn ley_voto_no_no_entrega(s: SlotVista, tx: Seq<char>)
    requires
        s.valido(),
        s.voto(tx) == Voto::No,
    ensures
        s.preparado(tx).entrega(tx) is None,
        s.preparado(tx).commiteado(tx) == s.preparado(tx),
        s.preparado(tx).bici == s.bici,
{
}

/// Cómo vota un slot: a una transacción nueva, Sí si y solo si tiene una bici y nadie la
/// reservó, sea la bici que sea; a una que ya votó, lo mismo que entonces.
pub proof fn ley_como_vota(s: SlotVista, tx: Seq<char>)
    ensures
        s.disponible() <==> s.bici is Some && s.reserva is None,
        !s.votos.contains_key(tx) ==> (s.voto(tx) == Voto::Si <==> s.bici is Some && s.reserva
            is None),
        s.votos.contains_key(tx) ==> s.voto(tx) == s.votos[tx],
{
}

/// Lo que cambia con un Prepare: se anota el voto y, si es Sí, la reserva. La bici, lo
/// entregado y los demás votos quedan como estaban. Uno repetido no cambia nada.
pub proof fn ley_efecto_del_prepare(s: SlotVista, tx: Seq<char>)
    ensures
        s.preparado(tx).bici == s.bici,
        s.preparado(tx).entregas == s.entregas,
        s.votos.contains_key(tx) ==> s.preparado(tx) == s,
        !s.votos.contains_key(tx) && s.bici is Some && s.reserva is None ==> {
            &&& s.preparado(tx).reserva == Some(tx)
            &&& s.preparado(tx).votos == s.votos.insert(tx, Voto::Si)
        },
        !s.votos.contains_key(tx) && !(s.bici is Some && s.reserva is None) ==> {
            &&& s.preparado(tx).reserva == s.reserva
            &&& s.preparado(tx).votos == s.votos.insert(tx, Voto::No)
        },
{
}

/// Lo que hace un Commit: el de la transacción que tiene la reserva entrega la bici, vacía
/// el slot y lo anota; el de una que ya se la llevó contesta la misma; el de otra, nada. En
/// los dos últimos casos el slot no cambia.
pub proof fn ley_efecto_del_commit(s: SlotVista, tx: Seq<char>)
    ensures
        s.commiteado(tx).votos == s.votos,
        s.reserva == Some(tx) && s.bici is Some ==> {
            &&& s.entrega(tx) == s.bici
            &&& s.commiteado(tx).bici is None
            &&& s.commiteado(tx).reserva is None
            &&& s.commiteado(tx).entregas == s.entregas.insert(tx, s.bici->0)
        },
        s.reserva != Some(tx) ==> s.commiteado(tx) == s,
        s.reserva != Some(tx) && s.entregas.contains_key(tx) ==> s.entrega(tx) == Some(
            s.entregas[tx],
        ),
        s.reserva != Some(tx) && !s.entregas.contains_key(tx) ==> s.entrega(tx) is None,
{
}

/// Lo que hace un Abort: suelta la reserva si es de esa transacción, y nada más.
pub proof fn ley_efecto_del_abort(s: SlotVista, tx: Seq<char>)
    ensures
        s.reserva == Some(tx) ==> s.abortado(tx).reserva is None,
        s.reserva != Some(tx) ==> s.abortado(tx).reserva == s.reserva,
        s.abortado(tx).bici == s.bici,
        s.abortado(tx).votos == s.votos,
        s.abortado(tx).entregas == s.entregas,
{
}

/// Lo que hace acercar una bici: queda en el slot si estaba vacío, y nada más.
pub proof fn ley_efecto_de_acercar(s: SlotVista, b: BiciId)
    ensures
        s.bici is None ==> s.con_bici_acercada(b).bici == Some(b),
        s.bici is Some ==> s.con_bici_acercada(b).bici == s.bici,
        s.con_bici_acercada(b).reserva == s.reserva,
        s.con_bici_acercada(b).votos == s.votos,
        s.con_bici_acercada(b).entregas == s.entregas,
{
}

/// Un slot nuevo tiene la bici que se le puso, sin reserva y sin historia: vota Sí a
/// cualquiera si y solo si la tiene.
pub proof fn ley_slot_nuevo(bici: Option<BiciId>, tx: Seq<char>)
    ensures
        slot_inicial(bici).bici == bici,
        slot_inicial(bici).reserva is None,
        !slot_inicial(bici).votos.contains_key(tx),
        !slot_inicial(bici).entregas.contains_key(tx),
        slot_inicial(bici).voto(tx) == Voto::Si <==> bici is Some,
{
}

} // verus!
