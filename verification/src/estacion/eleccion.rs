//! Elección de líder por **anillo**.
//!
//! La lógica vive acá, separada del resto de la estación: `Estacion` convierte las
//! [`AccionRing`] que devuelven estos métodos en envíos a direcciones concretas, y toma
//! el rol que le toca con cada líder.
//!
//! Mecánica: una estación arranca la elección haciendo circular un `Election` que
//! **acumula ids** por el anillo. Cuando el mensaje vuelve al iniciador, gana el
//! id mayor y se anuncia con un `Coordinator` que recorre el anillo y, al volver
//! al que lo emitió, lo cierra. El `term` se incrementa en cada elección para
//! descartar anuncios viejos. A una estación que no responde, los mensajes la saltean.

use vstd::prelude::*;

use crate::comun::ids::EstacionId;
use crate::comun::mensajes::estacion_estacion::MensajeEntreEstacionesTCP;
use crate::estacion::mensajes::InfoLider;

verus! {

/// Conocimiento de una estación sobre quién es el líder.
#[derive(Debug, Clone, Copy, PartialEq, Eq, Structural)]
pub enum EstadoLider {
    /// Hay un líder confirmado por el último `Coordinator`.
    Conocido(EstacionId),
    /// Hay una elección en curso (circuló un `Election` que todavía no cerró).
    EnEleccion,
    /// Todavía no se aprendió quién es el líder.
    Desconocido,
}

/// Lo que la estación debe hacer tras procesar un mensaje del anillo: resolver la
/// dirección del `destino` y mandarle el `mensaje` por TCP.
#[allow(inconsistent_fields)]
#[derive(Debug, Clone, PartialEq)]
pub enum AccionRing {
    /// El mensaje era obsoleto o ya dio la vuelta: no hay nada que hacer.
    Ignorar,
    /// Reenviar `mensaje` al siguiente nodo del anillo.
    Reenviar { destino: EstacionId, mensaje: MensajeEntreEstacionesTCP },
    /// Asumo el liderazgo (el `Coordinator` me nombra a mí) y, si el anillo tiene
    /// más de un nodo, reenvío el anuncio para que el resto se entere.
    AsumirYReenviar { destino: Option<EstacionId>, mensaje: MensajeEntreEstacionesTCP },
}

/// Estado de elección de una estación: su lugar en el anillo, el término actual y
/// a quién reconoce como líder.
pub struct Eleccion {
    mi_id: EstacionId,
    /// Ids de todas las estaciones del anillo, ordenados ascendentemente. El
    /// "siguiente" de cada nodo es el de id inmediato mayor, y del mayor se vuelve
    /// al menor.
    anillo: Vec<EstacionId>,
    term: u64,
    estado: EstadoLider,
}

// ---------------------------------------------------------------------------
// Modelo
// ---------------------------------------------------------------------------

/// Mensaje del anillo, como valor matemático.
pub enum MensajeRing {
    Election { ids: Seq<EstacionId>, iniciador: EstacionId },
    Coordinator { lider: EstacionId, term: u64 },
    /// Cualquier mensaje que no es del anillo.
    Ajeno,
}

/// Una [`AccionRing`], como valor matemático.
#[allow(inconsistent_fields)]
pub enum AccionVista {
    Ignorar,
    Reenviar { destino: EstacionId, mensaje: MensajeRing },
    AsumirYReenviar { destino: Option<EstacionId>, mensaje: MensajeRing },
}

/// El estado de elección de un nodo, como valor matemático.
pub struct NodoRing {
    pub mi_id: EstacionId,
    pub anillo: Seq<EstacionId>,
    pub term: u64,
    pub estado: EstadoLider,
}

/// El mensaje del anillo que lleva un mensaje entre estaciones.
pub open spec fn mensaje_ring(m: MensajeEntreEstacionesTCP) -> MensajeRing {
    match m {
        MensajeEntreEstacionesTCP::Election { ids, iniciador } => MensajeRing::Election {
            ids: ids@,
            iniciador,
        },
        MensajeEntreEstacionesTCP::Coordinator { lider, term } => MensajeRing::Coordinator {
            lider,
            term,
        },
        _ => MensajeRing::Ajeno,
    }
}

impl View for AccionRing {
    type V = AccionVista;

    open spec fn view(&self) -> AccionVista {
        match *self {
            AccionRing::Ignorar => AccionVista::Ignorar,
            AccionRing::Reenviar { destino, mensaje } => AccionVista::Reenviar {
                destino,
                mensaje: mensaje_ring(mensaje),
            },
            AccionRing::AsumirYReenviar { destino, mensaje } => AccionVista::AsumirYReenviar {
                destino,
                mensaje: mensaje_ring(mensaje),
            },
        }
    }
}

impl View for Eleccion {
    type V = NodoRing;

    closed spec fn view(&self) -> NodoRing {
        NodoRing {
            mi_id: self.mi_id,
            anillo: self.anillo@,
            term: self.term,
            estado: self.estado,
        }
    }
}

/// Los ids están en orden estrictamente creciente.
pub open spec fn creciente(ids: Seq<EstacionId>) -> bool {
    forall|i: int, j: int| 0 <= i < j < ids.len() ==> (#[trigger] ids[i]).0 < (#[trigger] ids[j]).0
}

/// El mayor de `ids`, o `defecto` si no hay ninguno.
pub open spec fn mayor(ids: Seq<EstacionId>, defecto: EstacionId) -> EstacionId
    decreases ids.len(),
{
    if ids.len() == 0 {
        defecto
    } else if ids.len() == 1 {
        ids[0]
    } else {
        let m = mayor(ids.drop_last(), defecto);
        if ids.last().0 >= m.0 {
            ids.last()
        } else {
            m
        }
    }
}

impl NodoRing {
    /// El anillo está ordenado, no repite nodos y contiene al propio.
    pub open spec fn valido(self) -> bool {
        &&& creciente(self.anillo)
        &&& self.anillo.contains(self.mi_id)
    }

    /// El que sigue a `id` en el anillo: el de la posición siguiente, con vuelta al
    /// principio.
    pub open spec fn siguiente_de(self, id: EstacionId) -> EstacionId {
        self.anillo[(self.anillo.index_of(id) + 1) % self.anillo.len() as int]
    }

    /// Siguiente del anillo. `None` si el nodo está solo.
    pub open spec fn siguiente(self) -> Option<EstacionId> {
        if self.anillo.len() < 2 {
            None
        } else {
            Some(self.siguiente_de(self.mi_id))
        }
    }

    /// Anuncia `lider` en `term`: asume si es el propio nodo, o reenvía.
    pub open spec fn anuncio(self, lider: EstacionId, term: u64) -> AccionVista {
        let mensaje = MensajeRing::Coordinator { lider, term };
        if lider == self.mi_id {
            AccionVista::AsumirYReenviar { destino: self.siguiente(), mensaje }
        } else {
            match self.siguiente() {
                Some(destino) => AccionVista::Reenviar { destino, mensaje },
                None => AccionVista::Ignorar,
            }
        }
    }

    /// El nodo tras adoptar `lider` en `term`.
    pub open spec fn con_lider(self, lider: EstacionId, term: u64) -> NodoRing {
        NodoRing { term, estado: EstadoLider::Conocido(lider), ..self }
    }

    /// Efecto de arrancar una elección.
    pub open spec fn iniciar(self) -> (NodoRing, AccionVista) {
        match self.siguiente() {
            Some(destino) => (
                NodoRing { estado: EstadoLider::EnEleccion, ..self },
                AccionVista::Reenviar {
                    destino,
                    mensaje: MensajeRing::Election {
                        ids: seq![self.mi_id],
                        iniciador: self.mi_id,
                    },
                },
            ),
            None => self.cerrar(Seq::empty()),
        }
    }

    /// Efecto de cerrar la elección que reunió `ids`: gana el mayor, en un término
    /// nuevo.
    pub open spec fn cerrar(self, ids: Seq<EstacionId>) -> (NodoRing, AccionVista) {
        let ganador = mayor(ids, self.mi_id);
        let term = (self.term + 1) as u64;
        (self.con_lider(ganador, term), self.anuncio(ganador, term))
    }

    /// Efecto de recibir un `Election`.
    pub open spec fn recibir_election(
        self,
        ids: Seq<EstacionId>,
        iniciador: EstacionId,
    ) -> (NodoRing, AccionVista) {
        if iniciador == self.mi_id {
            self.cerrar(ids)
        } else {
            (
                NodoRing { estado: EstadoLider::EnEleccion, ..self },
                if ids.contains(self.mi_id) {
                    AccionVista::Ignorar
                } else {
                    match self.siguiente() {
                        Some(destino) => AccionVista::Reenviar {
                            destino,
                            mensaje: MensajeRing::Election { ids: ids.push(self.mi_id), iniciador },
                        },
                        None => AccionVista::Ignorar,
                    }
                },
            )
        }
    }

    /// El anuncio `(lider, term)` no trae nada nuevo: su término es viejo, o ya se
    /// reconocía a ese líder en ese término.
    pub open spec fn anuncio_viejo(self, lider: EstacionId, term: u64) -> bool {
        ||| term < self.term
        ||| term == self.term && self.estado == EstadoLider::Conocido(lider)
    }

    /// Efecto de recibir un `Coordinator`.
    pub open spec fn recibir_coordinator(self, lider: EstacionId, term: u64) -> (
        NodoRing,
        AccionVista,
    ) {
        if self.anuncio_viejo(lider, term) {
            (self, AccionVista::Ignorar)
        } else {
            (self.con_lider(lider, term), self.anuncio(lider, term))
        }
    }

    /// El nodo tras enterarse de que hay un término mayor, sin saber quién es su líder.
    pub open spec fn con_term(self, term: u64) -> NodoRing {
        NodoRing { term, estado: EstadoLider::Desconocido, ..self }
    }

    /// A quién reconoce como líder, en qué término, y si es él mismo.
    pub open spec fn informe(self) -> InfoLider {
        InfoLider {
            lider_id: match self.estado {
                EstadoLider::Conocido(lider) => Some(lider),
                _ => None,
            },
            term: self.term,
            soy_lider: self.estado == EstadoLider::Conocido(self.mi_id),
        }
    }

    /// Efecto de recibir un mensaje del anillo.
    pub open spec fn recibir(self, mensaje: MensajeRing) -> (NodoRing, AccionVista) {
        match mensaje {
            MensajeRing::Election { ids, iniciador } => self.recibir_election(ids, iniciador),
            MensajeRing::Coordinator { lider, term } => self.recibir_coordinator(lider, term),
            MensajeRing::Ajeno => (self, AccionVista::Ignorar),
        }
    }

    /// Efecto de no haber podido entregarle `mensaje` a `caida`: se la saltea. El mensaje
    /// va a la que le sigue; si la que le sigue es este nodo, dio la vuelta.
    pub open spec fn saltear(self, caida: EstacionId, mensaje: MensajeRing) -> (
        NodoRing,
        AccionVista,
    ) {
        if !self.anillo.contains(caida) || mensaje is Ajeno {
            (self, AccionVista::Ignorar)
        } else if self.siguiente_de(caida) == self.mi_id {
            self.recibir(mensaje)
        } else {
            (self, AccionVista::Reenviar { destino: self.siguiente_de(caida), mensaje })
        }
    }
}

// ---------------------------------------------------------------------------
// Operaciones
// ---------------------------------------------------------------------------

/// Incorpora `id` a una lista ordenada, si no estaba.
fn insertar_ordenado(ids: &mut Vec<EstacionId>, id: EstacionId)
    requires
        creciente(old(ids)@),
    ensures
        creciente(final(ids)@),
        forall|x: EstacionId|
            final(ids)@.contains(x) <==> old(ids)@.contains(x) || x == id,
{
    let mut pos: usize = 0;
    while pos < ids.len() && ids[pos].0 < id.0
        invariant
            pos <= ids@.len(),
            ids@ == old(ids)@,
            forall|i: int| 0 <= i < pos ==> (#[trigger] ids@[i]).0 < id.0,
        decreases ids@.len() - pos,
    {
        pos += 1;
    }
    if pos < ids.len() && ids[pos].0 == id.0 {
        assert(ids@[pos as int] == id);
        return ;
    }
    ids.insert(pos, id);
    proof {
        let antes = old(ids)@;
        let despues = ids@;
        assert forall|x: EstacionId| despues.contains(x) <==> antes.contains(x) || x == id by {
            if antes.contains(x) {
                let i = antes.index_of(x);
                assert(despues[if i < pos {
                    i
                } else {
                    i + 1
                }] == x);
            }
            if x == id {
                assert(despues[pos as int] == x);
            }
            if despues.contains(x) {
                let i = despues.index_of(x);
                if i < pos {
                    assert(antes[i] == x);
                } else if i > pos {
                    assert(antes[i - 1] == x);
                }
            }
        }
    }
}

/// ¿Está `id` en la lista?
fn contiene(ids: &Vec<EstacionId>, id: EstacionId) -> (r: bool)
    ensures
        r == ids@.contains(id),
{
    let mut i: usize = 0;
    while i < ids.len()
        invariant
            i <= ids@.len(),
            forall|j: int| 0 <= j < i ==> ids@[j] != id,
        decreases ids@.len() - i,
    {
        if ids[i] == id {
            assert(ids@[i as int] == id);
            return true;
        }
        i += 1;
    }
    false
}

impl Eleccion {
    /// Crea el estado de elección de `mi_id` en el anillo formado por todas las
    /// estaciones conocidas (más uno mismo), en el término 0 y sin líder conocido.
    pub fn new(mi_id: EstacionId, estaciones: Vec<EstacionId>) -> (e: Self)
        ensures
            e@.valido(),
            e@.mi_id == mi_id,
            forall|x: EstacionId|
                e@.anillo.contains(x) <==> estaciones@.contains(x) || x == mi_id,
            e@.term == 0,
            e@.estado == EstadoLider::Desconocido,
    {
        let mut anillo: Vec<EstacionId> = Vec::new();
        insertar_ordenado(&mut anillo, mi_id);
        let mut i: usize = 0;
        while i < estaciones.len()
            invariant
                i <= estaciones@.len(),
                creciente(anillo@),
                forall|x: EstacionId|
                    anillo@.contains(x) <==> estaciones@.take(i as int).contains(x) || x == mi_id,
            decreases estaciones@.len() - i,
        {
            let id = estaciones[i];
            insertar_ordenado(&mut anillo, id);
            proof {
                let antes = estaciones@.take(i as int);
                let despues = estaciones@.take(i + 1);
                assert(despues =~= antes.push(id));
                assert forall|x: EstacionId|
                    despues.contains(x) <==> antes.contains(x) || x == id by {
                    if antes.contains(x) {
                        assert(despues[antes.index_of(x)] == x);
                    }
                    if x == id {
                        assert(despues[i as int] == x);
                    }
                }
            }
            i += 1;
        }
        assert(estaciones@.take(i as int) =~= estaciones@);
        assert(anillo@.contains(mi_id));
        Eleccion { mi_id, anillo, term: 0, estado: EstadoLider::Desconocido }
    }

    /// Fija el líder inicial conocido por config (sin elección: el término no
    /// cambia).
    pub fn con_lider_inicial(self, lider: EstacionId) -> (e: Self)
        ensures
            e@ == (NodoRing { estado: EstadoLider::Conocido(lider), ..self@ }),
    {
        let mut e = self;
        e.estado = EstadoLider::Conocido(lider);
        e
    }

    /// Término actual.
    pub fn term(&self) -> (t: u64)
        ensures
            t == self@.term,
    {
        self.term
    }

    /// Quién es el líder, hasta donde sabe este nodo.
    pub fn lider_conocido(&self) -> (estado: EstadoLider)
        ensures
            estado == self@.estado,
    {
        self.estado
    }

    /// Los ids del anillo, en orden.
    pub fn anillo(&self) -> (ids: &Vec<EstacionId>)
        ensures
            ids@ == self@.anillo,
    {
        &self.anillo
    }

    /// Toma nota de un término mayor, cuyo líder todavía no se anunció.
    pub fn adelantar_term(&mut self, term: u64)
        ensures
            final(self)@ == old(self)@.con_term(term),
    {
        self.term = term;
        self.estado = EstadoLider::Desconocido;
    }

    /// A quién reconoce como líder, en qué término, y si es él mismo.
    pub fn consultar_lider(&self) -> (info: InfoLider)
        ensures
            info.lider_id == match self@.estado {
                EstadoLider::Conocido(lider) => Some(lider),
                _ => None,
            },
            info.term == self@.term,
            info.soy_lider == (self@.estado == EstadoLider::Conocido(self@.mi_id)),
            info == self@.informe(),
    {
        let lider_id = match self.estado {
            EstadoLider::Conocido(lider) => Some(lider),
            _ => None,
        };
        InfoLider {
            lider_id,
            term: self.term,
            soy_lider: self.estado == EstadoLider::Conocido(self.mi_id),
        }
    }

    /// Arranca una elección: marca el estado en curso y manda un `Election` con el
    /// propio id al siguiente del anillo. Si soy el único nodo, me autoproclamo.
    pub fn iniciar(&mut self) -> (accion: AccionRing)
        requires
            old(self)@.valido(),
            old(self)@.anillo.len() < 2 ==> old(self)@.term < u64::MAX,
        ensures
            final(self)@ == old(self)@.iniciar().0,
            accion@ == old(self)@.iniciar().1,
            final(self)@.valido(),
    {
        self.estado = EstadoLider::EnEleccion;
        match self.siguiente() {
            Some(destino) => {
                let mut ids: Vec<EstacionId> = Vec::new();
                ids.push(self.mi_id);
                assert(ids@ =~= seq![self.mi_id]);
                AccionRing::Reenviar {
                    destino,
                    mensaje: MensajeEntreEstacionesTCP::Election { ids, iniciador: self.mi_id },
                }
            },
            None => self.autoproclamarse(),
        }
    }

    /// Procesa un `Election` que llegó del anillo.
    ///
    /// - Si soy el iniciador, el mensaje dio la vuelta completa: gana `max(ids)` y
    ///   anuncio el resultado con un `Coordinator` (incrementando el `term`).
    /// - Si mi id ya está en la lista (pero no soy el iniciador), el mensaje ya
    ///   pasó por mí: no lo reenvío (evita que gire para siempre).
    /// - Si no, agrego mi id y lo reenvío al siguiente.
    pub fn recibir_election(&mut self, ids: Vec<EstacionId>, iniciador: EstacionId) -> (accion:
        AccionRing)
        requires
            old(self)@.valido(),
            iniciador == old(self)@.mi_id ==> old(self)@.term < u64::MAX,
        ensures
            final(self)@ == old(self)@.recibir_election(ids@, iniciador).0,
            accion@ == old(self)@.recibir_election(ids@, iniciador).1,
            final(self)@.valido(),
    {
        if iniciador == self.mi_id {
            return self.cerrar_eleccion(&ids);
        }
        self.estado = EstadoLider::EnEleccion;
        if contiene(&ids, self.mi_id) {
            return AccionRing::Ignorar;
        }
        let mut ids = ids;
        ids.push(self.mi_id);
        match self.siguiente() {
            Some(destino) => AccionRing::Reenviar {
                destino,
                mensaje: MensajeEntreEstacionesTCP::Election { ids, iniciador },
            },
            None => AccionRing::Ignorar,
        }
    }

    /// Procesa un `Coordinator` (anuncio del líder electo).
    ///
    /// Adopta el líder y el `term` si son nuevos, y reenvía el anuncio para que el
    /// resto del anillo se entere. Si el `term` es viejo, o ya conocía a ese mismo
    /// líder en ese mismo `term` (el anuncio dio la vuelta completa), lo ignora:
    /// así se cierra el anillo.
    pub fn recibir_coordinator(&mut self, lider: EstacionId, term: u64) -> (accion: AccionRing)
        requires
            old(self)@.valido(),
        ensures
            final(self)@ == old(self)@.recibir_coordinator(lider, term).0,
            accion@ == old(self)@.recibir_coordinator(lider, term).1,
            final(self)@.valido(),
    {
        let ya_anunciado = self.estado == EstadoLider::Conocido(lider);
        if term < self.term || (term == self.term && ya_anunciado) {
            return AccionRing::Ignorar;
        }
        self.term = term;
        self.estado = EstadoLider::Conocido(lider);
        self.anunciar(lider)
    }

    /// Procesa que a `caida` no se le pudo entregar un mensaje del anillo: la saltea.
    ///
    /// El mensaje va a la que le sigue. Si la que le sigue soy yo, no queda otra a quién
    /// mandárselo: el mensaje dio la vuelta y lo proceso.
    pub fn saltear(&mut self, caida: EstacionId, mensaje: MensajeEntreEstacionesTCP) -> (accion:
        AccionRing)
        requires
            old(self)@.valido(),
            mensaje_ring(mensaje) matches MensajeRing::Election { iniciador, .. } ==> iniciador
                == old(self)@.mi_id ==> old(self)@.term < u64::MAX,
        ensures
            final(self)@ == old(self)@.saltear(caida, mensaje_ring(mensaje)).0,
            accion@ == old(self)@.saltear(caida, mensaje_ring(mensaje)).1,
            final(self)@.valido(),
    {
        let destino = match self.siguiente_de(caida) {
            Some(destino) => destino,
            None => {
                return AccionRing::Ignorar;
            },
        };
        match mensaje {
            MensajeEntreEstacionesTCP::Election { ids, iniciador } => {
                if destino == self.mi_id {
                    return self.recibir_election(ids, iniciador);
                }
                AccionRing::Reenviar {
                    destino,
                    mensaje: MensajeEntreEstacionesTCP::Election { ids, iniciador },
                }
            },
            MensajeEntreEstacionesTCP::Coordinator { lider, term } => {
                if destino == self.mi_id {
                    return self.recibir_coordinator(lider, term);
                }
                AccionRing::Reenviar {
                    destino,
                    mensaje: MensajeEntreEstacionesTCP::Coordinator { lider, term },
                }
            },
            _ => AccionRing::Ignorar,
        }
    }

    /// El `Election` volvió al iniciador: calcula el ganador y emite el
    /// `Coordinator`.
    fn cerrar_eleccion(&mut self, ids: &Vec<EstacionId>) -> (accion: AccionRing)
        requires
            old(self)@.valido(),
            old(self)@.term < u64::MAX,
        ensures
            final(self)@ == old(self)@.cerrar(ids@).0,
            accion@ == old(self)@.cerrar(ids@).1,
    {
        let mut ganador = self.mi_id;
        let mut i: usize = 0;
        while i < ids.len()
            invariant
                i <= ids@.len(),
                ganador == mayor(ids@.take(i as int), self.mi_id),
            decreases ids@.len() - i,
        {
            assert(ids@.take(i + 1).drop_last() =~= ids@.take(i as int));
            if i == 0 || ids[i].0 >= ganador.0 {
                ganador = ids[i];
            }
            i += 1;
        }
        assert(ids@.take(i as int) =~= ids@);
        self.term += 1;
        self.estado = EstadoLider::Conocido(ganador);
        self.anunciar(ganador)
    }

    /// Anillo de un solo nodo: me convierto en líder sin circular nada.
    fn autoproclamarse(&mut self) -> (accion: AccionRing)
        requires
            old(self)@.valido(),
            old(self)@.anillo.len() < 2,
            old(self)@.term < u64::MAX,
        ensures
            final(self)@ == old(self)@.cerrar(Seq::empty()).0,
            accion@ == old(self)@.cerrar(Seq::empty()).1,
    {
        self.term += 1;
        self.estado = EstadoLider::Conocido(self.mi_id);
        AccionRing::AsumirYReenviar {
            destino: None,
            mensaje: MensajeEntreEstacionesTCP::Coordinator {
                lider: self.mi_id,
                term: self.term,
            },
        }
    }

    /// La acción que anuncia a `lider` en el término actual.
    fn anunciar(&self, lider: EstacionId) -> (accion: AccionRing)
        requires
            self@.valido(),
        ensures
            accion@ == self@.anuncio(lider, self@.term),
    {
        let mensaje = MensajeEntreEstacionesTCP::Coordinator { lider, term: self.term };
        let destino = self.siguiente();
        if lider == self.mi_id {
            AccionRing::AsumirYReenviar { destino, mensaje }
        } else {
            match destino {
                Some(destino) => AccionRing::Reenviar { destino, mensaje },
                None => AccionRing::Ignorar,
            }
        }
    }

    /// Siguiente nodo del anillo (id inmediato mayor, con vuelta al menor). `None`
    /// si soy el único.
    fn siguiente(&self) -> (destino: Option<EstacionId>)
        requires
            self@.valido(),
        ensures
            destino == self@.siguiente(),
    {
        if self.anillo.len() < 2 {
            None
        } else {
            self.siguiente_de(self.mi_id)
        }
    }

    /// El nodo que sigue a `id` en el anillo. `None` si no está en el anillo.
    fn siguiente_de(&self, id: EstacionId) -> (destino: Option<EstacionId>)
        requires
            self@.valido(),
        ensures
            destino == if self@.anillo.contains(id) {
                Some(self@.siguiente_de(id))
            } else {
                None
            },
    {
        let n = self.anillo.len();
        let mut pos: usize = 0;
        while pos < n && self.anillo[pos] != id
            invariant
                n == self.anillo@.len(),
                pos <= n,
                forall|j: int| 0 <= j < pos ==> self.anillo@[j] != id,
            decreases n - pos,
        {
            pos += 1;
        }
        if pos == n {
            return None;
        }
        proof {
            let k = self.anillo@.index_of(id);
            assert(self.anillo@[pos as int] == id && self.anillo@[k] == id);
            assert(pos == k);
            if pos + 1 < n {
                vstd::arithmetic::div_mod::lemma_small_mod((pos + 1) as nat, n as nat);
            } else {
                vstd::arithmetic::div_mod::lemma_mod_self_0(n as int);
            }
        }
        if pos + 1 < n {
            Some(self.anillo[pos + 1])
        } else {
            Some(self.anillo[0])
        }
    }
}

/// Un mensaje del anillo es sus campos, con la lista de ids como secuencia; y los demás
/// mensajes no son del anillo.
pub proof fn ley_ring_por_sus_campos(m: MensajeEntreEstacionesTCP)
    ensures
        match m {
            MensajeEntreEstacionesTCP::Election { ids, iniciador } => mensaje_ring(m)
                == (MensajeRing::Election { ids: ids@, iniciador }),
            MensajeEntreEstacionesTCP::Coordinator { lider, term } => mensaje_ring(m)
                == (MensajeRing::Coordinator { lider, term }),
            _ => mensaje_ring(m) is Ajeno,
        },
{
}

/// Una acción es sus campos, con el mensaje como valor matemático.
pub proof fn ley_accion_por_sus_campos(a: AccionRing)
    ensures
        match a {
            AccionRing::Ignorar => a@ is Ignorar,
            AccionRing::Reenviar { destino, mensaje } => a@ == (AccionVista::Reenviar {
                destino,
                mensaje: mensaje_ring(mensaje),
            }),
            AccionRing::AsumirYReenviar { destino, mensaje } => a@
                == (AccionVista::AsumirYReenviar { destino, mensaje: mensaje_ring(mensaje) }),
        },
{
}

/// Lo que un nodo informa: al líder si lo reconoce, su término, y que lo es él si y solo si
/// es a quien reconoce.
pub proof fn ley_lo_que_informa_un_nodo(n: NodoRing, lider: EstacionId)
    ensures
        n.informe().lider_id == Some(lider) <==> n.estado == EstadoLider::Conocido(lider),
        n.informe().lider_id is None <==> !(n.estado is Conocido),
        n.informe().term == n.term,
        n.informe().soy_lider <==> n.estado == EstadoLider::Conocido(n.mi_id),
{
}

/// Tomar nota de un término mayor no dice nada del líder, ni cambia el anillo.
pub proof fn ley_tomar_nota_del_term(n: NodoRing, term: u64)
    ensures
        n.con_term(term).term == term,
        n.con_term(term).estado is Desconocido,
        n.con_term(term).mi_id == n.mi_id,
        n.con_term(term).anillo == n.anillo,
{
}

/// El mayor de ninguno es el que se da por defecto.
pub proof fn ley_mayor_de_ninguno(defecto: EstacionId)
    ensures
        mayor(Seq::<EstacionId>::empty(), defecto) == defecto,
{
}

} // verus!
