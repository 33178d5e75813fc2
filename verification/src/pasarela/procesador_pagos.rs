//! La pasarela bancaria.
//!
//! Maneja pre-autorizaciones (reserva tentativa de un monto) y cobros definitivos,
//! participando del 2PC de alquiler como participante remoto. Garantiza
//! idempotencia: los reintentos del mismo `tx_id` o `preauth_id` no reprocesan.

use vstd::prelude::*;

use crate::comun::config::TarifaConfig;
use crate::comun::etiquetas::escribir_numerado;
#[allow(unused_imports)]
use crate::comun::etiquetas::numerado;
#[allow(unused_imports)]
use crate::comun::ids::TarjetaVista;
use crate::comun::ids::{DatosTarjeta, TransaccionId};
use crate::comun::mensajes::estacion_pasarela::{
    MensajeEstacionAPasarela, MensajePasarelaAEstacion, VotoResultado,
};
#[allow(unused_imports)]
use crate::comun::mensajes::estacion_pasarela::{PedidoVista, RespuestaVista};
use crate::comun::numeros::Real64;
use crate::comun::tabla::Tabla;
#[allow(unused_imports)]
use crate::comun::texto::es_cifra;
use crate::comun::texto::letras;

verus! {

/// Procesa los pedidos de las estaciones.
pub struct ProcesadorPagos {
    /// Pre-autorizaciones por `preauth_id`.
    pre_autorizaciones: Tabla<PreAutorizacion>,
    tarifa: TarifaConfig,
    contador: u64,
}

/// Un monto reservado en una tarjeta.
struct PreAutorizacion {
    tx_id: TransaccionId,
    monto_reservado: Real64,
    estado: EstadoPreAuth,
}

/// Ciclo de vida de una pre-autorización.
#[derive(Debug, Clone, Copy, PartialEq, Eq, Structural)]
pub enum EstadoPreAuth {
    Preparada,
    Activa,
    Cobrada { monto_final: Real64 },
    Anulada,
}

// ---------------------------------------------------------------------------
// Modelo
// ---------------------------------------------------------------------------

/// Una pre-autorización, con la transacción por su texto.
#[verifier::ext_equal]
pub struct PreauthVista {
    pub tx_id: Seq<char>,
    pub reservado: Real64,
    pub estado: EstadoPreAuth,
}

/// El estado de la pasarela: las pre-autorizaciones por id y cuántas emitió.
#[verifier::ext_equal]
pub struct PasarelaVista {
    pub preauths: Map<Seq<char>, PreauthVista>,
    pub contador: nat,
}

/// El id de la pre-autorización número `n`.
pub open spec fn preauth_numero(n: nat) -> Seq<char> {
    numerado("P-"@, n)
}

/// El texto es un CVV de 3 dígitos.
pub open spec fn cvv_valido(cvv: Seq<char>) -> bool {
    cvv.len() == 3 && forall|i: int| 0 <= i < 3 ==> es_cifra(#[trigger] cvv[i])
}

/// La tarjeta tiene número, y un CVV de 3 dígitos.
pub open spec fn es_tarjeta_valida(t: TarjetaVista) -> bool {
    t.numero.len() > 0 && cvv_valido(t.cvv)
}

impl PasarelaVista {
    /// La pre-autorización `id` es de la transacción `tx`.
    pub open spec fn es_de(self, id: Seq<char>, tx: Seq<char>) -> bool {
        self.preauths.contains_key(id) && self.preauths[id].tx_id == tx
    }

    /// Ya se preparó la transacción `tx`.
    pub open spec fn preparo(self, tx: Seq<char>) -> bool {
        exists|id: Seq<char>| #[trigger] self.es_de(id, tx)
    }

    /// La pre-autorización de la transacción `tx`.
    pub open spec fn preauth_de(self, tx: Seq<char>) -> Seq<char> {
        choose|id: Seq<char>| #[trigger] self.es_de(id, tx)
    }

    /// El id número `n` ya se emitió.
    pub open spec fn emitido(self, n: nat, id: Seq<char>) -> bool {
        1 <= n <= self.contador && id == preauth_numero(n)
    }

    /// Cada pre-autorización tiene un id ya emitido, cada transacción tiene a lo sumo
    /// una, y lo cobrado no supera lo reservado.
    pub open spec fn valida(self) -> bool {
        &&& forall|id: Seq<char>| #[trigger]
            self.preauths.contains_key(id) ==> exists|n: nat| #[trigger] self.emitido(n, id)
        &&& forall|a: Seq<char>, b: Seq<char>|
            (#[trigger] self.preauths.contains_key(a)) && (#[trigger] self.preauths.contains_key(b))
                && self.preauths[a].tx_id == self.preauths[b].tx_id ==> a == b
        &&& forall|id: Seq<char>| #[trigger]
            self.preauths.contains_key(id) ==> cobro_acotado(self.preauths[id])
    }

    /// El id que lleva la próxima pre-autorización.
    pub open spec fn proximo_id(self) -> Seq<char> {
        preauth_numero(self.contador + 1)
    }

    /// La pasarela con otra pre-autorización en `id`.
    pub open spec fn con(self, id: Seq<char>, pa: PreauthVista) -> PasarelaVista {
        PasarelaVista { preauths: self.preauths.insert(id, pa), ..self }
    }

    /// La respuesta a un pedido. `tarifado` es lo que la tarifa da por el lapso de un
    /// cobro; en los demás pedidos no cuenta.
    pub open spec fn respuesta(self, pedido: PedidoVista, tarifado: Real64) -> RespuestaVista {
        match pedido {
            PedidoVista::PreparePreauth { tx_id, tarjeta, .. } => if self.preparo(tx_id) {
                RespuestaVista::Voto {
                    tx_id,
                    rechazo: None,
                    preauth_id: Some(self.preauth_de(tx_id)),
                }
            } else if !es_tarjeta_valida(tarjeta) {
                RespuestaVista::Voto {
                    tx_id,
                    rechazo: Some("tarjeta inválida"@),
                    preauth_id: None,
                }
            } else {
                RespuestaVista::Voto {
                    tx_id,
                    rechazo: None,
                    preauth_id: Some(self.proximo_id()),
                }
            },
            PedidoVista::CommitPreauth { preauth_id, .. } => {
                RespuestaVista::PreauthConfirmada { preauth_id }
            },
            PedidoVista::AbortPreauth { preauth_id, .. } => {
                RespuestaVista::PreauthAnulada { preauth_id }
            },
            PedidoVista::ProcesarCobro { preauth_id, .. } => if !self.preauths.contains_key(
                preauth_id,
            ) {
                RespuestaVista::CobroRechazado {
                    preauth_id,
                    motivo: "no existe la pre-autorización"@,
                }
            } else if self.preauths[preauth_id].estado is Anulada {
                RespuestaVista::CobroRechazado {
                    preauth_id,
                    motivo: "la pre-autorización está anulada"@,
                }
            } else {
                RespuestaVista::CobroConfirmado {
                    preauth_id,
                    monto: monto_cobrado(self.preauths[preauth_id], tarifado),
                }
            },
        }
    }

    /// El estado tras un pedido.
    pub open spec fn tras(self, pedido: PedidoVista, tarifado: Real64) -> PasarelaVista {
        match pedido {
            PedidoVista::PreparePreauth { tx_id, tarjeta, monto_propuesto, .. } => if self.preparo(
                tx_id,
            ) || !es_tarjeta_valida(tarjeta) {
                self
            } else {
                PasarelaVista {
                    preauths: self.preauths.insert(
                        self.proximo_id(),
                        PreauthVista {
                            tx_id,
                            reservado: monto_propuesto,
                            estado: EstadoPreAuth::Preparada,
                        },
                    ),
                    contador: self.contador + 1,
                }
            },
            PedidoVista::CommitPreauth { preauth_id, .. } => if self.preauths.contains_key(
                preauth_id,
            ) {
                self.con(preauth_id, confirmada(self.preauths[preauth_id]))
            } else {
                self
            },
            PedidoVista::AbortPreauth { preauth_id, .. } => if self.preauths.contains_key(
                preauth_id,
            ) {
                self.con(preauth_id, anulada(self.preauths[preauth_id]))
            } else {
                self
            },
            PedidoVista::ProcesarCobro { preauth_id, .. } => if self.preauths.contains_key(
                preauth_id,
            ) && self.preauths[preauth_id].estado !is Anulada {
                self.con(preauth_id, cobrada(self.preauths[preauth_id], tarifado))
            } else {
                self
            },
        }
    }

    /// El pedido crea una pre-autorización.
    pub open spec fn emite(self, pedido: PedidoVista) -> bool {
        pedido matches PedidoVista::PreparePreauth { tx_id, tarjeta, .. } && !self.preparo(tx_id)
            && es_tarjeta_valida(tarjeta)
    }
}

/// Si se cobró, no se cobró más de lo reservado.
pub open spec fn cobro_acotado(pa: PreauthVista) -> bool {
    pa.estado matches EstadoPreAuth::Cobrada { monto_final } ==> pa.reservado.es_nan_spec()
        || monto_final.no_supera(pa.reservado)
}

/// Tras confirmarla: si estaba Preparada queda Activa; si no, queda igual.
pub open spec fn confirmada(pa: PreauthVista) -> PreauthVista {
    if pa.estado == EstadoPreAuth::Preparada {
        PreauthVista { estado: EstadoPreAuth::Activa, ..pa }
    } else {
        pa
    }
}

/// Tras anularla.
pub open spec fn anulada(pa: PreauthVista) -> PreauthVista {
    PreauthVista { estado: EstadoPreAuth::Anulada, ..pa }
}

/// Lo que se cobra: lo mismo que antes si ya se cobró; si no, lo que da la tarifa,
/// sin superar lo reservado.
pub open spec fn monto_cobrado(pa: PreauthVista, tarifado: Real64) -> Real64 {
    match pa.estado {
        EstadoPreAuth::Cobrada { monto_final } => monto_final,
        _ => tarifado.minimo_spec(pa.reservado),
    }
}

/// Tras cobrarla.
pub open spec fn cobrada(pa: PreauthVista, tarifado: Real64) -> PreauthVista {
    PreauthVista {
        estado: EstadoPreAuth::Cobrada { monto_final: monto_cobrado(pa, tarifado) },
        ..pa
    }
}

/// Los minutos que se facturan en un pedido, si es un cobro.
pub open spec fn facturables(pedido: PedidoVista) -> Option<u32> {
    match pedido {
        PedidoVista::ProcesarCobro { t0, t1, .. } => Some(t0.minutos_facturados(t1)),
        _ => None,
    }
}

impl View for PreAutorizacion {
    type V = PreauthVista;

    closed spec fn view(&self) -> PreauthVista {
        PreauthVista { tx_id: self.tx_id@, reservado: self.monto_reservado, estado: self.estado }
    }
}

impl View for ProcesadorPagos {
    type V = PasarelaVista;

    closed spec fn view(&self) -> PasarelaVista {
        PasarelaVista {
            preauths: self.pre_autorizaciones@.map_values(|pa: PreAutorizacion| pa@),
            contador: self.contador as nat,
        }
    }
}

// ---------------------------------------------------------------------------
// Operaciones
// ---------------------------------------------------------------------------

/// Validación de tarjeta: exige número no vacío y CVV de 3 dígitos.
pub fn tarjeta_valida(tarjeta: &DatosTarjeta) -> (r: bool)
    ensures
        r == es_tarjeta_valida(tarjeta@),
{
    let numero = letras(tarjeta.numero.as_str());
    let cvv = letras(tarjeta.cvv.as_str());
    if numero.len() == 0 || cvv.len() != 3 {
        return false;
    }
    let mut i: usize = 0;
    while i < 3
        invariant
            i <= 3,
            cvv@.len() == 3,
            cvv@ == tarjeta.cvv@,
            forall|j: int| 0 <= j < i ==> es_cifra(#[trigger] cvv@[j]),
        decreases 3 - i,
    {
        if cvv[i] < '0' || cvv[i] > '9' {
            assert(!es_cifra(tarjeta@.cvv[i as int]));
            return false;
        }
        i += 1;
    }
    true
}

impl ProcesadorPagos {
    /// La pasarela está bien formada.
    pub closed spec fn valida(self) -> bool {
        self.pre_autorizaciones.valida() && self@.valida()
    }

    /// La tarifa con que se creó.
    pub closed spec fn tarifa_spec(self) -> TarifaConfig {
        self.tarifa
    }

    /// Crea una pasarela sin pre-autorizaciones.
    pub fn new(tarifa: TarifaConfig) -> (p: Self)
        ensures
            p.valida(),
            p.tarifa_spec() == tarifa,
            p@ == (PasarelaVista { preauths: Map::empty(), contador: 0 }),
    {
        let p = ProcesadorPagos { pre_autorizaciones: Tabla::nueva(), tarifa, contador: 0 };
        assert(p@.preauths =~= Map::<Seq<char>, PreauthVista>::empty());
        p
    }

    /// La tarifa vigente.
    pub fn tarifa(&self) -> (t: TarifaConfig)
        ensures
            t == self.tarifa_spec(),
    {
        self.tarifa
    }

    /// Cuántas pre-autorizaciones emitió.
    pub fn emitidas(&self) -> (n: u64)
        ensures
            n == self@.contador,
    {
        self.contador
    }

    /// El estado de una pre-autorización, si existe.
    pub fn estado_de(&self, preauth_id: &String) -> (r: Option<EstadoPreAuth>)
        requires
            self.valida(),
        ensures
            r == if self@.preauths.contains_key(preauth_id@) {
                Some(self@.preauths[preauth_id@].estado)
            } else {
                None
            },
    {
        match self.pre_autorizaciones.buscar(preauth_id) {
            Some(pa) => Some(pa.estado),
            None => None,
        }
    }

    /// Los minutos que se facturan en un pedido, si es un cobro.
    pub fn minutos_facturables(pedido: &MensajeEstacionAPasarela) -> (r: Option<u32>)
        ensures
            match pedido@ {
                PedidoVista::ProcesarCobro { t0, t1, .. } => r is Some && r->0
                    == t0.minutos_enteros(t1) % 0x1_0000_0000,
                _ => r is None,
            },
            r == facturables(pedido@),
    {
        match pedido {
            MensajeEstacionAPasarela::ProcesarCobro { t0, t1, .. } => Some(t0.minutos_hasta(*t1)),
            _ => None,
        }
    }

    /// Genera el id de una nueva pre-autorización.
    fn nuevo_preauth_id(&mut self) -> (id: String)
        requires
            old(self)@.contador < u64::MAX,
        ensures
            id@ == old(self)@.proximo_id(),
            final(self)@ == (PasarelaVista { contador: old(self)@.contador + 1, ..old(self)@ }),
            final(self).pre_autorizaciones == old(self).pre_autorizaciones,
            final(self).tarifa_spec() == old(self).tarifa_spec(),
    {
        self.contador = self.contador + 1;
        escribir_numerado("P-", self.contador)
    }

    /// Busca el `preauth_id` ya asociado a una transacción (para la idempotencia del
    /// Prepare).
    pub fn preauth_de_tx(&self, tx_id: &TransaccionId) -> (r: Option<String>)
        requires
            self.valida(),
        ensures
            r is Some <==> self@.preparo(tx_id@),
            r matches Some(id) ==> id@ == self@.preauth_de(tx_id@) && self@.es_de(id@, tx_id@),
    {
        let ghost m = self@.preauths;
        let ghost pares = self.pre_autorizaciones.pares();
        proof {
            self.pre_autorizaciones.lemma_pares();
        }
        let n = self.pre_autorizaciones.largo();
        let mut i: usize = 0;
        while i < n
            invariant
                i <= n,
                n == pares.len(),
                pares == self.pre_autorizaciones.pares(),
                m == self@.preauths,
                self.valida(),
                forall|j: int| 0 <= j < i ==> (#[trigger] pares[j]).1.tx_id@ != tx_id@,
                forall|j: int|
                    0 <= j < pares.len() ==> self.pre_autorizaciones@.contains_key(
                        (#[trigger] pares[j]).0,
                    ) && self.pre_autorizaciones@[pares[j].0] == pares[j].1,
            decreases n - i,
        {
            if self.pre_autorizaciones.valor(i).tx_id.0 == tx_id.0 {
                let id = self.pre_autorizaciones.clave(i).clone();
                proof {
                    assert(self.pre_autorizaciones@.contains_key(pares[i as int].0));
                    assert(m.contains_key(id@));
                    assert(self@.es_de(id@, tx_id@));
                    let otro = self@.preauth_de(tx_id@);
                    assert(self@.es_de(otro, tx_id@));
                    assert(m.contains_key(otro));
                }
                return Some(id);
            }
            i += 1;
        }
        assert(!self@.preparo(tx_id@)) by {
            if self@.preparo(tx_id@) {
                let id = self@.preauth_de(tx_id@);
                assert(self@.es_de(id, tx_id@));
                assert(self.pre_autorizaciones@.contains_key(id));
                let j = choose|j: int|
                    0 <= j < pares.len() && (#[trigger] pares[j]).0 == id && pares[j].1
                        == self.pre_autorizaciones@[id];
                assert(pares[j].1.tx_id@ != tx_id@);
            }
        }
        None
    }

    /// Cambia el estado de una pre-autorización, si existe.
    fn cambiar_estado(&mut self, preauth_id: &String, estado: EstadoPreAuth)
        requires
            old(self).pre_autorizaciones.valida(),
        ensures
            final(self).pre_autorizaciones.valida(),
            final(self).tarifa_spec() == old(self).tarifa_spec(),
            final(self)@ == if old(self)@.preauths.contains_key(preauth_id@) {
                old(self)@.con(
                    preauth_id@,
                    (PreauthVista { estado, ..old(self)@.preauths[preauth_id@] }),
                )
            } else {
                old(self)@
            },
    {
        let ghost antes = self@.preauths;
        let nueva = match self.pre_autorizaciones.buscar(preauth_id) {
            Some(pa) => PreAutorizacion {
                tx_id: pa.tx_id.clone(),
                monto_reservado: pa.monto_reservado,
                estado,
            },
            None => {
                return ;
            },
        };
        let ghost vista = nueva@;
        self.pre_autorizaciones.poner(preauth_id.clone(), nueva);
        assert(self@.preauths =~= antes.insert(preauth_id@, vista));
    }

    /// Prepare: reserva el monto y vota. A una transacción ya preparada le repite el
    /// voto.
    fn preparar(
        &mut self,
        tx_id: TransaccionId,
        tarjeta: &DatosTarjeta,
        monto: Real64,
        Ghost(pedido): Ghost<PedidoVista>,
        Ghost(tarifado): Ghost<Real64>,
    ) -> (r: MensajePasarelaAEstacion)
        requires
            old(self).valida(),
            pedido matches PedidoVista::PreparePreauth {
                tx_id: t,
                tarjeta: c,
                monto_propuesto: m,
                ..
            } && t == tx_id@ && c == tarjeta@ && m == monto,
            old(self)@.emite(pedido) ==> old(self)@.contador < u64::MAX,
        ensures
            final(self).valida(),
            final(self).tarifa_spec() == old(self).tarifa_spec(),
            r@ == old(self)@.respuesta(pedido, tarifado),
            final(self)@ == old(self)@.tras(pedido, tarifado),
    {
        if let Some(preauth_id) = self.preauth_de_tx(&tx_id) {
            return MensajePasarelaAEstacion::Voto {
                tx_id,
                resultado: VotoResultado::Yes,
                preauth_id: Some(preauth_id),
            };
        }
        if !tarjeta_valida(tarjeta) {
            return MensajePasarelaAEstacion::Voto {
                tx_id,
                resultado: VotoResultado::No { motivo: "tarjeta inválida".to_string() },
                preauth_id: None,
            };
        }
        let ghost antes = self@;
        let preauth_id = self.nuevo_preauth_id();
        let pa = PreAutorizacion {
            tx_id: tx_id.clone(),
            monto_reservado: monto,
            estado: EstadoPreAuth::Preparada,
        };
        let ghost vista = pa@;
        self.pre_autorizaciones.poner(preauth_id.clone(), pa);
        proof {
            assert(self@.preauths =~= antes.preauths.insert(preauth_id@, vista));
            assert(self@ == antes.tras(pedido, tarifado));
            crate::pasarela::conciliacion::ley_validez(antes, pedido, tarifado);
        }
        MensajePasarelaAEstacion::Voto {
            tx_id,
            resultado: VotoResultado::Yes,
            preauth_id: Some(preauth_id),
        }
    }

    /// Resuelve un pedido de una estación. `tarifado` es lo que la tarifa vigente da
    /// por los minutos facturables del pedido; solo cuenta en un cobro.
    pub fn procesar(&mut self, pedido: MensajeEstacionAPasarela, tarifado: Real64) -> (r:
        MensajePasarelaAEstacion)
        requires
            old(self).valida(),
            old(self)@.emite(pedido@) ==> old(self)@.contador < u64::MAX,
        ensures
            final(self).valida(),
            final(self).tarifa_spec() == old(self).tarifa_spec(),
            r@ == old(self)@.respuesta(pedido@, tarifado),
            final(self)@ == old(self)@.tras(pedido@, tarifado),
    {
        let ghost vista = pedido@;
        proof {
            if !self@.emite(vista) {
                crate::pasarela::conciliacion::ley_validez(self@, vista, tarifado);
            }
        }
        match pedido {
            MensajeEstacionAPasarela::PreparePreauth { tx_id, tarjeta, monto_propuesto, .. } => {
                self.preparar(tx_id, &tarjeta, monto_propuesto, Ghost(vista), Ghost(tarifado))
            },
            MensajeEstacionAPasarela::CommitPreauth { preauth_id, .. } => {
                // Idempotente: si ya estaba Activa, queda igual.
                let ghost antes = self@;
                if let Some(EstadoPreAuth::Preparada) = self.estado_de(&preauth_id) {
                    self.cambiar_estado(&preauth_id, EstadoPreAuth::Activa);
                }
                assert(self@ =~= antes.tras(vista, tarifado));
                MensajePasarelaAEstacion::PreauthConfirmada { preauth_id }
            },
            MensajeEstacionAPasarela::AbortPreauth { preauth_id, .. } => {
                self.cambiar_estado(&preauth_id, EstadoPreAuth::Anulada);
                MensajePasarelaAEstacion::PreauthAnulada { preauth_id }
            },
            MensajeEstacionAPasarela::ProcesarCobro { preauth_id, .. } => {
                let ghost antes = self@;
                let monto = match self.pre_autorizaciones.buscar(&preauth_id) {
                    None => {
                        return MensajePasarelaAEstacion::CobroRechazado {
                            preauth_id,
                            motivo: "no existe la pre-autorización".to_string(),
                        };
                    },
                    Some(pa) => match pa.estado {
                        // Los fondos ya se liberaron: no hay qué cobrar.
                        EstadoPreAuth::Anulada => {
                            return MensajePasarelaAEstacion::CobroRechazado {
                                preauth_id,
                                motivo: "la pre-autorización está anulada".to_string(),
                            };
                        },
                        // Idempotente: si ya se cobró, el mismo monto.
                        EstadoPreAuth::Cobrada { monto_final } => monto_final,
                        // No se cobra más de lo pre-autorizado.
                        _ => tarifado.minimo(pa.monto_reservado),
                    },
                };
                self.cambiar_estado(&preauth_id, EstadoPreAuth::Cobrada { monto_final: monto });
                assert(self@ =~= antes.tras(vista, tarifado));
                MensajePasarelaAEstacion::CobroConfirmado { preauth_id, monto }
            },
        }
    }
}

/// El estado de una pasarela bien formada cumple el invariante del modelo.
pub proof fn ley_vista_valida(p: ProcesadorPagos)
    requires
        p.valida(),
    ensures
        p@.valida(),
{
}

} // verus!
