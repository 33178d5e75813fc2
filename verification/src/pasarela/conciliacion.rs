//! Lo que la pasarela garantiza a lo largo de cualquier serie de pedidos.

use vstd::prelude::*;

#[allow(unused_imports)]
use crate::comun::etiquetas::ley_numerado_inyectivo;
#[allow(unused_imports)]
use crate::comun::ids::TarjetaVista;
#[allow(unused_imports)]
use crate::comun::mensajes::estacion_pasarela::{PedidoVista, RespuestaVista};
#[allow(unused_imports)]
use crate::comun::numeros::Real64;
#[allow(unused_imports)]
use crate::comun::texto::{decimal, es_cifra, lemma_decimal, ley_como_se_escribe};
#[allow(unused_imports)]
use crate::comun::tiempo::{ley_minutos, Timestamp};
#[allow(unused_imports)]
use crate::pasarela::procesador_pagos::{
    cobro_acotado, es_tarjeta_valida, facturables, monto_cobrado, EstadoPreAuth, PasarelaVista,
    PreauthVista,
};

verus! {

/// El próximo id no está en uso.
pub proof fn lemma_proximo_libre(s: PasarelaVista)
    requires
        s.valida(),
    ensures
        !s.preauths.contains_key(s.proximo_id()),
{
    if s.preauths.contains_key(s.proximo_id()) {
        let n = choose|n: nat| #[trigger] s.emitido(n, s.proximo_id());
        ley_numerado_inyectivo("P-"@, n, s.contador + 1);
    }
}

/// Todo pedido conserva la buena formación de la pasarela; en particular, nunca hay
/// dos pre-autorizaciones de una misma transacción ni un cobro mayor que lo
/// reservado.
pub proof fn ley_validez(s: PasarelaVista, pedido: PedidoVista, tarifado: Real64)
    requires
        s.valida(),
    ensures
        s.tras(pedido, tarifado).valida(),
{
    let t = s.tras(pedido, tarifado);
    lemma_proximo_libre(s);
    assert forall|id: Seq<char>| #[trigger] t.preauths.contains_key(id) implies exists|n: nat|
        #[trigger] t.emitido(n, id) by {
        if s.preauths.contains_key(id) {
            let n = choose|n: nat| #[trigger] s.emitido(n, id);
            assert(t.emitido(n, id));
        } else {
            assert(t.emitido(t.contador, id));
        }
    }
    assert forall|a: Seq<char>, b: Seq<char>|
        (#[trigger] t.preauths.contains_key(a)) && (#[trigger] t.preauths.contains_key(b))
            && t.preauths[a].tx_id == t.preauths[b].tx_id implies a == b by {
        if s.preauths.contains_key(a) && s.preauths.contains_key(b) {
        } else if s.preauths.contains_key(a) {
            assert(s.es_de(a, t.preauths[b].tx_id));
        } else if s.preauths.contains_key(b) {
            assert(s.es_de(b, t.preauths[a].tx_id));
        }
    }
    assert forall|id: Seq<char>| #[trigger] t.preauths.contains_key(id) implies cobro_acotado(
        t.preauths[id],
    ) by {
        if s.preauths.contains_key(id) {
            assert(cobro_acotado(s.preauths[id]));
        }
    }
}

/// El estado tras una serie de pedidos, en orden, cada uno con su monto tarifado.
pub open spec fn tras_todos(s: PasarelaVista, pedidos: Seq<(PedidoVista, Real64)>) -> PasarelaVista
    decreases pedidos.len(),
{
    if pedidos.len() == 0 {
        s
    } else {
        tras_todos(s, pedidos.drop_last()).tras(pedidos.last().0, pedidos.last().1)
    }
}

/// El pedido anula la pre-autorización `id`.
pub open spec fn anula(pedido: PedidoVista, id: Seq<char>) -> bool {
    pedido matches PedidoVista::AbortPreauth { preauth_id, .. } && preauth_id == id
}

/// Una vez preparada, una transacción conserva para siempre su pre-autorización y el
/// monto reservado.
pub proof fn ley_vinculo_estable(
    s: PasarelaVista,
    pedidos: Seq<(PedidoVista, Real64)>,
    id: Seq<char>,
    tx: Seq<char>,
)
    requires
        s.valida(),
        s.es_de(id, tx),
    ensures
        tras_todos(s, pedidos).valida(),
        tras_todos(s, pedidos).es_de(id, tx),
        tras_todos(s, pedidos).preauth_de(tx) == id,
        tras_todos(s, pedidos).preauths[id].reservado == s.preauths[id].reservado,
    decreases pedidos.len(),
{
    let t = tras_todos(s, pedidos);
    if pedidos.len() > 0 {
        let previo = tras_todos(s, pedidos.drop_last());
        ley_vinculo_estable(s, pedidos.drop_last(), id, tx);
        ley_validez(previo, pedidos.last().0, pedidos.last().1);
        lemma_proximo_libre(previo);
    }
    assert(t.es_de(id, tx));
    let otro = t.preauth_de(tx);
    assert(t.es_de(otro, tx));
    assert(t.preauths.contains_key(otro) && t.preauths.contains_key(id));
}

/// Un Prepare votado Sí se contesta igual todas las veces que se repita, pase lo que
/// pase en el medio, y la repetición no cambia nada: la transacción tiene una sola
/// pre-autorización.
pub proof fn ley_prepare_idempotente(
    s: PasarelaVista,
    pedidos: Seq<(PedidoVista, Real64)>,
    prepare: PedidoVista,
    repetido: PedidoVista,
    tarifado: Real64,
)
    requires
        s.valida(),
        prepare is PreparePreauth,
        repetido is PreparePreauth,
        prepare->PreparePreauth_tx_id == repetido->PreparePreauth_tx_id,
        s.respuesta(prepare, tarifado)->rechazo is None,
    ensures
        ({
            let t = tras_todos(s.tras(prepare, tarifado), pedidos);
            &&& t.respuesta(repetido, tarifado) == s.respuesta(prepare, tarifado)
            &&& t.tras(repetido, tarifado) == t
        }),
{
    let tx = prepare->PreparePreauth_tx_id;
    let t0 = s.tras(prepare, tarifado);
    ley_validez(s, prepare, tarifado);
    lemma_proximo_libre(s);
    let id = if s.preparo(tx) {
        s.preauth_de(tx)
    } else {
        s.proximo_id()
    };
    assert(t0.es_de(id, tx));
    ley_vinculo_estable(t0, pedidos, id, tx);
}

/// Un Prepare votado No no reserva nada, y repetido en seguida recibe el mismo voto.
pub proof fn ley_prepare_rechazado(s: PasarelaVista, prepare: PedidoVista, tarifado: Real64)
    requires
        prepare is PreparePreauth,
        s.respuesta(prepare, tarifado)->rechazo is Some,
    ensures
        s.tras(prepare, tarifado) == s,
        s.respuesta(prepare, tarifado)->Voto_preauth_id is None,
        s.tras(prepare, tarifado).respuesta(prepare, tarifado) == s.respuesta(prepare, tarifado),
{
}

/// Un Commit o un Abort repetidos reciben la misma respuesta y no cambian nada.
pub proof fn ley_commit_y_abort_idempotentes(
    s: PasarelaVista,
    tx: Seq<char>,
    id: Seq<char>,
    tarifado: Real64,
)
    ensures
        ({
            let commit = PedidoVista::CommitPreauth { tx_id: tx, preauth_id: id };
            let t = s.tras(commit, tarifado);
            &&& t.tras(commit, tarifado) == t
            &&& t.respuesta(commit, tarifado) == s.respuesta(commit, tarifado)
        }),
        ({
            let abort = PedidoVista::AbortPreauth { tx_id: tx, preauth_id: id };
            let t = s.tras(abort, tarifado);
            &&& t.tras(abort, tarifado) == t
            &&& t.respuesta(abort, tarifado) == s.respuesta(abort, tarifado)
        }),
{
    let commit = PedidoVista::CommitPreauth { tx_id: tx, preauth_id: id };
    let t = s.tras(commit, tarifado);
    assert(t.tras(commit, tarifado).preauths =~= t.preauths);
    let abort = PedidoVista::AbortPreauth { tx_id: tx, preauth_id: id };
    let u = s.tras(abort, tarifado);
    assert(u.tras(abort, tarifado).preauths =~= u.preauths);
}

/// Un Commit que llega después del Abort no revive la pre-autorización.
pub proof fn ley_abort_gana_al_commit(
    s: PasarelaVista,
    tx: Seq<char>,
    id: Seq<char>,
    tarifado: Real64,
)
    ensures
        ({
            let commit = PedidoVista::CommitPreauth { tx_id: tx, preauth_id: id };
            let abort = PedidoVista::AbortPreauth { tx_id: tx, preauth_id: id };
            s.tras(abort, tarifado).tras(commit, tarifado) == s.tras(abort, tarifado)
        }),
{
    let commit = PedidoVista::CommitPreauth { tx_id: tx, preauth_id: id };
    let abort = PedidoVista::AbortPreauth { tx_id: tx, preauth_id: id };
    let t = s.tras(abort, tarifado);
    assert(t.tras(commit, tarifado).preauths =~= t.preauths);
}

/// Lo cobrado queda cobrado, con el mismo monto, mientras no se la anule.
proof fn lemma_cobro_estable(
    s: PasarelaVista,
    pedidos: Seq<(PedidoVista, Real64)>,
    id: Seq<char>,
    monto: Real64,
)
    requires
        s.valida(),
        s.preauths.contains_key(id),
        s.preauths[id].estado == (EstadoPreAuth::Cobrada { monto_final: monto }),
        forall|i: int| 0 <= i < pedidos.len() ==> !anula((#[trigger] pedidos[i]).0, id),
    ensures
        tras_todos(s, pedidos).valida(),
        tras_todos(s, pedidos).preauths.contains_key(id),
        tras_todos(s, pedidos).preauths[id].estado == (EstadoPreAuth::Cobrada {
            monto_final: monto,
        }),
    decreases pedidos.len(),
{
    if pedidos.len() > 0 {
        let p = pedidos.drop_last();
        assert forall|i: int| 0 <= i < p.len() implies !anula((#[trigger] p[i]).0, id) by {
            assert(!anula(pedidos[i].0, id));
        }
        let previo = tras_todos(s, p);
        lemma_cobro_estable(s, p, id, monto);
        assert(!anula(pedidos[pedidos.len() - 1].0, id));
        ley_validez(previo, pedidos.last().0, pedidos.last().1);
        lemma_proximo_libre(previo);
    }
}

/// Un cobro repetido devuelve el mismo monto y no vuelve a cobrar, con los instantes
/// y la tarifa que sean, pase lo que pase en el medio salvo que se la anule.
pub proof fn ley_cobro_idempotente(
    s: PasarelaVista,
    pedidos: Seq<(PedidoVista, Real64)>,
    cobro: PedidoVista,
    repetido: PedidoVista,
    tarifado: Real64,
    otro: Real64,
)
    requires
        s.valida(),
        cobro is ProcesarCobro,
        repetido is ProcesarCobro,
        cobro->ProcesarCobro_preauth_id == repetido->ProcesarCobro_preauth_id,
        s.preauths.contains_key(cobro->ProcesarCobro_preauth_id),
        s.preauths[cobro->ProcesarCobro_preauth_id].estado !is Anulada,
        forall|i: int|
            0 <= i < pedidos.len() ==> !anula(
                (#[trigger] pedidos[i]).0,
                cobro->ProcesarCobro_preauth_id,
            ),
    ensures
        ({
            let t = tras_todos(s.tras(cobro, tarifado), pedidos);
            &&& t.respuesta(repetido, otro) == s.respuesta(cobro, tarifado)
            &&& t.tras(repetido, otro) == t
        }),
{
    let id = cobro->ProcesarCobro_preauth_id;
    let t0 = s.tras(cobro, tarifado);
    let monto = monto_cobrado(s.preauths[id], tarifado);
    ley_validez(s, cobro, tarifado);
    lemma_cobro_estable(t0, pedidos, id, monto);
    let t = tras_todos(t0, pedidos);
    assert(t.tras(repetido, otro).preauths =~= t.preauths);
}

/// Lo anulado queda anulado, pase lo que pase.
proof fn lemma_anulada_estable(
    s: PasarelaVista,
    pedidos: Seq<(PedidoVista, Real64)>,
    id: Seq<char>,
)
    requires
        s.valida(),
        s.preauths.contains_key(id),
        s.preauths[id].estado is Anulada,
    ensures
        tras_todos(s, pedidos).valida(),
        tras_todos(s, pedidos).preauths.contains_key(id),
        tras_todos(s, pedidos).preauths[id].estado is Anulada,
    decreases pedidos.len(),
{
    if pedidos.len() > 0 {
        let previo = tras_todos(s, pedidos.drop_last());
        lemma_anulada_estable(s, pedidos.drop_last(), id);
        ley_validez(previo, pedidos.last().0, pedidos.last().1);
        lemma_proximo_libre(previo);
    }
}

/// Una pre-autorización anulada no se cobra nunca, pase lo que pase después: todo
/// cobro se rechaza y no cambia nada. Vale también si se la anuló después de cobrada.
pub proof fn ley_lo_anulado_no_se_cobra(
    s: PasarelaVista,
    pedidos: Seq<(PedidoVista, Real64)>,
    tx: Seq<char>,
    cobro: PedidoVista,
    tarifado: Real64,
)
    requires
        s.valida(),
        cobro is ProcesarCobro,
        s.preauths.contains_key(cobro->ProcesarCobro_preauth_id),
    ensures
        ({
            let id = cobro->ProcesarCobro_preauth_id;
            let abort = PedidoVista::AbortPreauth { tx_id: tx, preauth_id: id };
            let t = tras_todos(s.tras(abort, tarifado), pedidos);
            &&& t.respuesta(cobro, tarifado) is CobroRechazado
            &&& t.respuesta(cobro, tarifado)->CobroRechazado_preauth_id == id
            &&& t.tras(cobro, tarifado) == t
        }),
{
    let id = cobro->ProcesarCobro_preauth_id;
    let abort = PedidoVista::AbortPreauth { tx_id: tx, preauth_id: id };
    ley_validez(s, abort, tarifado);
    lemma_anulada_estable(s.tras(abort, tarifado), pedidos, id);
}

/// No se cobra más de lo pre-autorizado ni más de lo que da la tarifa: un primer
/// cobro es el menor de los dos.
pub proof fn ley_no_se_cobra_de_mas(s: PasarelaVista, cobro: PedidoVista, tarifado: Real64)
    requires
        s.valida(),
        cobro is ProcesarCobro,
        s.preauths.contains_key(cobro->ProcesarCobro_preauth_id),
        s.preauths[cobro->ProcesarCobro_preauth_id].estado !is Anulada,
        !s.preauths[cobro->ProcesarCobro_preauth_id].reservado.es_nan_spec(),
    ensures
        ({
            let pa = s.preauths[cobro->ProcesarCobro_preauth_id];
            let monto = s.respuesta(cobro, tarifado)->monto;
            &&& monto.no_supera(pa.reservado)
            &&& pa.estado !is Cobrada && !tarifado.es_nan_spec() ==> monto.no_supera(tarifado) && (
            monto == tarifado || monto == pa.reservado)
        }),
{
    assert(cobro_acotado(s.preauths[cobro->ProcesarCobro_preauth_id]));
}

/// A qué pre-autorización se refiere un pedido, cuando ya existe una.
pub open spec fn apunta_a(s: PasarelaVista, pedido: PedidoVista, id: Seq<char>) -> bool {
    match pedido {
        PedidoVista::PreparePreauth { .. } => s.emite(pedido) && id == s.proximo_id(),
        PedidoVista::CommitPreauth { preauth_id, .. } => id == preauth_id,
        PedidoVista::AbortPreauth { preauth_id, .. } => id == preauth_id,
        PedidoVista::ProcesarCobro { preauth_id, .. } => id == preauth_id,
    }
}

/// Un pedido no toca ninguna pre-autorización más que la suya.
pub proof fn ley_no_toca_a_las_demas(
    s: PasarelaVista,
    pedido: PedidoVista,
    tarifado: Real64,
    id: Seq<char>,
)
    requires
        s.valida(),
        !apunta_a(s, pedido, id),
    ensures
        s.tras(pedido, tarifado).preauths.contains_key(id) == s.preauths.contains_key(id),
        s.preauths.contains_key(id) ==> s.tras(pedido, tarifado).preauths[id] == s.preauths[id],
{
}

/// Dos transacciones distintas votadas Sí reciben pre-autorizaciones distintas.
pub proof fn ley_ids_distintos(
    s: PasarelaVista,
    pedidos: Seq<(PedidoVista, Real64)>,
    a: PedidoVista,
    b: PedidoVista,
    tarifado: Real64,
)
    requires
        s.valida(),
        a is PreparePreauth,
        b is PreparePreauth,
        a->PreparePreauth_tx_id != b->PreparePreauth_tx_id,
        s.respuesta(a, tarifado)->rechazo is None,
        tras_todos(s.tras(a, tarifado), pedidos).respuesta(b, tarifado)->rechazo is None,
    ensures
        s.respuesta(a, tarifado)->Voto_preauth_id != tras_todos(
            s.tras(a, tarifado),
            pedidos,
        ).respuesta(b, tarifado)->Voto_preauth_id,
{
    let tx = a->PreparePreauth_tx_id;
    let otra = b->PreparePreauth_tx_id;
    let t0 = s.tras(a, tarifado);
    let t = tras_todos(t0, pedidos);
    ley_validez(s, a, tarifado);
    lemma_proximo_libre(s);
    let id = if s.preparo(tx) {
        s.preauth_de(tx)
    } else {
        s.proximo_id()
    };
    assert(t0.es_de(id, tx));
    ley_vinculo_estable(t0, pedidos, id, tx);
    lemma_proximo_libre(t);
    if t.preparo(otra) {
        assert(t.es_de(t.preauth_de(otra), otra));
    }
}

// ---------------------------------------------------------------------------
// Lo que hace cada pedido
// ---------------------------------------------------------------------------

/// Todo CVV de tres cifras sirve, con cualquier número que no esté vacío y sean cuales sean
/// el titular y el vencimiento.
pub proof fn ley_toda_tarjeta_con_cvv_sirve(t: TarjetaVista, a: int, b: int, c: int)
    requires
        t.numero.len() > 0,
        0 <= a <= 9,
        0 <= b <= 9,
        0 <= c <= 9,
        t.cvv == seq![(48 + a) as char, (48 + b) as char, (48 + c) as char],
    ensures
        es_tarjeta_valida(t),
{
    assert(t.cvv[0] as int == 48 + a);
    assert(t.cvv[1] as int == 48 + b);
    assert(t.cvv[2] as int == 48 + c);
    assert forall|i: int| 0 <= i < 3 implies es_cifra(#[trigger] t.cvv[i]) by {
        assert(i == 0 || i == 1 || i == 2);
    }
}

/// En particular sirve como CVV cualquier número menor que mil, escrito con tres cifras.
pub proof fn ley_todo_numero_de_tres_cifras_es_un_cvv(t: TarjetaVista, n: nat)
    requires
        t.numero.len() > 0,
        n < 1000,
        t.cvv == decimal(1000 + n).skip(1),
    ensures
        es_tarjeta_valida(t),
{
    let m = 1000 + n;
    ley_como_se_escribe(m);
    ley_como_se_escribe(m / 10);
    ley_como_se_escribe(m / 10 / 10);
    ley_como_se_escribe(m / 10 / 10 / 10);
    lemma_decimal(m);
    let d = decimal(m);
    assert(d.len() == 4);
    assert(t.cvv.len() == 3);
    assert forall|i: int| 0 <= i < 3 implies es_cifra(#[trigger] t.cvv[i]) by {
        assert(t.cvv[i] == d[i + 1]);
        assert(es_cifra(d[i + 1]));
    }
}

/// Ninguna otra tarjeta sirve: ni una sin número, ni una con un CVV de otro largo o con
/// algo que no es una cifra.
pub proof fn ley_ninguna_otra_tarjeta_sirve(t: TarjetaVista, i: int)
    ensures
        t.numero.len() == 0 ==> !es_tarjeta_valida(t),
        t.cvv.len() != 3 ==> !es_tarjeta_valida(t),
        0 <= i < t.cvv.len() && !(48 <= t.cvv[i] as int <= 57) ==> !es_tarjeta_valida(t),
{
    if t.cvv.len() == 3 && 0 <= i < 3 && !(48 <= t.cvv[i] as int && t.cvv[i] as int <= 57) {
        assert(!es_cifra(t.cvv[i]));
    }
}

/// La tarjeta, por sus datos, es de las que se aceptan.
pub open spec fn aceptable(t: TarjetaVista) -> bool {
    &&& t.numero.len() > 0
    &&& t.cvv.len() == 3
    &&& 48 <= t.cvv[0] as int <= 57
    &&& 48 <= t.cvv[1] as int <= 57
    &&& 48 <= t.cvv[2] as int <= 57
}

/// Una transacción está preparada si y solo si alguna pre-autorización es suya.
pub proof fn ley_que_es_estar_preparada(s: PasarelaVista, tx: Seq<char>, id: Seq<char>)
    ensures
        s.preauths.contains_key(id) && s.preauths[id].tx_id == tx ==> s.preparo(tx),
        s.preparo(tx) ==> s.preauths.contains_key(s.preauth_de(tx)) && s.preauths[s.preauth_de(
            tx,
        )].tx_id == tx,
{
    if s.preauths.contains_key(id) && s.preauths[id].tx_id == tx {
        assert(s.es_de(id, tx));
    }
}

/// Lo que hace un Prepare de una transacción nueva. Con una tarjeta aceptable se vota Sí,
/// con el próximo id, y queda preparada por el monto propuesto; con otra se vota No y no
/// cambia nada.
pub proof fn ley_prepare_nuevo(
    s: PasarelaVista,
    tx_id: Seq<char>,
    usuario_id: Seq<char>,
    tarjeta: TarjetaVista,
    monto_propuesto: Real64,
    tarifado: Real64,
)
    requires
        forall|id: Seq<char>| #[trigger]
            s.preauths.contains_key(id) ==> s.preauths[id].tx_id != tx_id,
    ensures
        ({
            let pedido = PedidoVista::PreparePreauth {
                tx_id,
                usuario_id,
                tarjeta,
                monto_propuesto,
            };
            let id = "P-"@ + decimal(s.contador + 1);
            &&& aceptable(tarjeta) ==> {
                &&& s.respuesta(pedido, tarifado) == (RespuestaVista::Voto {
                    tx_id,
                    rechazo: None,
                    preauth_id: Some(id),
                })
                &&& s.tras(pedido, tarifado).contador == s.contador + 1
                &&& s.tras(pedido, tarifado).preauths == s.preauths.insert(
                    id,
                    (PreauthVista {
                        tx_id,
                        reservado: monto_propuesto,
                        estado: EstadoPreAuth::Preparada,
                    }),
                )
            }
            &&& !aceptable(tarjeta) ==> {
                &&& s.respuesta(pedido, tarifado) == (RespuestaVista::Voto {
                    tx_id,
                    rechazo: Some("tarjeta inválida"@),
                    preauth_id: None,
                })
                &&& s.tras(pedido, tarifado) == s
            }
        }),
{
    if s.preparo(tx_id) {
        assert(s.es_de(s.preauth_de(tx_id), tx_id));
    }
    if aceptable(tarjeta) {
        assert forall|i: int| 0 <= i < 3 implies es_cifra(#[trigger] tarjeta.cvv[i]) by {
            assert(i == 0 || i == 1 || i == 2);
        }
    } else if es_tarjeta_valida(tarjeta) {
        assert(es_cifra(tarjeta.cvv[0]) && es_cifra(tarjeta.cvv[1]) && es_cifra(tarjeta.cvv[2]));
    }
}

/// Lo que hace un Prepare de una transacción ya preparada: se vota Sí con la
/// pre-autorización que tiene, con la tarjeta y el monto que traiga, y no cambia nada.
pub proof fn ley_prepare_repetido(
    s: PasarelaVista,
    tx_id: Seq<char>,
    usuario_id: Seq<char>,
    tarjeta: TarjetaVista,
    monto_propuesto: Real64,
    tarifado: Real64,
    id: Seq<char>,
)
    requires
        s.valida(),
        s.preauths.contains_key(id),
        s.preauths[id].tx_id == tx_id,
    ensures
        ({
            let pedido = PedidoVista::PreparePreauth {
                tx_id,
                usuario_id,
                tarjeta,
                monto_propuesto,
            };
            &&& s.respuesta(pedido, tarifado) == (RespuestaVista::Voto {
                tx_id,
                rechazo: None,
                preauth_id: Some(id),
            })
            &&& s.tras(pedido, tarifado) == s
        }),
{
    assert(s.es_de(id, tx_id));
    let otro = s.preauth_de(tx_id);
    assert(s.es_de(otro, tx_id));
    assert(s.preauths.contains_key(otro));
}

/// Lo que hacen un Commit y un Abort: contestan con el id que traen; el Commit activa la
/// pre-autorización si estaba preparada, y el Abort la anula esté como esté. Lo reservado
/// y la transacción no cambian, ni las demás, ni la cuenta. Con un id que no existe no
/// cambia nada.
pub proof fn ley_commit_y_abort(
    s: PasarelaVista,
    tx_id: Seq<char>,
    preauth_id: Seq<char>,
    tarifado: Real64,
)
    ensures
        ({
            let pedido = PedidoVista::CommitPreauth { tx_id, preauth_id };
            let t = s.tras(pedido, tarifado);
            let pa = s.preauths[preauth_id];
            &&& s.respuesta(pedido, tarifado) == (RespuestaVista::PreauthConfirmada { preauth_id })
            &&& t.contador == s.contador
            &&& !s.preauths.contains_key(preauth_id) ==> t == s
            &&& s.preauths.contains_key(preauth_id) && pa.estado is Preparada ==> t.preauths
                == s.preauths.insert(
                preauth_id,
                (PreauthVista { estado: EstadoPreAuth::Activa, ..pa }),
            )
            &&& s.preauths.contains_key(preauth_id) && pa.estado !is Preparada ==> t == s
        }),
        ({
            let pedido = PedidoVista::AbortPreauth { tx_id, preauth_id };
            let t = s.tras(pedido, tarifado);
            let pa = s.preauths[preauth_id];
            &&& s.respuesta(pedido, tarifado) == (RespuestaVista::PreauthAnulada { preauth_id })
            &&& t.contador == s.contador
            &&& !s.preauths.contains_key(preauth_id) ==> t == s
            &&& s.preauths.contains_key(preauth_id) ==> t.preauths == s.preauths.insert(
                preauth_id,
                (PreauthVista { estado: EstadoPreAuth::Anulada, ..pa }),
            )
        }),
{
    let pedido = PedidoVista::CommitPreauth { tx_id, preauth_id };
    let t = s.tras(pedido, tarifado);
    if s.preauths.contains_key(preauth_id) && s.preauths[preauth_id].estado !is Preparada {
        assert(t.preauths =~= s.preauths);
    }
}

/// Lo que hace un cobro. Sin pre-autorización, o con una anulada, se rechaza y no cambia
/// nada. Una ya cobrada contesta el mismo monto. Si no, se cobra lo tarifado cuando no
/// supera lo reservado, y lo reservado cuando lo supera; y eso queda cobrado.
pub proof fn ley_lo_que_se_cobra(
    s: PasarelaVista,
    preauth_id: Seq<char>,
    t0: Timestamp,
    t1: Timestamp,
    tarifado: Real64,
)
    ensures
        ({
            let pedido = PedidoVista::ProcesarCobro { preauth_id, t0, t1 };
            let r = s.respuesta(pedido, tarifado);
            let t = s.tras(pedido, tarifado);
            let pa = s.preauths[preauth_id];
            let existe = s.preauths.contains_key(preauth_id);
            &&& t.contador == s.contador
            &&& !existe ==> t == s && r == (RespuestaVista::CobroRechazado {
                preauth_id,
                motivo: "no existe la pre-autorización"@,
            })
            &&& existe && pa.estado is Anulada ==> t == s && r == (RespuestaVista::CobroRechazado {
                preauth_id,
                motivo: "la pre-autorización está anulada"@,
            })
            &&& existe ==> (pa.estado matches EstadoPreAuth::Cobrada { monto_final } ==> {
                &&& r == (RespuestaVista::CobroConfirmado { preauth_id, monto: monto_final })
                &&& t == s
            })
            &&& existe && (pa.estado is Preparada || pa.estado is Activa) ==> {
                &&& r matches RespuestaVista::CobroConfirmado { preauth_id: p, monto }
                &&& p == preauth_id
                &&& tarifado.no_supera(pa.reservado) ==> monto == tarifado
                &&& !tarifado.es_nan_spec() && !pa.reservado.es_nan_spec() && !tarifado.no_supera(
                    pa.reservado,
                ) ==> monto == pa.reservado
                &&& !tarifado.es_nan_spec() && pa.reservado.es_nan_spec() ==> monto == tarifado
                &&& tarifado.es_nan_spec() ==> monto == pa.reservado
                &&& t.preauths == s.preauths.insert(
                    preauth_id,
                    (PreauthVista { estado: EstadoPreAuth::Cobrada { monto_final: monto }, ..pa }),
                )
            }
        }),
{
    let pedido = PedidoVista::ProcesarCobro { preauth_id, t0, t1 };
    let t = s.tras(pedido, tarifado);
    if s.preauths.contains_key(preauth_id) && s.preauths[preauth_id].estado is Cobrada {
        assert(t.preauths =~= s.preauths);
    }
}

/// Con montos positivos, lo que se cobra es el menor de los dos por sus bits.
pub proof fn ley_se_cobra_el_menor(s: PasarelaVista, cobro: PedidoVista, tarifado: Real64)
    requires
        cobro is ProcesarCobro,
        s.preauths.contains_key(cobro->ProcesarCobro_preauth_id),
        ({
            let pa = s.preauths[cobro->ProcesarCobro_preauth_id];
            &&& pa.estado is Activa
            &&& pa.reservado.bits <= 0x7ff0_0000_0000_0000
        }),
        tarifado.bits <= 0x7ff0_0000_0000_0000,
    ensures
        ({
            let pa = s.preauths[cobro->ProcesarCobro_preauth_id];
            &&& s.respuesta(cobro, tarifado) is CobroConfirmado
            &&& tarifado.bits <= pa.reservado.bits ==> s.respuesta(cobro, tarifado)->monto
                == tarifado
            &&& tarifado.bits >= pa.reservado.bits ==> s.respuesta(cobro, tarifado)->monto
                == pa.reservado
        }),
{
}

/// Lo que se factura en un cobro son los minutos enteros que caben entre sus dos instantes.
/// Ningún otro pedido factura nada.
pub proof fn ley_los_minutos_de_un_cobro(pedido: PedidoVista)
    ensures
        facturables(pedido) is Some <==> pedido is ProcesarCobro,
        pedido matches PedidoVista::ProcesarCobro { t0, t1, .. } ==> {
            &&& t1.0 <= t0.0 ==> facturables(pedido) == Some(0u32)
            &&& t0.0 <= t1.0 && t1.0 - t0.0 < 60_000 * 0x1_0000_0000 ==> {
                let m = facturables(pedido)->0;
                60_000 * m <= t1.0 - t0.0 < 60_000 * (m + 1)
            }
        },
{
    if let PedidoVista::ProcesarCobro { t0, t1, .. } = pedido {
        ley_minutos(t0, t1);
    }
}

} // verus!
