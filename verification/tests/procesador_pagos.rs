use bicis::comun::config::TarifaConfig;
use bicis::comun::mensajes::estacion_pasarela::MensajeEstacionAPasarela as Pedido;
use bicis::comun::mensajes::estacion_pasarela::{MensajePasarelaAEstacion, VotoResultado};
use bicis::comun::{DatosTarjeta, Real64, Timestamp, TransaccionId, UsuarioId};
use bicis::pasarela::procesador_pagos::{tarjeta_valida, EstadoPreAuth, ProcesadorPagos};

fn r64(x: f64) -> Real64 {
    Real64 { bits: x.to_bits() }
}

fn tarifa() -> TarifaConfig {
    TarifaConfig {
        base: r64(50.0),
        por_minuto: r64(10.0),
    }
}

fn tarjeta(cvv: &str) -> DatosTarjeta {
    DatosTarjeta {
        numero: "4111111111111111".to_string(),
        titular: "Alice".to_string(),
        vencimiento: "12/29".to_string(),
        cvv: cvv.to_string(),
    }
}

fn prepare_por(tx: &str, cvv: &str, monto: f64) -> Pedido {
    Pedido::PreparePreauth {
        tx_id: TransaccionId(tx.to_string()),
        usuario_id: UsuarioId("alice".to_string()),
        tarjeta: tarjeta(cvv),
        monto_propuesto: r64(monto),
    }
}

fn prepare(tx: &str, cvv: &str) -> Pedido {
    prepare_por(tx, cvv, 1000.0)
}

fn commit(tx: &str, id: &str) -> Pedido {
    Pedido::CommitPreauth {
        tx_id: TransaccionId(tx.to_string()),
        preauth_id: id.to_string(),
    }
}

fn abort(tx: &str, id: &str) -> Pedido {
    Pedido::AbortPreauth {
        tx_id: TransaccionId(tx.to_string()),
        preauth_id: id.to_string(),
    }
}

fn cobro(id: &str, t0: u64, t1: u64) -> Pedido {
    Pedido::ProcesarCobro {
        preauth_id: id.to_string(),
        t0: Timestamp(t0),
        t1: Timestamp(t1),
    }
}

/// Lo que da la tarifa por los minutos que se facturan.
fn tarifado(p: &ProcesadorPagos, pedido: &Pedido) -> Real64 {
    let t = p.tarifa();
    match ProcesadorPagos::minutos_facturables(pedido) {
        Some(minutos) => {
            r64(f64::from_bits(t.base.bits) + f64::from_bits(t.por_minuto.bits) * minutos as f64)
        }
        None => r64(0.0),
    }
}

fn enviar(p: &mut ProcesadorPagos, pedido: Pedido) -> MensajePasarelaAEstacion {
    let monto = tarifado(p, &pedido);
    p.procesar(pedido, monto)
}

fn preauth_id(resp: MensajePasarelaAEstacion) -> String {
    match resp {
        MensajePasarelaAEstacion::Voto {
            preauth_id: Some(id),
            ..
        } => id,
        otro => panic!("esperaba Voto con preauth_id, fue {otro:?}"),
    }
}

fn cobrado(resp: MensajePasarelaAEstacion) -> f64 {
    match resp {
        MensajePasarelaAEstacion::CobroConfirmado { monto, .. } => f64::from_bits(monto.bits),
        otro => panic!("esperaba CobroConfirmado, fue {otro:?}"),
    }
}

#[test]
fn prepare_valida_vota_si_y_crea_preauth() {
    let mut p = ProcesadorPagos::new(tarifa());
    let resp = enviar(&mut p, prepare("T1", "123"));
    match resp {
        MensajePasarelaAEstacion::Voto {
            resultado,
            preauth_id,
            ..
        } => {
            assert_eq!(resultado, VotoResultado::Yes);
            assert!(preauth_id.is_some());
        }
        otro => panic!("esperaba Voto, fue {otro:?}"),
    }
}

#[test]
fn prepare_tarjeta_invalida_vota_no() {
    let mut p = ProcesadorPagos::new(tarifa());
    let resp = enviar(&mut p, prepare("T1", "1")); // cvv inválido
    assert!(matches!(
        resp,
        MensajePasarelaAEstacion::Voto {
            resultado: VotoResultado::No { .. },
            preauth_id: None,
            ..
        }
    ));
}

#[test]
fn prepare_es_idempotente_por_tx() {
    let mut p = ProcesadorPagos::new(tarifa());
    let id1 = preauth_id(enviar(&mut p, prepare("T1", "123")));
    let id2 = preauth_id(enviar(&mut p, prepare("T1", "123")));
    assert_eq!(id1, id2, "el mismo tx_id devuelve el mismo preauth_id");
}

#[test]
fn cobro_calcula_monto_y_es_idempotente() {
    let mut p = ProcesadorPagos::new(tarifa());
    let id = preauth_id(enviar(&mut p, prepare("T1", "123")));
    enviar(&mut p, commit("T1", &id));

    // 2 minutos → 50 + 10*2 = 70.
    let r1 = enviar(&mut p, cobro(&id, 0, 120_000));
    let r2 = enviar(&mut p, cobro(&id, 0, 120_000)); // reintento
    assert_eq!(r1, r2, "el cobro es idempotente");
    assert!(matches!(
        r1,
        MensajePasarelaAEstacion::CobroConfirmado { monto, .. } if f64::from_bits(monto.bits) == 70.0
    ));
}

#[test]
fn los_ids_son_consecutivos_y_distintos() {
    let mut p = ProcesadorPagos::new(tarifa());
    assert_eq!(preauth_id(enviar(&mut p, prepare("T1", "123"))), "P-1");
    assert_eq!(preauth_id(enviar(&mut p, prepare("T2", "123"))), "P-2");
    assert_eq!(preauth_id(enviar(&mut p, prepare("T1", "123"))), "P-1");
    for i in 3..12 {
        enviar(&mut p, prepare(&format!("T{i}"), "123"));
    }
    assert_eq!(preauth_id(enviar(&mut p, prepare("T11", "123"))), "P-11");
    assert_eq!(p.emitidas(), 11);
}

#[test]
fn la_tarjeta_pide_numero_y_cvv_de_tres_digitos() {
    assert!(tarjeta_valida(&tarjeta("000")));
    assert!(!tarjeta_valida(&tarjeta("")));
    assert!(!tarjeta_valida(&tarjeta("12")));
    assert!(!tarjeta_valida(&tarjeta("1234")));
    assert!(!tarjeta_valida(&tarjeta("12a")));
    assert!(!tarjeta_valida(&tarjeta("é1")));
    let mut sin_numero = tarjeta("123");
    sin_numero.numero = String::new();
    assert!(!tarjeta_valida(&sin_numero));
}

#[test]
fn prepare_rechazado_dice_por_que_y_no_reserva() {
    let mut p = ProcesadorPagos::new(tarifa());
    let esperado = MensajePasarelaAEstacion::Voto {
        tx_id: TransaccionId("T1".to_string()),
        resultado: VotoResultado::No {
            motivo: "tarjeta inválida".to_string(),
        },
        preauth_id: None,
    };
    assert_eq!(enviar(&mut p, prepare("T1", "1")), esperado);
    assert_eq!(enviar(&mut p, prepare("T1", "1")), esperado);
    assert_eq!(p.emitidas(), 0);
    // Con una tarjeta buena, la misma transacción se puede preparar.
    assert_eq!(preauth_id(enviar(&mut p, prepare("T1", "123"))), "P-1");
}

#[test]
fn ciclo_de_vida_de_una_preauth() {
    let mut p = ProcesadorPagos::new(tarifa());
    let id = preauth_id(enviar(&mut p, prepare("T1", "123")));
    assert_eq!(p.estado_de(&id), Some(EstadoPreAuth::Preparada));
    assert_eq!(
        enviar(&mut p, commit("T1", &id)),
        MensajePasarelaAEstacion::PreauthConfirmada {
            preauth_id: id.clone()
        }
    );
    assert_eq!(p.estado_de(&id), Some(EstadoPreAuth::Activa));
    enviar(&mut p, commit("T1", &id));
    assert_eq!(p.estado_de(&id), Some(EstadoPreAuth::Activa));
    enviar(&mut p, cobro(&id, 0, 60_000));
    assert_eq!(
        p.estado_de(&id),
        Some(EstadoPreAuth::Cobrada {
            monto_final: r64(60.0)
        })
    );
    assert_eq!(p.estado_de(&"P-9".to_string()), None);
}

#[test]
fn un_commit_tardio_no_revive_una_preauth_anulada() {
    let mut p = ProcesadorPagos::new(tarifa());
    let id = preauth_id(enviar(&mut p, prepare("T1", "123")));
    assert_eq!(
        enviar(&mut p, abort("T1", &id)),
        MensajePasarelaAEstacion::PreauthAnulada {
            preauth_id: id.clone()
        }
    );
    enviar(&mut p, commit("T1", &id));
    assert_eq!(p.estado_de(&id), Some(EstadoPreAuth::Anulada));
    // Y el Prepare repetido sigue contestando lo mismo.
    assert_eq!(preauth_id(enviar(&mut p, prepare("T1", "123"))), id);
    assert_eq!(p.estado_de(&id), Some(EstadoPreAuth::Anulada));
}

#[test]
fn no_se_cobra_mas_de_lo_reservado() {
    let mut p = ProcesadorPagos::new(tarifa());
    let id = preauth_id(enviar(&mut p, prepare_por("T1", "123", 100.0)));
    // 10 minutos darían 150.
    assert_eq!(cobrado(enviar(&mut p, cobro(&id, 0, 600_000))), 100.0);
    // Con otros instantes, el mismo monto.
    assert_eq!(cobrado(enviar(&mut p, cobro(&id, 0, 60_000))), 100.0);
}

#[test]
fn se_facturan_minutos_enteros() {
    let mut p = ProcesadorPagos::new(tarifa());
    let a = preauth_id(enviar(&mut p, prepare("T1", "123")));
    let b = preauth_id(enviar(&mut p, prepare("T2", "123")));
    let c = preauth_id(enviar(&mut p, prepare("T3", "123")));
    assert_eq!(cobrado(enviar(&mut p, cobro(&a, 0, 59_999))), 50.0);
    assert_eq!(cobrado(enviar(&mut p, cobro(&b, 0, 179_999))), 70.0);
    // Instantes al revés: no pasó tiempo.
    assert_eq!(cobrado(enviar(&mut p, cobro(&c, 120_000, 0))), 50.0);
    assert_eq!(ProcesadorPagos::minutos_facturables(&commit("T1", "P-1")), None);
}

#[test]
fn no_se_cobra_una_preauth_que_no_existe() {
    let mut p = ProcesadorPagos::new(tarifa());
    assert_eq!(
        enviar(&mut p, cobro("P-1", 0, 60_000)),
        MensajePasarelaAEstacion::CobroRechazado {
            preauth_id: "P-1".to_string(),
            motivo: "no existe la pre-autorización".to_string(),
        }
    );
}

#[test]
fn un_pedido_no_toca_las_demas_preauths() {
    let mut p = ProcesadorPagos::new(tarifa());
    let a = preauth_id(enviar(&mut p, prepare("T1", "123")));
    let b = preauth_id(enviar(&mut p, prepare("T2", "123")));
    enviar(&mut p, commit("T2", &b));
    enviar(&mut p, abort("T1", &a));
    assert_eq!(p.estado_de(&a), Some(EstadoPreAuth::Anulada));
    assert_eq!(p.estado_de(&b), Some(EstadoPreAuth::Activa));
    enviar(&mut p, cobro(&b, 0, 0));
    assert_eq!(p.estado_de(&a), Some(EstadoPreAuth::Anulada));
    assert_eq!(p.tarifa(), tarifa());
}

#[test]
fn una_preauth_anulada_no_se_cobra() {
    let anulada = |id: &str| MensajePasarelaAEstacion::CobroRechazado {
        preauth_id: id.to_string(),
        motivo: "la pre-autorización está anulada".to_string(),
    };
    let mut p = ProcesadorPagos::new(tarifa());
    let id = preauth_id(enviar(&mut p, prepare("T1", "123")));
    enviar(&mut p, abort("T1", &id));
    assert_eq!(enviar(&mut p, cobro(&id, 0, 120_000)), anulada(&id));
    assert_eq!(p.estado_de(&id), Some(EstadoPreAuth::Anulada));
    // Tampoco se vuelve a cobrar una que se anuló después de cobrada.
    let id = preauth_id(enviar(&mut p, prepare("T2", "123")));
    assert_eq!(cobrado(enviar(&mut p, cobro(&id, 0, 120_000))), 70.0);
    enviar(&mut p, abort("T2", &id));
    enviar(&mut p, commit("T2", &id));
    assert_eq!(enviar(&mut p, cobro(&id, 0, 600_000)), anulada(&id));
}
