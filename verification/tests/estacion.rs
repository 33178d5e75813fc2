use bicis::comun::direccion::Direccion;
use bicis::comun::mensajes::estacion_estacion::MensajeEntreEstacionesTCP;
use bicis::comun::mensajes::estacion_pasarela::{
    MensajeEstacionAPasarela, MensajePasarelaAEstacion, VotoResultado,
};
use bicis::comun::mensajes::usuario_estacion::{
    MensajeEstacionAUsuario, MensajeEstacionAUsuarioConsulta, MensajeUsuario,
    MensajeUsuarioAEstacion, MensajeUsuarioAEstacionConsulta,
};
use bicis::comun::{
    BiciId, DatosTarjeta, EstacionId, EventId, Real64, RentalId, Timestamp, TransaccionId,
    UsuarioId,
};
use bicis::estacion::arranque::{puede_arrancar, slots_iniciales};
use bicis::estacion::coordinador::{Estacion, Recibido};
use bicis::estacion::mensajes::{
    CommitConfirmado, InfoLider, RegistrarCommitPendiente, SolicitudUsuario, Voto,
};
use bicis::estacion::operacion::{Envio, Operacion, Paso};
use bicis::estacion::slot::Slot;

fn tarjeta() -> DatosTarjeta {
    DatosTarjeta {
        numero: "4111111111111111".to_string(),
        titular: "Alice".to_string(),
        vencimiento: "12/29".to_string(),
        cvv: "123".to_string(),
    }
}

fn alquilar(slot_id: u32) -> SolicitudUsuario {
    SolicitudUsuario(MensajeUsuarioAEstacion::SolicitudAlquiler {
        usuario_id: UsuarioId("alice".to_string()),
        slot_id,
        tarjeta: tarjeta(),
    })
}

fn devolver(bici: u32, slot_id: u32) -> SolicitudUsuario {
    SolicitudUsuario(MensajeUsuarioAEstacion::SolicitudDevolucion {
        usuario_id: UsuarioId("alice".to_string()),
        bici_id: BiciId(bici),
        rental_id: RentalId("R1".to_string()),
        slot_id,
    })
}

const CERO: Real64 = Real64 { bits: 0 };

fn crear(slots: Vec<Slot>, es_lider: bool) -> Estacion {
    Estacion::new(
        EstacionId(1),
        (CERO, CERO),
        slots,
        Direccion::local(9000),
        Direccion::local(9),
        es_lider,
    )
}

/// Crea la estación (como líder).
fn arrancar(slots: Vec<Slot>) -> Estacion {
    crear(slots, true)
}

/// Pasarela de mentira: responde a cada pedido con un voto fijo (Yes/No) y las
/// confirmaciones de commit/abort.
fn responder_mock(pedido: MensajeEstacionAPasarela, vota_si: bool) -> MensajePasarelaAEstacion {
    match pedido {
        MensajeEstacionAPasarela::PreparePreauth { tx_id, .. } => {
            if vota_si {
                MensajePasarelaAEstacion::Voto {
                    tx_id,
                    resultado: VotoResultado::Yes,
                    preauth_id: Some("P-mock".to_string()),
                }
            } else {
                MensajePasarelaAEstacion::Voto {
                    tx_id,
                    resultado: VotoResultado::No {
                        motivo: "tarjeta rechazada".to_string(),
                    },
                    preauth_id: None,
                }
            }
        }
        MensajeEstacionAPasarela::CommitPreauth { preauth_id, .. } => {
            MensajePasarelaAEstacion::PreauthConfirmada { preauth_id }
        }
        MensajeEstacionAPasarela::AbortPreauth { preauth_id, .. } => {
            MensajePasarelaAEstacion::PreauthAnulada { preauth_id }
        }
        MensajeEstacionAPasarela::ProcesarCobro { preauth_id, .. } => {
            MensajePasarelaAEstacion::CobroConfirmado {
                preauth_id,
                monto: CERO,
            }
        }
    }
}

/// Lleva una operación hasta el final. `red` dice, de cada pedido, qué contesta la
/// pasarela.
fn correr(
    estacion: &mut Estacion,
    solicitud: SolicitudUsuario,
    mut red: impl FnMut(MensajeEstacionAPasarela) -> Option<MensajePasarelaAEstacion>,
) -> (MensajeEstacionAUsuario, Option<Envio>) {
    let mut paso = estacion.solicitud_usuario(solicitud);
    loop {
        match paso {
            Paso::Terminar { respuesta, reporte } => return (respuesta, reporte),
            Paso::Consultar {
                destino,
                pedido,
                operacion,
            } => {
                assert_eq!(destino, Direccion::local(9000));
                let respuesta = red(pedido);
                paso = estacion.respuesta_pasarela(operacion, respuesta, Timestamp(777));
            }
        }
    }
}

fn enviar(estacion: &mut Estacion, s: SolicitudUsuario, vota_si: bool) -> MensajeEstacionAUsuario {
    correr(estacion, s, |p| Some(responder_mock(p, vota_si))).0
}

#[test]
fn alquiler_con_ambos_votos_si_confirma_con_preauth_real() {
    let mut estacion = arrancar(vec![Slot::con_bici(0, BiciId(42))]);

    let resp = enviar(&mut estacion, alquilar(0), true);
    match resp {
        MensajeEstacionAUsuario::AlquilerConfirmado { preauth_id, .. } => {
            assert_eq!(preauth_id, "P-mock", "la preauth la da la pasarela");
        }
        otro => panic!("esperaba AlquilerConfirmado, fue {otro:?}"),
    }
    assert!(
        !estacion.estado_slot(0).unwrap().ocupado,
        "el slot quedó vacío"
    );
}

#[test]
fn el_lider_registra_el_alquiler() {
    let mut estacion = arrancar(vec![Slot::con_bici(0, BiciId(42))]);

    assert_eq!(estacion.consultar_registro(), 0);
    let _ = enviar(&mut estacion, alquilar(0), true);
    // El alquiler exitoso se reportó al registro (esta estación es el líder).
    assert_eq!(estacion.consultar_registro(), 1);
}

#[test]
fn pasarela_vota_no_aborta_y_el_slot_no_pierde_la_bici() {
    let mut estacion = arrancar(vec![Slot::con_bici(0, BiciId(42))]);

    let resp = enviar(&mut estacion, alquilar(0), false);
    assert!(matches!(
        resp,
        MensajeEstacionAUsuario::AlquilerRechazado { .. }
    ));
    // Tras el abort, el slot sigue con su bici (la reserva se liberó).
    let estado = estacion.estado_slot(0).unwrap();
    assert_eq!(estado.bici_id, Some(BiciId(42)), "la bici sigue en el slot");
}

#[test]
fn devolucion_a_slot_ocupado_se_rechaza() {
    let mut estacion = arrancar(vec![Slot::con_bici(0, BiciId(10))]);

    let resp = enviar(&mut estacion, devolver(99, 0), true);
    assert!(matches!(
        resp,
        MensajeEstacionAUsuario::DevolucionRechazada { .. }
    ));
    assert_eq!(
        estacion.estado_slot(0).unwrap().bici_id,
        Some(BiciId(10))
    );
}

fn rechazo(motivo: &str) -> MensajeEstacionAUsuario {
    MensajeEstacionAUsuario::AlquilerRechazado {
        motivo: motivo.to_string(),
    }
}

#[test]
fn los_motivos_de_rechazo() {
    let mut estacion = arrancar(vec![Slot::con_bici(0, BiciId(42)), Slot::nuevo(1)]);
    assert_eq!(
        enviar(&mut estacion, alquilar(7), true),
        rechazo("no existe el slot 7")
    );
    assert_eq!(
        enviar(&mut estacion, alquilar(1), true),
        rechazo("el slot no tenía una bici disponible")
    );
    assert_eq!(
        enviar(&mut estacion, alquilar(0), false),
        rechazo("la pasarela rechazó el pago o no respondió")
    );
    assert_eq!(
        enviar(&mut estacion, devolver(99, 4294967295), true),
        MensajeEstacionAUsuario::DevolucionRechazada {
            motivo: "no existe el slot 4294967295".to_string()
        }
    );
    assert_eq!(
        enviar(&mut estacion, devolver(99, 0), true),
        MensajeEstacionAUsuario::DevolucionRechazada {
            motivo: "el slot 0 está ocupado".to_string()
        }
    );
    assert_eq!(
        enviar(&mut estacion, devolver(99, 1), true),
        MensajeEstacionAUsuario::DevolucionAceptada {
            bici_id: BiciId(99)
        }
    );
    assert_eq!(estacion.consultar_registro(), 0);
}

#[test]
fn los_pedidos_del_alquiler_van_en_orden() {
    let mut estacion = arrancar(vec![Slot::con_bici(0, BiciId(42))]);
    let mut pedidos = Vec::new();
    let (resp, reporte) = correr(&mut estacion, alquilar(0), |p| {
        pedidos.push(p.clone());
        Some(responder_mock(p, true))
    });
    assert_eq!(
        pedidos,
        vec![
            MensajeEstacionAPasarela::PreparePreauth {
                tx_id: TransaccionId("T-1-1".to_string()),
                usuario_id: UsuarioId("alice".to_string()),
                tarjeta: tarjeta(),
                monto_propuesto: Real64 {
                    bits: 1000.0f64.to_bits()
                },
            },
            MensajeEstacionAPasarela::CommitPreauth {
                tx_id: TransaccionId("T-1-1".to_string()),
                preauth_id: "P-mock".to_string(),
            },
        ]
    );
    assert_eq!(
        resp,
        MensajeEstacionAUsuario::AlquilerConfirmado {
            rental_id: RentalId("R-1-1".to_string()),
            bici_id: BiciId(42),
            preauth_id: "P-mock".to_string(),
        }
    );
    assert!(reporte.is_none(), "el líder registra directo");
    let propio = estacion
        .alquiler_propio(&RentalId("R-1-1".to_string()))
        .unwrap();
    assert_eq!(propio.bici_id, BiciId(42));
    assert_eq!(propio.inicio, Timestamp(777));
    assert_eq!(propio.fin, None);
}

#[test]
fn si_el_slot_vota_no_se_anula_la_preauth() {
    let mut estacion = arrancar(vec![Slot::nuevo(0)]);
    let mut pedidos = Vec::new();
    let (resp, _) = correr(&mut estacion, alquilar(0), |p| {
        pedidos.push(p.clone());
        Some(responder_mock(p, true))
    });
    assert_eq!(resp, rechazo("el slot no tenía una bici disponible"));
    assert_eq!(
        pedidos[1],
        MensajeEstacionAPasarela::AbortPreauth {
            tx_id: TransaccionId("T-1-1".to_string()),
            preauth_id: "P-mock".to_string(),
        }
    );
}

#[test]
fn un_voto_si_sin_preauth_es_un_no() {
    let mut estacion = arrancar(vec![Slot::con_bici(0, BiciId(42))]);
    let (resp, _) = correr(&mut estacion, alquilar(0), |_| {
        Some(MensajePasarelaAEstacion::Voto {
            tx_id: TransaccionId("T-1-1".to_string()),
            resultado: VotoResultado::Yes,
            preauth_id: None,
        })
    });
    assert_eq!(resp, rechazo("la pasarela rechazó el pago o no respondió"));
    assert_eq!(estacion.estado_slot(0).unwrap().bici_id, Some(BiciId(42)));
}

#[test]
fn si_la_pasarela_no_responde_se_aborta() {
    let mut estacion = arrancar(vec![Slot::con_bici(0, BiciId(42))]);
    let (resp, reporte) = correr(&mut estacion, alquilar(0), |_| None);
    assert_eq!(resp, rechazo("timeout en preparación"));
    assert!(reporte.is_none());
    assert_eq!(estacion.consultar_commits_pendientes(), 0);
    // La bici sigue y se puede alquilar.
    assert!(matches!(
        enviar(&mut estacion, alquilar(0), true),
        MensajeEstacionAUsuario::AlquilerConfirmado { .. }
    ));
}

#[test]
fn un_commit_sin_confirmar_queda_pendiente() {
    let mut estacion = arrancar(vec![Slot::con_bici(0, BiciId(42))]);
    let (resp, _) = correr(&mut estacion, alquilar(0), |p| match p {
        MensajeEstacionAPasarela::CommitPreauth { .. } => None,
        otro => Some(responder_mock(otro, true)),
    });
    // El usuario se llevó la bici igual.
    assert!(matches!(
        resp,
        MensajeEstacionAUsuario::AlquilerConfirmado { .. }
    ));
    assert_eq!(estacion.consultar_commits_pendientes(), 1);
    let pendientes = estacion.commits_pendientes();
    assert_eq!(
        pendientes,
        vec![RegistrarCommitPendiente {
            tx_id: TransaccionId("T-1-1".to_string()),
            preauth_id: "P-mock".to_string(),
        }]
    );
    estacion.commit_confirmado(CommitConfirmado {
        tx_id: TransaccionId("T-1-1".to_string()),
    });
    assert_eq!(estacion.consultar_commits_pendientes(), 0);
    estacion.registrar_commit_pendiente(RegistrarCommitPendiente {
        tx_id: TransaccionId("T-1-9".to_string()),
        preauth_id: "P-4".to_string(),
    });
    assert_eq!(estacion.consultar_commits_pendientes(), 1);
}

#[test]
fn dos_alquileres_a_la_vez_del_mismo_slot() {
    let mut estacion = arrancar(vec![Slot::con_bici(0, BiciId(42))]);
    let Paso::Consultar {
        pedido: p1,
        operacion: o1,
        ..
    } = estacion.solicitud_usuario(alquilar(0))
    else {
        panic!("esperaba una consulta")
    };
    // El segundo llega antes de que la pasarela conteste el primero.
    let Paso::Consultar {
        pedido: p2,
        operacion: o2,
        ..
    } = estacion.solicitud_usuario(alquilar(0))
    else {
        panic!("esperaba una consulta")
    };
    // Y una devolución al mismo slot, también.
    assert!(matches!(
        estacion.solicitud_usuario(devolver(8, 0)),
        Paso::Terminar {
            respuesta: MensajeEstacionAUsuario::DevolucionRechazada { .. },
            ..
        }
    ));
    // La respuesta del segundo llega primero: se aborta.
    let r2 = responder_mock(p2, true);
    assert!(matches!(
        estacion.respuesta_pasarela(o2, Some(r2), Timestamp(1)),
        Paso::Consultar {
            pedido: MensajeEstacionAPasarela::AbortPreauth { .. },
            ..
        }
    ));
    // El primero se lleva la bici que reservó.
    let r1 = responder_mock(p1, true);
    let Paso::Consultar {
        pedido, operacion, ..
    } = estacion.respuesta_pasarela(o1, Some(r1), Timestamp(1))
    else {
        panic!("esperaba una consulta")
    };
    let r = responder_mock(pedido, true);
    match estacion.respuesta_pasarela(operacion, Some(r), Timestamp(1)) {
        Paso::Terminar {
            respuesta: MensajeEstacionAUsuario::AlquilerConfirmado { bici_id, .. },
            ..
        } => assert_eq!(bici_id, BiciId(42)),
        otro => panic!("esperaba AlquilerConfirmado, fue {otro:?}"),
    }
}

#[test]
fn un_follower_reporta_al_lider_y_el_lider_lo_registra_una_vez() {
    let mut follower = crear(vec![Slot::con_bici(0, BiciId(42))], false);
    let (_, reporte) = correr(&mut follower, alquilar(0), |p| Some(responder_mock(p, true)));
    let reporte = reporte.expect("un follower reporta");
    assert_eq!(reporte.destino, Direccion::local(9));
    assert_eq!(
        reporte.mensaje,
        MensajeEntreEstacionesTCP::AlquilerAbierto {
            event_id: EventId("E-1-2".to_string()),
            rental_id: RentalId("R-1-1".to_string()),
            bici_id: BiciId(42),
            usuario_id: UsuarioId("alice".to_string()),
            estacion_origen: EstacionId(1),
            t0: Timestamp(777),
            preauth_id: "P-mock".to_string(),
        }
    );
    assert_eq!(follower.consultar_registro(), 0);

    let mut lider = arrancar(vec![]);
    for _ in 0..2 {
        match lider.paquete_recibido(Some(reporte.mensaje.clone()), None, true) {
            Recibido::Contestar { mensaje } => assert_eq!(
                mensaje,
                MensajeEntreEstacionesTCP::EventoProcesadoAck {
                    event_id: EventId("E-1-2".to_string())
                }
            ),
            otro => panic!("esperaba un acuse, fue {otro:?}"),
        }
        assert_eq!(lider.consultar_registro(), 1);
    }

    // El mismo evento con otro contenido tampoco se reprocesa.
    let otro = MensajeEntreEstacionesTCP::AlquilerAbierto {
        event_id: EventId("E-1-2".to_string()),
        rental_id: RentalId("R-otro".to_string()),
        bici_id: BiciId(1),
        usuario_id: UsuarioId("bob".to_string()),
        estacion_origen: EstacionId(1),
        t0: Timestamp(0),
        preauth_id: "P-0".to_string(),
    };
    lider.paquete_recibido(Some(otro), None, true);
    assert_eq!(lider.consultar_registro(), 1);

    // Un follower ignora el aviso.
    assert!(matches!(
        follower.paquete_recibido(Some(reporte.mensaje), None, true),
        Recibido::Ignorar
    ));
}

#[test]
fn los_paquetes_que_no_son_operaciones_se_ignoran() {
    let mut estacion = arrancar(vec![Slot::con_bici(0, BiciId(42))]);
    let operacion = || Some(MensajeUsuario::Operacion(alquilar(0).0));
    assert!(matches!(
        estacion.paquete_recibido(None, None, true),
        Recibido::Ignorar
    ));
    assert!(matches!(
        estacion.paquete_recibido(
            None,
            Some(MensajeUsuario::Consulta(
                MensajeUsuarioAEstacionConsulta::ConsultaDisponibilidad {
                    usuario_id: UsuarioId("alice".to_string()),
                    ubicacion: (CERO, CERO),
                    radio_max_km: CERO,
                }
            )),
            true
        ),
        Recibido::Ignorar
    ));
    assert!(matches!(
        estacion.paquete_recibido(
            Some(MensajeEntreEstacionesTCP::AlquilerNoEncontrado { bici_id: BiciId(42) }),
            None,
            true
        ),
        Recibido::Ignorar
    ));
    // Sin cómo contestar, tampoco.
    assert!(matches!(
        estacion.paquete_recibido(None, operacion(), false),
        Recibido::Ignorar
    ));
    assert!(matches!(
        estacion.paquete_recibido(None, operacion(), true),
        Recibido::Operar {
            paso: Paso::Consultar { .. }
        }
    ));
}

#[test]
fn con_que_arranca_una_estacion() {
    let slots = slots_iniciales(EstacionId(3));
    assert_eq!(slots.len(), 10);
    for (i, slot) in slots.iter().enumerate() {
        assert_eq!(slot.id(), i as u32);
        let esperada = if i < 5 { Some(BiciId(300 + i as u32)) } else { None };
        assert_eq!(slot.consultar_estado().bici_id, esperada);
    }
    assert!(puede_arrancar(EstacionId(42949672)));
    assert!(!puede_arrancar(EstacionId(42949673)));

    let estacion = crear(slots, false);
    assert_eq!(estacion.id(), EstacionId(1));
    assert_eq!(estacion.cantidad_slots(), 10);
    assert_eq!(estacion.ubicacion(), (CERO, CERO));
    assert!(estacion.puede_numerar());
    assert!(estacion.estado_slot(10).is_none());
}

#[test]
fn un_alquiler_no_toca_los_demas_slots() {
    let mut estacion = arrancar(vec![
        Slot::con_bici(0, BiciId(42)),
        Slot::con_bici(1, BiciId(43)),
        Slot::nuevo(2),
    ]);
    enviar(&mut estacion, alquilar(0), true);
    assert_eq!(estacion.estado_slot(0).unwrap().bici_id, None);
    assert_eq!(estacion.estado_slot(1).unwrap().bici_id, Some(BiciId(43)));
    assert_eq!(estacion.estado_slot(2).unwrap().bici_id, None);
    // Cada alquiler tiene su propio id.
    let otro = enviar(&mut estacion, alquilar(1), true);
    match otro {
        MensajeEstacionAUsuario::AlquilerConfirmado { rental_id, .. } => {
            assert_eq!(rental_id, RentalId("R-1-3".to_string()));
        }
        otro => panic!("esperaba AlquilerConfirmado, fue {otro:?}"),
    }
    assert_eq!(estacion.consultar_registro(), 2);
}

#[test]
fn sin_bici_que_entregar_la_pasarela_tambien_aborta() {
    // Una operación que dice que el slot votó Sí, cuando el slot ya no la tiene
    // reservada.
    let mut estacion = arrancar(vec![Slot::con_bici(0, BiciId(42))]);
    let operacion = Operacion::EsperaVoto {
        tx_id: TransaccionId("T-1-7".to_string()),
        rental_id: RentalId("R-1-7".to_string()),
        usuario_id: UsuarioId("alice".to_string()),
        slot_id: 0,
        voto: Voto::Si,
    };
    let voto = MensajePasarelaAEstacion::Voto {
        tx_id: TransaccionId("T-1-7".to_string()),
        resultado: VotoResultado::Yes,
        preauth_id: Some("P-3".to_string()),
    };
    let Paso::Consultar {
        pedido, operacion, ..
    } = estacion.respuesta_pasarela(operacion, Some(voto), Timestamp(1))
    else {
        panic!("esperaba una consulta")
    };
    assert_eq!(
        pedido,
        MensajeEstacionAPasarela::AbortPreauth {
            tx_id: TransaccionId("T-1-7".to_string()),
            preauth_id: "P-3".to_string(),
        }
    );
    assert_eq!(estacion.consultar_commits_pendientes(), 0);
    match estacion.respuesta_pasarela(operacion, None, Timestamp(1)) {
        Paso::Terminar { respuesta, reporte } => {
            assert_eq!(respuesta, rechazo("el slot no liberó la bici"));
            assert!(reporte.is_none());
        }
        otro => panic!("esperaba terminar, fue {otro:?}"),
    }
    assert_eq!(estacion.estado_slot(0).unwrap().bici_id, Some(BiciId(42)));
}

#[test]
fn una_estacion_que_vuelve_no_repite_identificadores() {
    let mut estacion = arrancar(vec![Slot::con_bici(0, BiciId(42))]);
    estacion.registrar_commit_pendiente(RegistrarCommitPendiente {
        tx_id: TransaccionId("T-1-1".to_string()),
        preauth_id: "P-1".to_string(),
    });
    estacion.numerar_desde(8);
    assert_eq!(estacion.numeracion(), 8);
    estacion.numerar_desde(3);
    assert_eq!(estacion.numeracion(), 8);
    match enviar(&mut estacion, alquilar(0), true) {
        MensajeEstacionAUsuario::AlquilerConfirmado { rental_id, .. } => {
            assert_eq!(rental_id, RentalId("R-1-9".to_string()));
        }
        otro => panic!("esperaba AlquilerConfirmado, fue {otro:?}"),
    }
}

fn en_anillo(id: u32, lider: u32) -> Estacion {
    Estacion::new(
        EstacionId(id),
        (CERO, CERO),
        vec![Slot::con_bici(0, BiciId(id * 100))],
        Direccion::local(9000),
        Direccion::local(8000 + lider as u16),
        id == lider,
    )
    .con_anillo(
        EstacionId(lider),
        [1u32, 2, 3]
            .iter()
            .map(|&i| (EstacionId(i), Direccion::local(8000 + i as u16)))
            .collect(),
    )
}

fn discovery(e: &mut Estacion) -> MensajeEstacionAUsuarioConsulta {
    let pregunta = MensajeUsuario::Consulta(MensajeUsuarioAEstacionConsulta::PreguntarLider);
    match e.paquete_recibido(None, Some(pregunta), true) {
        Recibido::Informar { respuesta } => {
            assert_eq!(respuesta, e.responder_discovery());
            respuesta
        }
        otro => panic!("esperaba una respuesta, fue {otro:?}"),
    }
}

fn respuesta_lider(lider: u32, term: u64) -> MensajeEstacionAUsuarioConsulta {
    MensajeEstacionAUsuarioConsulta::RespuestaLider {
        lider_id: EstacionId(lider),
        lider_addr: Direccion::local(8000 + lider as u16),
        term,
    }
}

#[test]
fn el_discovery_contesta_segun_lo_que_sabe() {
    let mut e = en_anillo(1, 3);
    assert_eq!(discovery(&mut e), respuesta_lider(3, 0));
    e.lider_no_responde();
    assert_eq!(discovery(&mut e), MensajeEstacionAUsuarioConsulta::EnEleccion);
    let mut sola = crear(vec![], false);
    assert_eq!(
        discovery(&mut sola),
        MensajeEstacionAUsuarioConsulta::LiderDesconocido
    );
    // Sin cómo contestar, no se contesta.
    assert!(matches!(
        sola.paquete_recibido(
            None,
            Some(MensajeUsuario::Consulta(
                MensajeUsuarioAEstacionConsulta::PreguntarLider
            )),
            false
        ),
        Recibido::Ignorar
    ));
    let mut lider = arrancar(vec![]);
    assert_eq!(
        discovery(&mut lider),
        MensajeEstacionAUsuarioConsulta::RespuestaLider {
            lider_id: EstacionId(1),
            lider_addr: Direccion::local(9),
            term: 0,
        }
    );
}

#[test]
fn las_estaciones_eligen_un_lider_nuevo() {
    // Arrancan con la 1 como líder; la 2 nota que no responde.
    let mut estaciones: Vec<Estacion> = (1..=3).map(|id| en_anillo(id, 1)).collect();
    assert!(estaciones[0].consultar_lider().soy_lider);
    // La 3 abrió un alquiler mientras era follower.
    enviar(&mut estaciones[2], alquilar(0), true);
    assert_eq!(estaciones[2].consultar_registro(), 0);

    let (mensajes, asumieron) = elegir(&mut estaciones, 2, &[]);
    assert_eq!(mensajes, 6, "dos vueltas de tres mensajes");
    assert_eq!(asumieron, vec![3]);
    for (i, e) in estaciones.iter_mut().enumerate() {
        assert_eq!(
            e.consultar_lider(),
            InfoLider {
                lider_id: Some(EstacionId(3)),
                term: 1,
                soy_lider: i == 2,
            }
        );
        assert_eq!(discovery(e), respuesta_lider(3, 1));
    }
    // La 3 asumió con sus alquileres propios.
    assert_eq!(estaciones[2].consultar_registro(), 1);
    // La 1 dejó de ser líder: ahora reporta a la 3.
    let (_, reporte) = correr(&mut estaciones[0], alquilar(0), |p| {
        Some(responder_mock(p, true))
    });
    assert_eq!(reporte.unwrap().destino, Direccion::local(8003));
    // Un anuncio viejo no cambia nada.
    let viejo = MensajeEntreEstacionesTCP::Coordinator {
        lider: EstacionId(1),
        term: 0,
    };
    assert!(matches!(
        estaciones[2].paquete_recibido(Some(viejo), None, true),
        Recibido::Ignorar
    ));
    assert_eq!(estaciones[2].consultar_registro(), 1);
}

/// La estación que escucha en esa dirección.
fn quien(destino: Direccion) -> u32 {
    (1..=3)
        .find(|&i| destino == Direccion::local(8000 + i as u16))
        .unwrap()
}

/// Corre una elección que arranca `iniciador` con las de `caidas` caídas: lo que se les
/// manda no se entrega, y el que lo mandó se entera. La que asume recibe lo que contestan
/// las demás. Devuelve cuántos mensajes del anillo hubo y quiénes asumieron.
fn elegir(estaciones: &mut [Estacion], iniciador: u32, caidas: &[u32]) -> (usize, Vec<u32>) {
    let mut intentos = 0;
    let mut asumieron = Vec::new();
    let mut emisor = iniciador;
    let mut recibido = estaciones[iniciador as usize - 1].lider_no_responde();
    loop {
        let (estacion, envio) = match recibido {
            Recibido::Enviar { estacion, envio } => (estacion, envio),
            Recibido::Asumir { anuncio, pedidos } => {
                asumieron.push(emisor);
                assert_eq!(pedidos.len(), estaciones.len() - 1);
                for pedido in pedidos {
                    let otra = quien(pedido.destino);
                    assert_ne!(otra, emisor);
                    if caidas.contains(&otra) {
                        continue;
                    }
                    match estaciones[otra as usize - 1].paquete_recibido(
                        Some(pedido.mensaje),
                        None,
                        true,
                    ) {
                        Recibido::Contestar { mensaje } => {
                            estaciones[emisor as usize - 1].paquete_recibido(
                                Some(mensaje),
                                None,
                                false,
                            );
                        }
                        otro => panic!("esperaba los alquileres, fue {otro:?}"),
                    }
                }
                anuncio.unwrap()
            }
            Recibido::Ignorar => return (intentos, asumieron),
            otro => panic!("no es de una elección: {otro:?}"),
        };
        intentos += 1;
        assert_eq!(quien(envio.destino), estacion.0);
        if caidas.contains(&estacion.0) {
            recibido = estaciones[emisor as usize - 1].no_entregado(estacion, envio.mensaje);
        } else {
            emisor = estacion.0;
            recibido =
                estaciones[emisor as usize - 1].paquete_recibido(Some(envio.mensaje), None, true);
        }
    }
}

#[test]
fn quien_asume_reconstruye_el_registro() {
    // Cada estación abrió un alquiler; el líder, la 1, los tenía todos.
    let mut estaciones: Vec<Estacion> = (1..=3).map(|id| en_anillo(id, 1)).collect();
    for i in 0..3 {
        let (_, reporte) = correr(&mut estaciones[i], alquilar(0), |p| {
            Some(responder_mock(p, true))
        });
        if let Some(envio) = reporte {
            estaciones[0].paquete_recibido(Some(envio.mensaje), None, true);
        }
    }
    assert_eq!(estaciones[0].consultar_registro(), 3);
    assert_eq!(estaciones[2].alquileres_propios().len(), 1);

    // Cae la 1: asume la 3, con los de las que contestan.
    let (_, asumieron) = elegir(&mut estaciones, 2, &[1]);
    assert_eq!(asumieron, vec![3]);
    assert_eq!(estaciones[2].consultar_registro(), 2);

    // Vuelve la 1, con sus alquileres guardados: ingresa tarde.
    let mut vuelta = en_anillo(1, 3);
    for alquiler in estaciones[0].alquileres_propios() {
        vuelta.recuperar_alquiler(alquiler);
    }
    assert_eq!(vuelta.alquileres_propios(), estaciones[0].alquileres_propios());
    let ingreso = vuelta.ingreso_tardio().unwrap();
    assert_eq!(ingreso.destino, Direccion::local(8003));
    assert_eq!(
        ingreso.mensaje,
        MensajeEntreEstacionesTCP::IngresoTardio {
            alquileres: vuelta.alquileres_propios(),
        }
    );
    for _ in 0..2 {
        assert!(matches!(
            estaciones[2].paquete_recibido(Some(ingreso.mensaje.clone()), None, true),
            Recibido::Ignorar
        ));
        assert_eq!(estaciones[2].consultar_registro(), 3);
    }
    // A un follower no le dice nada.
    estaciones[1].paquete_recibido(Some(ingreso.mensaje), None, true);
    assert_eq!(estaciones[1].consultar_registro(), 0);
}

#[test]
fn el_pedido_de_alquileres_se_contesta() {
    let pedido = |e: &mut Estacion, term| {
        e.paquete_recibido(
            Some(MensajeEntreEstacionesTCP::SolicitarAlquileresAbiertos { term }),
            None,
            true,
        )
    };
    let propios = |e: &Estacion| MensajeEntreEstacionesTCP::RespuestaAlquileres {
        alquileres: e.alquileres_propios(),
    };
    // Un follower contesta con los suyos.
    let mut follower = en_anillo(2, 1);
    enviar(&mut follower, alquilar(0), true);
    match pedido(&mut follower, 0) {
        Recibido::Contestar { mensaje } => assert_eq!(mensaje, propios(&follower)),
        otro => panic!("esperaba los alquileres, fue {otro:?}"),
    }
    assert_eq!(discovery(&mut follower), respuesta_lider(1, 0));
    // El líder no le contesta a otro de su mismo término.
    let mut lider = en_anillo(1, 1);
    enviar(&mut lider, alquilar(0), true);
    assert!(matches!(pedido(&mut lider, 0), Recibido::Ignorar));
    assert_eq!(lider.consultar_registro(), 1);
    // Al de un término mayor sí, y deja de ser el líder.
    match pedido(&mut lider, 1) {
        Recibido::Contestar { mensaje } => assert_eq!(mensaje, propios(&lider)),
        otro => panic!("esperaba los alquileres, fue {otro:?}"),
    }
    assert_eq!(lider.consultar_registro(), 0);
    assert_eq!(
        discovery(&mut lider),
        MensajeEstacionAUsuarioConsulta::LiderDesconocido
    );
    lider.paquete_recibido(
        Some(MensajeEntreEstacionesTCP::Coordinator {
            lider: EstacionId(3),
            term: 1,
        }),
        None,
        true,
    );
    assert_eq!(discovery(&mut lider), respuesta_lider(3, 1));
}

#[test]
fn el_lider_recupera_sus_alquileres_en_el_registro() {
    let mut lider = en_anillo(1, 1);
    enviar(&mut lider, alquilar(0), true);
    let mut vuelta = en_anillo(1, 1);
    for alquiler in lider.alquileres_propios() {
        vuelta.recuperar_alquiler(alquiler);
    }
    assert_eq!(vuelta.consultar_registro(), 1);
    // No se manda nada a sí mismo, ni a quien no conoce.
    assert!(vuelta.ingreso_tardio().is_none());
    assert!(crear(vec![], false).ingreso_tardio().is_none());
}

#[test]
fn si_cae_el_lider_las_demas_eligen_otro() {
    let mut estaciones: Vec<Estacion> = (1..=3).map(|id| en_anillo(id, 3)).collect();
    assert_eq!(elegir(&mut estaciones, 1, &[3]), (6, vec![2]));
    for i in [0, 1] {
        assert_eq!(discovery(&mut estaciones[i]), respuesta_lider(2, 1));
    }
    assert!(estaciones[1].consultar_lider().soy_lider);
    // El ex líder no se enteró; cuando vuelve, el anuncio lo depone.
    assert!(estaciones[2].consultar_lider().soy_lider);
    let anuncio = MensajeEntreEstacionesTCP::Coordinator {
        lider: EstacionId(2),
        term: 1,
    };
    assert!(matches!(
        estaciones[2].paquete_recibido(Some(anuncio), None, true),
        Recibido::Enviar {
            estacion: EstacionId(1),
            ..
        }
    ));
    assert_eq!(discovery(&mut estaciones[2]), respuesta_lider(2, 1));
    assert!(!estaciones[2].consultar_lider().soy_lider);
}

#[test]
fn la_unica_viva_se_proclama() {
    let mut estaciones: Vec<Estacion> = (1..=3).map(|id| en_anillo(id, 3)).collect();
    assert_eq!(elegir(&mut estaciones, 1, &[2, 3]), (4, vec![1]));
    assert_eq!(discovery(&mut estaciones[0]), respuesta_lider(1, 1));
    assert!(estaciones[0].consultar_lider().soy_lider);
}

#[test]
fn una_estacion_desconocida_no_se_saltea() {
    let mut e = en_anillo(1, 3);
    let anuncio = MensajeEntreEstacionesTCP::Coordinator {
        lider: EstacionId(2),
        term: 1,
    };
    assert!(matches!(
        e.no_entregado(EstacionId(9), anuncio),
        Recibido::Ignorar
    ));
    // Ni se saltea a nadie por un mensaje que no es de la elección.
    let otro = MensajeEntreEstacionesTCP::SolicitarAlquileresAbiertos { term: 1 };
    assert!(matches!(
        e.no_entregado(EstacionId(2), otro),
        Recibido::Ignorar
    ));
    assert_eq!(discovery(&mut e), respuesta_lider(3, 0));
}

#[test]
fn una_estacion_sola_se_proclama() {
    let mut sola = crear(vec![], false);
    match sola.lider_no_responde() {
        Recibido::Asumir { anuncio, pedidos } => {
            assert!(anuncio.is_none());
            assert!(pedidos.is_empty());
        }
        otro => panic!("esperaba asumir, fue {otro:?}"),
    }
    assert_eq!(
        sola.consultar_lider(),
        InfoLider {
            lider_id: Some(EstacionId(1)),
            term: 1,
            soy_lider: true,
        }
    );
}
