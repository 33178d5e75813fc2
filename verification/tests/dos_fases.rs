//! El alquiler completo, con una estación y una pasarela, y una red que pierde
//! mensajes.

use bicis::comun::config::TarifaConfig;
use bicis::comun::direccion::Direccion;
use bicis::comun::mensajes::estacion_pasarela::MensajeEstacionAPasarela;
use bicis::comun::mensajes::usuario_estacion::{MensajeEstacionAUsuario, MensajeUsuarioAEstacion};
use bicis::comun::{BiciId, DatosTarjeta, EstacionId, Real64, RentalId, Timestamp, UsuarioId};
use bicis::estacion::coordinador::Estacion;
use bicis::estacion::mensajes::{CommitConfirmado, SolicitudUsuario};
use bicis::estacion::operacion::Paso;
use bicis::estacion::slot::Slot;
use bicis::pasarela::procesador_pagos::{EstadoPreAuth, ProcesadorPagos};

const CERO: Real64 = Real64 { bits: 0 };

#[derive(Clone, Copy, PartialEq)]
enum Red {
    Llega,
    PierdePedido,
    PierdeRespuesta,
}

use Red::{Llega, PierdePedido, PierdeRespuesta};

fn estacion(slot: Slot) -> Estacion {
    Estacion::new(
        EstacionId(1),
        (CERO, CERO),
        vec![slot],
        Direccion::local(9000),
        Direccion::local(9),
        true,
    )
}

fn pasarela() -> ProcesadorPagos {
    ProcesadorPagos::new(TarifaConfig {
        base: CERO,
        por_minuto: CERO,
    })
}

fn alquilar(cvv: &str) -> SolicitudUsuario {
    SolicitudUsuario(MensajeUsuarioAEstacion::SolicitudAlquiler {
        usuario_id: UsuarioId("alice".to_string()),
        slot_id: 0,
        tarjeta: DatosTarjeta {
            numero: "4111111111111111".to_string(),
            titular: "Alice".to_string(),
            vencimiento: "12/29".to_string(),
            cvv: cvv.to_string(),
        },
    })
}

fn correr(
    e: &mut Estacion,
    p: &mut ProcesadorPagos,
    s: SolicitudUsuario,
    red: [Red; 2],
) -> MensajeEstacionAUsuario {
    let mut paso = e.solicitud_usuario(s);
    for suerte in red {
        paso = match paso {
            Paso::Consultar {
                pedido, operacion, ..
            } => {
                let respuesta = match suerte {
                    PierdePedido => None,
                    Llega => Some(p.procesar(pedido, CERO)),
                    PierdeRespuesta => {
                        p.procesar(pedido, CERO);
                        None
                    }
                };
                e.respuesta_pasarela(operacion, respuesta, Timestamp(1))
            }
            fin => fin,
        };
    }
    match paso {
        Paso::Terminar { respuesta, .. } => respuesta,
        otro => panic!("debería haber terminado, fue {otro:?}"),
    }
}

#[test]
fn o_las_dos_cosas_o_ninguna() {
    let todas = [Llega, PierdePedido, PierdeRespuesta];
    for hay_bici in [true, false] {
        for cvv in ["123", "1"] {
            for r0 in todas {
                for r1 in todas {
                    let mut e = estacion(if hay_bici {
                        Slot::con_bici(0, BiciId(42))
                    } else {
                        Slot::nuevo(0)
                    });
                    let mut p = pasarela();
                    let respuesta = correr(&mut e, &mut p, alquilar(cvv), [r0, r1]);
                    let confirmado =
                        matches!(respuesta, MensajeEstacionAUsuario::AlquilerConfirmado { .. });
                    assert_eq!(confirmado, hay_bici && cvv == "123" && r0 == Llega);
                    let preauth = p.estado_de(&"P-1".to_string());
                    let propio = e.alquiler_propio(&RentalId("R-1-1".to_string()));
                    if confirmado {
                        assert_eq!(e.estado_slot(0).unwrap().bici_id, None);
                        assert_eq!(propio.unwrap().preauth_id, "P-1");
                        assert_eq!(e.consultar_registro(), 1);
                        let activa = r1 != PierdePedido;
                        assert_eq!(
                            preauth,
                            Some(if activa {
                                EstadoPreAuth::Activa
                            } else {
                                EstadoPreAuth::Preparada
                            })
                        );
                        assert_eq!(e.consultar_commits_pendientes(), (r1 != Llega) as usize);
                    } else {
                        assert_eq!(e.estado_slot(0).unwrap().ocupado, hay_bici);
                        assert!(propio.is_none());
                        assert_eq!(e.consultar_registro(), 0);
                        assert_ne!(preauth, Some(EstadoPreAuth::Activa));
                        assert_eq!(e.consultar_commits_pendientes(), 0);
                    }
                }
            }
        }
    }
}

#[test]
fn un_commit_pendiente_se_completa_al_reenviarlo() {
    let mut e = estacion(Slot::con_bici(0, BiciId(42)));
    let mut p = pasarela();
    correr(&mut e, &mut p, alquilar("123"), [Llega, PierdePedido]);
    assert_eq!(
        p.estado_de(&"P-1".to_string()),
        Some(EstadoPreAuth::Preparada)
    );
    for pendiente in e.commits_pendientes() {
        p.procesar(
            MensajeEstacionAPasarela::CommitPreauth {
                tx_id: pendiente.tx_id.clone(),
                preauth_id: pendiente.preauth_id,
            },
            CERO,
        );
        e.commit_confirmado(CommitConfirmado {
            tx_id: pendiente.tx_id,
        });
    }
    assert_eq!(p.estado_de(&"P-1".to_string()), Some(EstadoPreAuth::Activa));
    assert_eq!(e.consultar_commits_pendientes(), 0);
}

#[test]
fn alquilar_y_devolver_deja_la_bici_donde_estaba() {
    let mut e = estacion(Slot::con_bici(0, BiciId(42)));
    let mut p = pasarela();
    let MensajeEstacionAUsuario::AlquilerConfirmado {
        rental_id, bici_id, ..
    } = correr(&mut e, &mut p, alquilar("123"), [Llega, Llega])
    else {
        panic!("esperaba AlquilerConfirmado")
    };
    let vuelta = SolicitudUsuario(MensajeUsuarioAEstacion::SolicitudDevolucion {
        usuario_id: UsuarioId("alice".to_string()),
        bici_id,
        rental_id,
        slot_id: 0,
    });
    assert_eq!(
        correr(&mut e, &mut p, vuelta, [Llega, Llega]),
        MensajeEstacionAUsuario::DevolucionAceptada { bici_id }
    );
    assert_eq!(e.estado_slot(0).unwrap().bici_id, Some(BiciId(42)));
    assert!(matches!(
        correr(&mut e, &mut p, alquilar("123"), [Llega, Llega]),
        MensajeEstacionAUsuario::AlquilerConfirmado { .. }
    ));
}
