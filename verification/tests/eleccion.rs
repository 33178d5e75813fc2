use bicis::comun::mensajes::estacion_estacion::MensajeEntreEstacionesTCP;
use bicis::comun::EstacionId;
use bicis::estacion::eleccion::{AccionRing, Eleccion, EstadoLider};
use bicis::estacion::mensajes::InfoLider;

fn est(id: u32) -> EstacionId {
    EstacionId(id)
}

/// Anillo de prueba: estaciones 1, 2, 3 y 5 (gana la 5).
fn anillo() -> Vec<EstacionId> {
    vec![est(1), est(2), est(3), est(5)]
}

#[test]
fn el_siguiente_del_mayor_es_el_menor() {
    let e = Eleccion::new(est(5), anillo());
    // No hay accessor público de `siguiente`, lo verificamos vía iniciar().
    let mut e = e;
    match e.iniciar() {
        AccionRing::Reenviar { destino, .. } => assert_eq!(destino, est(1)),
        otra => panic!("esperaba Reenviar al 1, fue {otra:?}"),
    }
}

#[test]
fn election_acumula_id_y_reenvia_al_siguiente() {
    let mut e = Eleccion::new(est(2), anillo());
    let accion = e.recibir_election(vec![est(1)], est(1));
    match accion {
        AccionRing::Reenviar { destino, mensaje } => {
            assert_eq!(destino, est(3), "el siguiente de la 2 es la 3");
            assert_eq!(
                mensaje,
                MensajeEntreEstacionesTCP::Election {
                    ids: vec![est(1), est(2)],
                    iniciador: est(1),
                }
            );
        }
        otra => panic!("esperaba Reenviar, fue {otra:?}"),
    }
    assert_eq!(e.lider_conocido(), EstadoLider::EnEleccion);
}

#[test]
fn election_ya_vista_no_se_reenvia() {
    // La 2 recibe un Election cuyo recorrido ya la incluye: no debe reenviarlo.
    let mut e = Eleccion::new(est(2), anillo());
    let accion = e.recibir_election(vec![est(1), est(2), est(3)], est(1));
    assert_eq!(accion, AccionRing::Ignorar);
}

#[test]
fn el_iniciador_cierra_y_gana_el_id_mayor() {
    // El Election vuelve a la 1 (iniciador) con todos los ids: gana la 5.
    let mut e = Eleccion::new(est(1), anillo());
    let accion = e.recibir_election(vec![est(1), est(2), est(3), est(5)], est(1));
    match accion {
        AccionRing::Reenviar { destino, mensaje } => {
            assert_eq!(destino, est(2), "el Coordinator arranca por el siguiente");
            assert_eq!(
                mensaje,
                MensajeEntreEstacionesTCP::Coordinator {
                    lider: est(5),
                    term: 1,
                }
            );
        }
        otra => panic!("esperaba Reenviar el Coordinator, fue {otra:?}"),
    }
    assert_eq!(e.lider_conocido(), EstadoLider::Conocido(est(5)));
}

#[test]
fn el_term_incrementa_al_cerrar_la_eleccion() {
    let mut e = Eleccion::new(est(1), anillo());
    assert_eq!(e.term(), 0);
    let _ = e.recibir_election(vec![est(1), est(5)], est(1));
    assert_eq!(e.term(), 1, "cerrar una elección incrementa el term");

    // Una segunda elección lo vuelve a incrementar.
    let _ = e.recibir_election(vec![est(1), est(5)], est(1));
    assert_eq!(e.term(), 2);
}

#[test]
fn follower_adopta_el_term_mayor_y_reenvia() {
    let mut e = Eleccion::new(est(2), anillo());
    let accion = e.recibir_coordinator(est(5), 3);
    match accion {
        AccionRing::Reenviar { destino, mensaje } => {
            assert_eq!(destino, est(3));
            assert_eq!(
                mensaje,
                MensajeEntreEstacionesTCP::Coordinator {
                    lider: est(5),
                    term: 3,
                }
            );
        }
        otra => panic!("esperaba Reenviar, fue {otra:?}"),
    }
    assert_eq!(e.lider_conocido(), EstadoLider::Conocido(est(5)));
    assert_eq!(e.term(), 3);
}

#[test]
fn follower_descarta_un_coordinator_viejo() {
    let mut e = Eleccion::new(est(2), anillo());
    let _ = e.recibir_coordinator(est(5), 3); // term actual = 3
                                              // Llega un anuncio de una elección anterior (term menor): se ignora.
    let accion = e.recibir_coordinator(est(3), 2);
    assert_eq!(accion, AccionRing::Ignorar);
    assert_eq!(e.lider_conocido(), EstadoLider::Conocido(est(5)));
    assert_eq!(e.term(), 3);
}

#[test]
fn el_coordinator_que_da_la_vuelta_cierra_el_anillo() {
    // La 2 ya aprendió al líder 5 en term 3; el mismo anuncio vuelve a pasar
    // por ella (dio la vuelta completa): no lo reenvía.
    let mut e = Eleccion::new(est(2), anillo());
    let _ = e.recibir_coordinator(est(5), 3);
    let accion = e.recibir_coordinator(est(5), 3);
    assert_eq!(accion, AccionRing::Ignorar);
}

#[test]
fn el_ganador_asume_el_liderazgo() {
    let mut e = Eleccion::new(est(5), anillo());
    let accion = e.recibir_coordinator(est(5), 1);
    match accion {
        AccionRing::AsumirYReenviar { destino, mensaje } => {
            assert_eq!(destino, Some(est(1)));
            assert_eq!(
                mensaje,
                MensajeEntreEstacionesTCP::Coordinator {
                    lider: est(5),
                    term: 1,
                }
            );
        }
        otra => panic!("esperaba AsumirYReenviar, fue {otra:?}"),
    }
    assert_eq!(e.lider_conocido(), EstadoLider::Conocido(est(5)));
}

#[test]
fn un_anillo_de_un_solo_nodo_se_autoelige() {
    let mut e = Eleccion::new(est(7), vec![est(7)]);
    match e.iniciar() {
        AccionRing::AsumirYReenviar { destino, mensaje } => {
            assert_eq!(destino, None, "no hay a quién reenviar");
            assert_eq!(
                mensaje,
                MensajeEntreEstacionesTCP::Coordinator {
                    lider: est(7),
                    term: 1,
                }
            );
        }
        otra => panic!("esperaba autoproclamarse, fue {otra:?}"),
    }
    assert_eq!(e.lider_conocido(), EstadoLider::Conocido(est(7)));
    assert_eq!(e.term(), 1);
}

#[test]
fn el_iniciador_que_es_el_mayor_asume_al_cerrar() {
    // La 5 inicia y, al cerrar, ella misma es la ganadora.
    let mut e = Eleccion::new(est(5), anillo());
    let accion = e.recibir_election(vec![est(5), est(1), est(2), est(3)], est(5));
    match accion {
        AccionRing::AsumirYReenviar { destino, mensaje } => {
            assert_eq!(destino, Some(est(1)));
            assert_eq!(
                mensaje,
                MensajeEntreEstacionesTCP::Coordinator {
                    lider: est(5),
                    term: 1,
                }
            );
        }
        otra => panic!("esperaba AsumirYReenviar, fue {otra:?}"),
    }
}

#[test]
fn anillo_desordenado_y_sin_mi_id_se_completa() {
    // La lista llega desordenada y sin la propia estación.
    let mut e = Eleccion::new(est(2), vec![est(5), est(3), est(1)]);
    match e.iniciar() {
        AccionRing::Reenviar { destino, .. } => assert_eq!(destino, est(3)),
        otra => panic!("esperaba Reenviar, fue {otra:?}"),
    }
}

#[test]
fn arranca_con_un_lider_designado() {
    let e = Eleccion::new(est(2), anillo());
    assert_eq!(e.lider_conocido(), EstadoLider::Desconocido);
    let e = e.con_lider_inicial(est(3));
    assert_eq!(e.lider_conocido(), EstadoLider::Conocido(est(3)));
    assert_eq!(e.term(), 0);
}

#[test]
fn una_eleccion_completa_toma_dos_vueltas_y_gana_el_mayor() {
    let ids = anillo();
    let mut nodos: Vec<Eleccion> = ids.iter().map(|&id| Eleccion::new(id, anillo())).collect();
    let indice = |id: EstacionId| ids.iter().position(|&x| x == id).unwrap();

    let mut viajan = String::new();
    let mut asumieron = Vec::new();
    let mut ultimo = est(2);
    let mut accion = nodos[indice(ultimo)].iniciar();
    loop {
        let (destino, mensaje) = match accion {
            AccionRing::Ignorar => break,
            AccionRing::Reenviar { destino, mensaje } => (destino, mensaje),
            AccionRing::AsumirYReenviar { destino, mensaje } => {
                asumieron.push(ultimo);
                (destino.unwrap(), mensaje)
            }
        };
        viajan.push(match mensaje {
            MensajeEntreEstacionesTCP::Election { .. } => 'E',
            _ => 'C',
        });
        ultimo = destino;
        let nodo = &mut nodos[indice(destino)];
        accion = match mensaje {
            MensajeEntreEstacionesTCP::Election { ids, iniciador } => {
                nodo.recibir_election(ids, iniciador)
            }
            MensajeEntreEstacionesTCP::Coordinator { lider, term } => {
                nodo.recibir_coordinator(lider, term)
            }
            otro => panic!("mensaje inesperado {otro:?}"),
        };
    }

    assert_eq!(viajan, "EEEECCCC", "dos vueltas de cuatro mensajes");
    assert_eq!(asumieron, vec![est(5)], "asume solo el mayor, una vez");
    assert_eq!(ultimo, est(2), "el anuncio se detiene en el iniciador");
    for nodo in &nodos {
        assert_eq!(nodo.lider_conocido(), EstadoLider::Conocido(est(5)));
        assert_eq!(nodo.term(), 1);
    }
}

#[test]
fn un_nodo_con_un_term_adelantado_tambien_adopta_el_resultado() {
    // La 3 quedó un término adelante; la 1 cierra una elección y lo alcanza.
    let mut tres = Eleccion::new(est(3), anillo());
    let _ = tres.recibir_coordinator(est(2), 1);
    let _ = tres.recibir_election(vec![est(1), est(2)], est(1));
    assert!(matches!(
        tres.recibir_coordinator(est(5), 1),
        AccionRing::Reenviar { .. }
    ));
    assert_eq!(tres.lider_conocido(), EstadoLider::Conocido(est(5)));
}

#[test]
fn dos_elecciones_a_la_vez_anuncian_lo_mismo() {
    let mut uno = Eleccion::new(est(1), anillo());
    let mut dos = Eleccion::new(est(2), anillo());
    let a = uno.recibir_election(vec![est(1), est(2), est(3), est(5)], est(1));
    let b = dos.recibir_election(vec![est(2), est(3), est(5), est(1)], est(2));
    let anuncio = |accion| match accion {
        AccionRing::Reenviar { mensaje, .. } => mensaje,
        otra => panic!("esperaba Reenviar, fue {otra:?}"),
    };
    assert_eq!(anuncio(a), anuncio(b));
}

#[test]
fn a_quien_reconoce_como_lider() {
    let mut e = Eleccion::new(est(5), anillo());
    let nadie = InfoLider {
        lider_id: None,
        term: 0,
        soy_lider: false,
    };
    assert_eq!(e.consultar_lider(), nadie);
    let _ = e.iniciar();
    assert_eq!(e.consultar_lider(), nadie);
    let _ = e.recibir_coordinator(est(5), 4);
    assert_eq!(
        e.consultar_lider(),
        InfoLider {
            lider_id: Some(est(5)),
            term: 4,
            soy_lider: true,
        }
    );
    let _ = e.recibir_coordinator(est(3), 5);
    assert_eq!(
        e.consultar_lider(),
        InfoLider {
            lider_id: Some(est(3)),
            term: 5,
            soy_lider: false,
        }
    );
}
