use bicis::comun::config::{Config, EstacionConfig, PasarelaConfig, TarifaConfig};
use bicis::comun::direccion::Direccion;
use bicis::comun::mensajes::estacion_pasarela::MensajePasarelaAEstacion;
use bicis::comun::mensajes::usuario_estacion::{
    MensajeEstacionAUsuario, MensajeEstacionAUsuarioConsulta, MensajeUsuario,
    MensajeUsuarioAEstacion, MensajeUsuarioAEstacionConsulta,
};
use bicis::comun::{BiciId, EstacionId, InfoEstacion, Real64, RentalId, Timestamp, UsuarioId};
use bicis::estacion::arranque::slots_iniciales;
use bicis::estacion::coordinador::{Estacion, Recibido};
use bicis::estacion::operacion::Paso;
use bicis::pasarela::procesador_pagos::ProcesadorPagos;
use bicis::usuario::repl::{
    ayuda, consultar, direccion, espera_ms, procesar_linea, tras_consulta, tras_discovery, Accion,
    Consulta,
};
use bicis::usuario::usuario::{EstadoUsuario, Usuario};

fn r64(x: f64) -> Real64 {
    Real64 { bits: x.to_bits() }
}

fn config() -> Config {
    Config {
        estaciones: vec![EstacionConfig {
            id: EstacionId(1),
            puerto: 18911,
            ubicacion: (r64(-34.6), r64(-58.4)),
        }],
        pasarela: PasarelaConfig { puerto: 19011 },
        tarifa: TarifaConfig {
            base: r64(50.0),
            por_minuto: r64(10.0),
        },
    }
}

fn alice() -> Usuario {
    Usuario::new(UsuarioId("alice".to_string()))
}

fn con_bici() -> Usuario {
    let mut u = alice();
    u.aplicar(&MensajeEstacionAUsuario::AlquilerConfirmado {
        rental_id: RentalId("R-1-1".to_string()),
        bici_id: BiciId(100),
        preauth_id: "P-1".to_string(),
    });
    u
}

fn dice(u: &Usuario, linea: &str) -> String {
    match procesar_linea(u, &config(), linea) {
        Accion::Decir { texto } => texto,
        otra => panic!("esperaba un texto, fue {otra:?}"),
    }
}

/// Una estación y una pasarela en el mismo proceso.
struct Sistema {
    estacion: Estacion,
    pasarela: ProcesadorPagos,
}

impl Sistema {
    fn intercambiar(&mut self, pedido: MensajeUsuario) -> MensajeEstacionAUsuario {
        let mut paso = match self.estacion.paquete_recibido(None, Some(pedido), true) {
            Recibido::Operar { paso } => paso,
            otro => panic!("esperaba una operación, fue {otro:?}"),
        };
        loop {
            match paso {
                Paso::Terminar { respuesta, .. } => return respuesta,
                Paso::Consultar {
                    pedido, operacion, ..
                } => {
                    let r: MensajePasarelaAEstacion = self.pasarela.procesar(pedido, r64(0.0));
                    paso = self
                        .estacion
                        .respuesta_pasarela(operacion, Some(r), Timestamp(0));
                }
            }
        }
    }
}

#[test]
fn flujo_completo_por_la_repl() {
    let config = config();
    let mut sistema = Sistema {
        estacion: Estacion::new(
            EstacionId(1),
            config.estaciones[0].ubicacion,
            slots_iniciales(EstacionId(1)),
            Direccion::local(config.pasarela.puerto),
            Direccion::local(18911),
            true,
        ),
        pasarela: ProcesadorPagos::new(config.tarifa),
    };
    let mut usuario = alice();

    let comandos = "\
        alquilar 1 0\n\
        estado\n\
        alquilar 1 2\n\
        devolver 1 1\n\
        devolver 1 0\n\
        estado\n\
        salir\n";
    let mut salida = String::new();
    for linea in comandos.lines() {
        match procesar_linea(&usuario, &config, linea) {
            Accion::Nada => {}
            Accion::Decir { texto } => salida.push_str(&format!("{texto}\n")),
            Accion::Operar { destino, pedido } => {
                assert_eq!(destino, Direccion::local(18911));
                let respuesta = sistema.intercambiar(pedido);
                usuario.aplicar(&respuesta);
                salida.push_str(&format!("respuesta: {respuesta:?}\n"));
            }
            Accion::MostrarEstado => {
                salida.push_str(&format!("estado: {:?}\n", usuario.estado()))
            }
            Accion::Salir => break,
            Accion::Consultar { .. } => panic!("nadie consultó"),
        }
    }

    // El slot 0 tiene bici → alquiler OK, el usuario queda ConBici.
    assert!(salida.contains("AlquilerConfirmado"), "salida:\n{salida}");
    assert!(salida.contains("ConBici"), "salida:\n{salida}");
    // Con una bici en mano, un segundo alquiler lo bloquea el propio cliente.
    assert!(salida.contains("ya tenés"), "salida:\n{salida}");
    // Devolver al slot 1 (ocupado) se rechaza; al slot 0 (vacío) se acepta.
    assert!(salida.contains("DevolucionRechazada"), "salida:\n{salida}");
    assert!(salida.contains("DevolucionAceptada"), "salida:\n{salida}");
    // Tras devolver, vuelve a SinBici.
    assert!(
        salida.trim_end().ends_with("SinBici"),
        "el estado final debería ser SinBici. salida:\n{salida}"
    );
}

#[test]
fn los_textos_de_la_consola() {
    let u = alice();
    assert_eq!(
        dice(&u, "ayuda"),
        "comandos: alquilar <estacion> <slot> | devolver <estacion> <slot> | \
         consultar <lat> <lon> <radio_km> | estado | ayuda | salir"
    );
    assert_eq!(dice(&u, "ayuda"), ayuda());
    for linea in ["bailar", "ayuda ya", "alquilar", "alquilar 1", "devolver 1 2 3", "Estado"] {
        assert_eq!(dice(&u, linea), "comando desconocido (probá 'ayuda')");
    }
    assert_eq!(
        dice(&u, "alquilar uno 0"),
        "uso: alquilar <estacion> <slot> (números)"
    );
    assert_eq!(
        dice(&u, "alquilar 1 -1"),
        "uso: alquilar <estacion> <slot> (números)"
    );
    assert_eq!(dice(&u, "alquilar 9 0"), "no conozco la estación 9");
    assert_eq!(
        dice(&u, "devolver 1 x"),
        "uso: devolver <estacion> <slot> (números)"
    );
    assert_eq!(dice(&u, "devolver 1 0"), "no tenés ninguna bici para devolver");
    let u = con_bici();
    assert_eq!(
        dice(&u, "alquilar 1 0"),
        "ya tenés la bici BiciId(100); devolvela antes de alquilar otra"
    );
    assert_eq!(
        dice(&u, "alquilar x y"),
        format!(
            "ya tenés la bici {:?}; devolvela antes de alquilar otra",
            BiciId(100)
        )
    );
    assert_eq!(dice(&u, "devolver 2 0"), "no conozco la estación 2");
}

#[test]
fn las_lineas_que_no_dicen_nada() {
    let u = alice();
    assert!(matches!(procesar_linea(&u, &config(), "  \t "), Accion::Nada));
    assert!(matches!(procesar_linea(&u, &config(), "salir"), Accion::Salir));
    assert!(matches!(procesar_linea(&u, &config(), " exit "), Accion::Salir));
    assert!(matches!(
        procesar_linea(&u, &config(), "estado"),
        Accion::MostrarEstado
    ));
    match procesar_linea(&u, &config(), "consultar -34.6 -58.4 2") {
        Accion::Consultar { lat, lon, radio } => {
            assert_eq!((&lat[..], &lon[..], &radio[..]), ("-34.6", "-58.4", "2"));
        }
        otra => panic!("esperaba una consulta, fue {otra:?}"),
    }
}

#[test]
fn los_pedidos_son_del_usuario() {
    let u = alice();
    match procesar_linea(&u, &config(), "alquilar 1 4") {
        Accion::Operar { destino, pedido } => {
            assert_eq!(destino, Direccion::local(18911));
            assert_eq!(
                pedido,
                MensajeUsuario::Operacion(MensajeUsuarioAEstacion::SolicitudAlquiler {
                    usuario_id: UsuarioId("alice".to_string()),
                    slot_id: 4,
                    tarjeta: u.tarjeta().clone(),
                })
            );
            assert_eq!(u.tarjeta().titular, "alice");
            assert_eq!(u.tarjeta().cvv, "123");
        }
        otra => panic!("esperaba un pedido, fue {otra:?}"),
    }
    match procesar_linea(&con_bici(), &config(), "devolver 1 3") {
        Accion::Operar { pedido, .. } => assert_eq!(
            pedido,
            MensajeUsuario::Operacion(MensajeUsuarioAEstacion::SolicitudDevolucion {
                usuario_id: UsuarioId("alice".to_string()),
                bici_id: BiciId(100),
                rental_id: RentalId("R-1-1".to_string()),
                slot_id: 3,
            })
        ),
        otra => panic!("esperaba un pedido, fue {otra:?}"),
    }
    assert_eq!(direccion(&config(), 1), Some(Direccion::local(18911)));
    assert_eq!(direccion(&config(), 2), None);
}

#[test]
fn las_respuestas_cambian_el_estado() {
    let mut u = alice();
    assert_eq!(u.id(), &UsuarioId("alice".to_string()));
    assert_eq!(*u.estado(), EstadoUsuario::SinBici);
    u.aplicar(&MensajeEstacionAUsuario::AlquilerRechazado {
        motivo: "no".to_string(),
    });
    assert_eq!(*u.estado(), EstadoUsuario::SinBici);
    let mut u = con_bici();
    let tengo = EstadoUsuario::ConBici {
        bici_id: BiciId(100),
        rental_id: RentalId("R-1-1".to_string()),
    };
    assert_eq!(*u.estado(), tengo);
    u.aplicar(&MensajeEstacionAUsuario::DevolucionRechazada {
        motivo: "no".to_string(),
    });
    assert_eq!(*u.estado(), tengo);
    // Se completa la devolución de un alquiler anterior: no me saca la bici.
    let completada = |r: &str| MensajeEstacionAUsuario::DevolucionCompletada {
        rental_id: RentalId(r.to_string()),
        monto_cobrado: r64(70.0),
        tiempo_uso_minutos: 2,
    };
    u.aplicar(&completada("R-1-0"));
    assert_eq!(*u.estado(), tengo);
    u.aplicar(&completada("R-1-1"));
    assert_eq!(*u.estado(), EstadoUsuario::SinBici);
    let mut u = con_bici();
    u.aplicar(&MensajeEstacionAUsuario::DevolucionAceptada {
        bici_id: BiciId(100),
    });
    assert_eq!(*u.estado(), EstadoUsuario::SinBici);
}

fn texto(c: Consulta) -> String {
    match c {
        Consulta::Decir { texto } => texto,
        otra => panic!("esperaba un texto, fue {otra:?}"),
    }
}

#[test]
fn la_consulta_empieza_por_el_discovery() {
    let n = || Some(r64(1.0));
    for (a, b, c) in [(None, n(), n()), (n(), None, n()), (n(), n(), None)] {
        assert_eq!(
            texto(consultar(&config(), a, b, c)),
            "uso: consultar <lat> <lon> <radio_km> (números)"
        );
    }
    let mut vacia = config();
    vacia.estaciones.clear();
    assert_eq!(
        texto(consultar(&vacia, n(), n(), n())),
        "no hay estaciones en la config"
    );
    match consultar(&config(), n(), n(), n()) {
        Consulta::Pedir { destino, pedido } => {
            assert_eq!(destino, Direccion::local(18911));
            assert_eq!(pedido, pregunta());
        }
        otra => panic!("esperaba un pedido, fue {otra:?}"),
    }
}

fn pregunta() -> MensajeUsuario {
    MensajeUsuario::Consulta(MensajeUsuarioAEstacionConsulta::PreguntarLider)
}

/// El aviso, la espera y la cuenta de un reintento a la estación de siempre.
fn reintento(c: Consulta) -> (String, u64, u32) {
    match c {
        Consulta::Reintentar {
            aviso,
            espera_ms,
            intentos,
            destino,
            pedido,
        } => {
            assert_eq!(destino, Direccion::local(18911));
            assert_eq!(pedido, pregunta());
            (aviso, espera_ms, intentos)
        }
        otra => panic!("esperaba un reintento, fue {otra:?}"),
    }
}

#[test]
fn el_discovery_lleva_al_lider() {
    let u = alice();
    let tras = |intentos, r| {
        tras_discovery(
            &u,
            Direccion::local(18911),
            intentos,
            (r64(1.0), r64(2.0)),
            r64(3.0),
            r,
        )
    };
    // Primero hay una elección, después todavía no lo conoce, y por último lo informa.
    let (aviso, espera, intentos) =
        reintento(tras(0, Ok(MensajeEstacionAUsuarioConsulta::EnEleccion)));
    assert_eq!(
        aviso,
        "hay una elección de líder en curso, probá de nuevo en unos segundos"
    );
    assert_eq!((espera, intentos), (200, 1));
    let (aviso, espera, intentos) = reintento(tras(
        intentos,
        Ok(MensajeEstacionAUsuarioConsulta::LiderDesconocido),
    ));
    assert_eq!(aviso, "esa estación todavía no conoce al líder");
    assert_eq!((espera, intentos), (400, 2));
    let lider_addr = Direccion::V6 {
        ip: 1,
        puerto: 8005,
        flujo: 0,
        ambito: 0,
    };
    match tras(
        intentos,
        Ok(MensajeEstacionAUsuarioConsulta::RespuestaLider {
            lider_id: EstacionId(5),
            lider_addr,
            term: 2,
        }),
    ) {
        Consulta::Pedir { destino, pedido } => {
            assert_eq!(destino, lider_addr);
            assert_eq!(
                pedido,
                MensajeUsuario::Consulta(MensajeUsuarioAEstacionConsulta::ConsultaDisponibilidad {
                    usuario_id: UsuarioId("alice".to_string()),
                    ubicacion: (r64(1.0), r64(2.0)),
                    radio_max_km: r64(3.0),
                })
            );
        }
        otra => panic!("esperaba un pedido, fue {otra:?}"),
    }
    assert_eq!(
        texto(tras(0, Err("se cortó".to_string()))),
        "error buscando al líder: se cortó"
    );
    assert!(matches!(
        tras(
            0,
            Ok(MensajeEstacionAUsuarioConsulta::RespuestaDisponibilidad {
                estaciones: vec![]
            })
        ),
        Consulta::DiscoveryInesperado { .. }
    ));
}

#[test]
fn la_espera_se_duplica_hasta_un_maximo() {
    let esperas: Vec<u64> = (0..8).map(espera_ms).collect();
    assert_eq!(esperas, vec![200, 400, 800, 1600, 3200, 5000, 5000, 5000]);
    assert_eq!(espera_ms(u32::MAX), 5000);
}

#[test]
fn el_lider_contesta_la_disponibilidad() {
    let info = InfoEstacion {
        estacion_id: EstacionId(1),
        ubicacion: (r64(1.0), r64(2.0)),
        bicis_disponibles: 3,
        slots_libres: 7,
        last_seen: Timestamp(9),
    };
    let tras = |r| tras_consulta(Direccion::local(18911), u32::MAX, r);
    let disponibilidad =
        |estaciones| Ok(MensajeEstacionAUsuarioConsulta::RespuestaDisponibilidad { estaciones });
    match tras(disponibilidad(vec![info])) {
        Consulta::Estaciones { estaciones } => assert_eq!(estaciones, vec![info]),
        otra => panic!("esperaba estaciones, fue {otra:?}"),
    }
    assert!(matches!(
        tras(disponibilidad(vec![])),
        Consulta::SinEstaciones
    ));
    assert!(matches!(
        tras(Ok(MensajeEstacionAUsuarioConsulta::EnEleccion)),
        Consulta::ConsultaInesperada { .. }
    ));
    // Si el líder no responde, se vuelve a empezar el discovery.
    assert_eq!(
        reintento(tras(Err("se cortó".to_string()))),
        (
            "error consultando disponibilidad: se cortó".to_string(),
            5000,
            u32::MAX
        )
    );
}
