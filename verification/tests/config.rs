use bicis::comun::config::{Config, EstacionConfig, PasarelaConfig, TarifaConfig};
use bicis::comun::direccion::Direccion;
use bicis::comun::{EstacionId, Real64};

const EJEMPLO: &str = r#"
[[estaciones]]
id = 1
puerto = 8001
ubicacion = [-34.6037, -58.3816]

[[estaciones]]
id = 2
puerto = 8002
ubicacion = [-34.6100, -58.3850]

[[estaciones]]
id = 3
puerto = 8003
ubicacion = [-34.6200, -58.3900]

[pasarela]
puerto = 9000

[tarifa]
base = 50.0
por_minuto = 10.0
"#;

fn r64(v: &toml::Value) -> Real64 {
    Real64 {
        bits: v.as_float().unwrap().to_bits(),
    }
}

fn puerto(v: &toml::Value) -> u16 {
    v["puerto"].as_integer().unwrap() as u16
}

/// Arma la configuración a partir de la tabla TOML.
fn config_de(texto: &str) -> Config {
    let tabla: toml::Table = texto.parse().expect("parsea");
    Config {
        estaciones: tabla["estaciones"]
            .as_array()
            .unwrap()
            .iter()
            .map(|e| EstacionConfig {
                id: EstacionId(e["id"].as_integer().unwrap() as u32),
                puerto: puerto(e),
                ubicacion: (r64(&e["ubicacion"][0]), r64(&e["ubicacion"][1])),
            })
            .collect(),
        pasarela: PasarelaConfig {
            puerto: puerto(&tabla["pasarela"]),
        },
        tarifa: TarifaConfig {
            base: r64(&tabla["tarifa"]["base"]),
            por_minuto: r64(&tabla["tarifa"]["por_minuto"]),
        },
    }
}

#[test]
fn busca_estacion_por_id() {
    let config = config_de(EJEMPLO);
    assert_eq!(config.estacion(EstacionId(2)).unwrap().puerto, 8002);
    assert!(config.estacion(EstacionId(99)).is_none());
}

#[test]
fn con_ids_repetidos_vale_la_primera_entrada() {
    let mut config = config_de(EJEMPLO);
    config.estaciones[2].id = EstacionId(2);
    assert_eq!(config.estacion(EstacionId(2)).unwrap().puerto, 8002);
}

#[test]
fn la_direccion_es_un_puerto_local() {
    let config = config_de(EJEMPLO);
    assert_eq!(
        config.direccion(EstacionId(3)),
        Some(Direccion::V4 {
            ip: 0x7f00_0001,
            puerto: 8003
        })
    );
    assert_eq!(config.direccion(EstacionId(4)), None);
}

#[test]
fn el_lider_inicial_es_el_designado_o_el_mayor() {
    let mut config = config_de(EJEMPLO);
    assert_eq!(config.lider_inicial(None), Some(EstacionId(3)));
    assert_eq!(
        config.lider_inicial(Some(EstacionId(1))),
        Some(EstacionId(1))
    );
    config.estaciones.swap(0, 2);
    assert_eq!(config.lider_inicial(None), Some(EstacionId(3)));
    config.estaciones.clear();
    assert_eq!(config.lider_inicial(None), None);
}
