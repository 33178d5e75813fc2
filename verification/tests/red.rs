use bicis::comun::args::flag;
use bicis::comun::comunicador::{
    leer_respuesta, Espera, Intentos, Transporte, ESPERA_MS, MAX_INTENTOS,
};
use bicis::comun::framing::{enmarcar_payload, Desenmarcador};

#[test]
fn el_prefijo_es_el_largo_en_cuatro_bytes() {
    assert_eq!(enmarcar_payload(b"").unwrap(), vec![0, 0, 0, 0]);
    assert_eq!(enmarcar_payload(b"ab").unwrap(), vec![0, 0, 0, 2, b'a', b'b']);
    let grande = vec![7u8; 70_000];
    let frame = enmarcar_payload(&grande).unwrap();
    assert_eq!(frame[..4], [0, 1, 0x11, 0x70]);
    assert_eq!(frame.len(), 70_004);
}

#[test]
fn ida_y_vuelta_de_varios_payloads() {
    let mut flujo = Vec::new();
    for p in [&b"hola"[..], &b""[..], &b"chau"[..]] {
        flujo.extend(enmarcar_payload(p).unwrap());
    }
    flujo.extend([0, 0, 0, 9, 1]);
    let mut d = Desenmarcador::new();
    d.alimentar(&flujo);
    assert_eq!(d.siguiente_payload(), Some(b"hola".to_vec()));
    assert_eq!(d.siguiente_payload(), Some(Vec::new()));
    assert_eq!(d.siguiente_payload(), Some(b"chau".to_vec()));
    assert_eq!(d.siguiente_payload(), None);
    d.alimentar(&[2, 3, 4, 5, 6, 7, 8, 9]);
    assert_eq!(d.siguiente_payload(), Some(vec![1, 2, 3, 4, 5, 6, 7, 8, 9]));
}

#[test]
fn de_a_un_byte_da_lo_mismo() {
    let mut flujo = enmarcar_payload(b"uno").unwrap();
    flujo.extend(enmarcar_payload(b"dos").unwrap());
    let mut entero = Desenmarcador::new();
    let juntos = entero.recibir(&flujo);
    assert_eq!(juntos, vec![b"uno".to_vec(), b"dos".to_vec()]);
    let mut partido = Desenmarcador::new();
    let mut sueltos = Vec::new();
    for b in flujo {
        sueltos.extend(partido.recibir(&[b]));
    }
    assert_eq!(sueltos, juntos);
}

#[test]
fn la_respuesta_se_espera_hasta_que_esta_completa() {
    let frame = enmarcar_payload(b"hola").unwrap();
    let mut d = Desenmarcador::new();
    assert_eq!(leer_respuesta(&mut d, &frame[..3]), Espera::Seguir);
    assert_eq!(leer_respuesta(&mut d, &frame[3..6]), Espera::Seguir);
    assert_eq!(
        leer_respuesta(&mut d, &frame[6..]),
        Espera::Lista {
            payload: b"hola".to_vec()
        }
    );
    assert_eq!(leer_respuesta(&mut d, &[]), Espera::Cortada);
}

#[test]
fn se_intenta_diez_veces() {
    let mut intentos = Intentos::new();
    let mut hechos = 0;
    while intentos.otro() {
        hechos += 1;
    }
    assert_eq!(hechos, 10);
    assert_eq!(MAX_INTENTOS, 10);
    assert_eq!(ESPERA_MS, 50);
    assert!(!intentos.otro());
    assert_ne!(Transporte::Tcp, Transporte::Udp);
}

#[test]
fn el_valor_que_sigue_a_la_bandera() {
    let args: Vec<String> = ["bicis", "--id", "7", "--id", "8", "--config"]
        .iter()
        .map(|s| s.to_string())
        .collect();
    assert_eq!(flag(&args, "--id"), Some("7".to_string()));
    assert_eq!(flag(&args, "--config"), None, "no la sigue nada");
    assert_eq!(flag(&args, "--puerto"), None);
    assert_eq!(flag(&args, "7"), Some("--id".to_string()));
    assert_eq!(flag(&Vec::new(), "--id"), None);
}
