use bicis::comun::etiquetas::{escribir_de_estacion, escribir_numerado};
use bicis::comun::texto::{blanco, en_decimal, leer_u32, letras, separar};

#[test]
fn escribe_naturales() {
    for n in [0, 7, 10, 99, 100, 12345, u32::MAX as u64, u64::MAX] {
        assert_eq!(en_decimal(n), n.to_string());
    }
}

#[test]
fn lee_naturales_de_32_bits() {
    for s in [
        "0", "7", "007", "+7", "4294967295", "+4294967295", "4294967296", "99999999999999999999",
        "", "+", "++1", "-1", "-0", " 1", "1 ", "1a", "0x10", "1_000", "１", "1.0",
    ] {
        assert_eq!(leer_u32(s), s.parse::<u32>().ok(), "{s:?}");
    }
}

#[test]
fn lee_lo_que_escribe() {
    for n in [0u32, 1, 9, 10, 4242, u32::MAX] {
        assert_eq!(leer_u32(&en_decimal(n as u64)), Some(n));
    }
}

#[test]
fn los_blancos_son_los_de_unicode() {
    for n in 0..=0x10ffffu32 {
        if let Some(c) = char::from_u32(n) {
            assert_eq!(blanco(c), c.is_whitespace(), "{n:x}");
        }
    }
}

#[test]
fn separa_en_palabras() {
    for s in [
        "",
        "   ",
        "alquilar 1 0",
        "  alquilar\t1   0 \n",
        "está\u{a0}ocupado\u{2003}ñandú",
        "x",
    ] {
        let esperadas: Vec<String> = s.split_whitespace().map(|p| p.to_string()).collect();
        assert_eq!(separar(s), esperadas, "{s:?}");
    }
    assert_eq!(letras("ñu"), vec!['ñ', 'u']);
}

#[test]
fn los_identificadores() {
    assert_eq!(escribir_numerado("P-", 12), "P-12");
    assert_eq!(escribir_de_estacion("T-", 3, 40), "T-3-40");
    assert_ne!(
        escribir_de_estacion("R-", 1, 11),
        escribir_de_estacion("R-", 11, 1)
    );
}
