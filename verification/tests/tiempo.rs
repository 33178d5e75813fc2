use bicis::comun::tiempo::{resolver_plazo, Plazo};
use bicis::comun::{Real64, Timestamp};

#[test]
fn minutos_redondeados_hacia_abajo() {
    let t = |n| Timestamp(n);
    assert_eq!(t(0).minutos_hasta(t(120_000)), 2);
    assert_eq!(t(0).minutos_hasta(t(59_999)), 0);
    assert_eq!(t(1).minutos_hasta(t(60_000)), 0);
    assert_eq!(t(1).minutos_hasta(t(60_001)), 1);
    assert_eq!(t(5).minutos_hasta(t(5)), 0);
    assert_eq!(t(120_000).minutos_hasta(t(0)), 0, "posterior anterior");
    for (a, b) in [(0, u64::MAX), (7, u64::MAX), (0, 60_000 * 0x1_0000_0001)] {
        assert_eq!(t(a).minutos_hasta(t(b)), ((b - a) / 60_000) as u32);
    }
}

#[test]
fn el_reloj_avanza() {
    let antes = std::time::SystemTime::now()
        .duration_since(std::time::UNIX_EPOCH)
        .unwrap()
        .as_millis() as u64;
    let ahora = Timestamp::ahora().expect("el reloj está después del epoch");
    let despues = std::time::SystemTime::now()
        .duration_since(std::time::UNIX_EPOCH)
        .unwrap()
        .as_millis() as u64;
    assert!(antes <= ahora.0 && ahora.0 <= despues);
}

#[test]
fn milisegundos_desde_el_epoch() {
    assert_eq!(Timestamp::desde_millis(None), None);
    assert_eq!(Timestamp::desde_millis(Some(1234)), Some(Timestamp(1234)));
    let grande = (1u128 << 64) + 5;
    assert_eq!(
        Timestamp::desde_millis(Some(grande)),
        Some(Timestamp(grande as u64))
    );
}

#[test]
fn el_resultado_le_gana_al_plazo() {
    assert_eq!(resolver_plazo(Some(3), false), Plazo::Listo(3));
    assert_eq!(resolver_plazo(Some(3), true), Plazo::Listo(3));
    assert_eq!(resolver_plazo::<u8>(None, true), Plazo::Vencido);
    assert_eq!(resolver_plazo::<u8>(None, false), Plazo::Pendiente);
}

#[test]
fn el_orden_de_los_reales() {
    let xs = [
        0.0,
        -0.0,
        1.0,
        -1.0,
        1000.0,
        70.0,
        -34.6037,
        f64::MIN_POSITIVE,
        f64::MAX,
        f64::MIN,
        f64::INFINITY,
        f64::NEG_INFINITY,
        f64::NAN,
        -f64::NAN,
        5e-324,
    ];
    let r = |x: f64| Real64 { bits: x.to_bits() };
    for &a in &xs {
        assert_eq!(r(a).es_nan(), a.is_nan());
        for &b in &xs {
            assert_eq!(r(a).menor_o_igual(r(b)), a <= b, "{a} <= {b}");
            let m = f64::from_bits(r(a).minimo(r(b)).bits);
            let esperado = a.min(b);
            assert!(m == esperado || (m.is_nan() && esperado.is_nan()), "{a} min {b}");
        }
    }
}
