use bicis::comun::{BiciId, TransaccionId};
use bicis::estacion::mensajes::{
    AbortLiberacion, AceptarBici, CommitLiberacion, EstadoSlot, PrepareLiberacion, Voto,
};
use bicis::estacion::slot::Slot;

fn tx(s: &str) -> TransaccionId {
    TransaccionId(s.to_string())
}

fn prepare(slot: &mut Slot, t: &str) -> Voto {
    slot.prepare_liberacion(PrepareLiberacion { tx_id: tx(t) })
}

fn commit(slot: &mut Slot, t: &str) -> Option<BiciId> {
    slot.commit_liberacion(CommitLiberacion { tx_id: tx(t) })
}

fn abort(slot: &mut Slot, t: &str) {
    slot.abort_liberacion(AbortLiberacion { tx_id: tx(t) })
}

#[test]
fn vota_no_si_esta_vacio() {
    let mut slot = Slot::nuevo(0);
    assert_eq!(prepare(&mut slot, "T1"), Voto::No);
}

#[test]
fn vota_si_y_reserva_si_tiene_bici() {
    let mut slot = Slot::con_bici(0, BiciId(5));
    assert_eq!(prepare(&mut slot, "T1"), Voto::Si);

    // Ya reservado: una segunda tx debe votar No.
    assert_eq!(prepare(&mut slot, "T2"), Voto::No);
}

#[test]
fn commit_libera_la_bici() {
    let mut slot = Slot::con_bici(0, BiciId(5));
    prepare(&mut slot, "T1");

    assert_eq!(commit(&mut slot, "T1"), Some(BiciId(5)));
    assert_eq!(
        slot.consultar_estado(),
        EstadoSlot {
            ocupado: false,
            bici_id: None
        }
    );
}

#[test]
fn abort_limpia_la_reserva_sin_tocar_la_bici() {
    let mut slot = Slot::con_bici(0, BiciId(5));
    prepare(&mut slot, "T1");
    abort(&mut slot, "T1");

    assert_eq!(
        slot.consultar_estado(),
        EstadoSlot {
            ocupado: true,
            bici_id: Some(BiciId(5))
        }
    );

    // Liberada la reserva, puede volver a votar Sí.
    assert_eq!(prepare(&mut slot, "T2"), Voto::Si);
}

#[test]
fn aceptar_bici_en_vacio_y_rechazo_en_ocupado() {
    let mut slot = Slot::nuevo(0);

    assert!(slot.aceptar_bici(AceptarBici { bici_id: BiciId(9) }));
    assert_eq!(
        slot.consultar_estado(),
        EstadoSlot {
            ocupado: true,
            bici_id: Some(BiciId(9))
        }
    );

    // Ya ocupado: rechaza otra bici.
    assert!(!slot.aceptar_bici(AceptarBici {
        bici_id: BiciId(10)
    }));
    assert_eq!(slot.consultar_estado().bici_id, Some(BiciId(9)));
}

#[test]
fn prepare_repetido_recibe_el_mismo_voto() {
    let mut slot = Slot::con_bici(3, BiciId(5));
    assert_eq!(slot.id(), 3);
    assert_eq!(prepare(&mut slot, "T1"), Voto::Si);
    assert_eq!(prepare(&mut slot, "T2"), Voto::No);
    assert_eq!(prepare(&mut slot, "T1"), Voto::Si);
    abort(&mut slot, "T1");
    // El voto No se repite aunque ahora la bici esté libre.
    assert_eq!(prepare(&mut slot, "T2"), Voto::No);
    // El voto Sí se repite sin volver a reservar.
    assert_eq!(prepare(&mut slot, "T1"), Voto::Si);
    assert_eq!(commit(&mut slot, "T1"), None);
    assert_eq!(slot.consultar_estado().bici_id, Some(BiciId(5)));
}

#[test]
fn commit_repetido_contesta_la_misma_bici() {
    let mut slot = Slot::con_bici(0, BiciId(5));
    prepare(&mut slot, "T1");
    assert_eq!(commit(&mut slot, "T1"), Some(BiciId(5)));
    assert_eq!(commit(&mut slot, "T1"), Some(BiciId(5)));
    // Llega otra bici: el repetido no se la lleva.
    assert!(slot.aceptar_bici(AceptarBici { bici_id: BiciId(8) }));
    assert_eq!(commit(&mut slot, "T1"), Some(BiciId(5)));
    assert_eq!(slot.consultar_estado().bici_id, Some(BiciId(8)));
}

#[test]
fn commit_y_abort_ajenos_no_tocan_la_reserva() {
    let mut slot = Slot::con_bici(0, BiciId(5));
    prepare(&mut slot, "T1");
    assert_eq!(commit(&mut slot, "T2"), None);
    abort(&mut slot, "T2");
    assert_eq!(commit(&mut slot, "T1"), Some(BiciId(5)));
    abort(&mut slot, "T1");
    assert_eq!(slot.consultar_estado().bici_id, None);
}
