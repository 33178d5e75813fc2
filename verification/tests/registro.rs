use bicis::comun::{
    Alquiler, BiciId, EstacionId, EstadoAlquiler, RentalId, Timestamp, UsuarioId,
};
use bicis::estacion::registro::Registro;

fn alquiler(rental: &str, bici: u32) -> Alquiler {
    Alquiler {
        rental_id: RentalId(rental.to_string()),
        bici_id: BiciId(bici),
        usuario_id: UsuarioId("alice".to_string()),
        estacion_origen: EstacionId(1),
        inicio: Timestamp(0),
        fin: None,
        preauth_id: "P-1".to_string(),
        estado: EstadoAlquiler::Activo,
    }
}

#[test]
fn agrega_busca_por_bici_y_cierra() {
    let mut reg = Registro::new();
    reg.agregar(alquiler("R1", 42));
    reg.agregar(alquiler("R2", 7));
    assert_eq!(reg.activos(), 2);

    // Busca por bici_id el alquiler activo.
    let encontrado = reg.buscar_por_bici(BiciId(42)).expect("debería estar");
    assert_eq!(encontrado.rental_id, RentalId("R1".to_string()));

    // Cierra R1: deja de aparecer como activo.
    assert!(reg.cerrar(&RentalId("R1".to_string())));
    assert_eq!(reg.activos(), 1);
    assert!(reg.buscar_por_bici(BiciId(42)).is_none());

    // Cerrar algo inexistente devuelve false.
    assert!(!reg.cerrar(&RentalId("R9".to_string())));
}

#[test]
fn agregar_con_el_mismo_id_reemplaza() {
    let mut reg = Registro::default();
    reg.agregar(alquiler("R1", 42));
    reg.agregar(alquiler("R1", 43));
    assert_eq!(reg.activos(), 1);
    assert!(reg.buscar_por_bici(BiciId(42)).is_none());
    assert_eq!(
        reg.buscar_por_bici(BiciId(43)).unwrap().rental_id,
        RentalId("R1".to_string())
    );
}

#[test]
fn cerrar_dos_veces_es_cerrar_una() {
    let mut reg = Registro::new();
    reg.agregar(alquiler("R1", 42));
    reg.agregar(alquiler("R2", 7));
    assert!(reg.cerrar(&RentalId("R1".to_string())));
    assert!(reg.cerrar(&RentalId("R1".to_string())));
    assert_eq!(reg.activos(), 1);
    assert!(reg.buscar_por_bici(BiciId(7)).is_some());
}

#[test]
fn una_bici_cerrada_se_puede_volver_a_alquilar() {
    let mut reg = Registro::new();
    reg.agregar(alquiler("R1", 42));
    reg.cerrar(&RentalId("R1".to_string()));
    reg.agregar(alquiler("R2", 42));
    assert_eq!(
        reg.buscar_por_bici(BiciId(42)).unwrap().rental_id,
        RentalId("R2".to_string())
    );
}

#[test]
fn buscar_por_id_y_copiar() {
    let mut reg = Registro::new();
    reg.agregar(alquiler("R1", 42));
    reg.agregar(alquiler("R2", 7));
    reg.cerrar(&RentalId("R2".to_string()));
    let copia = reg.copia();
    reg.cerrar(&RentalId("R1".to_string()));
    assert_eq!(reg.activos(), 0);
    assert_eq!(copia.activos(), 1);
    assert_eq!(
        copia.buscar(&RentalId("R2".to_string())).unwrap().estado,
        EstadoAlquiler::Cerrado
    );
    assert!(copia.buscar(&RentalId("R3".to_string())).is_none());
}
