# bicis

Las reglas de un sistema distribuido de alquiler de bicicletas, verificadas con
Verus: qué hace cada proceso con cada mensaje, sin los sockets ni la consola.

- `src/comun`: identificadores, mensajes, configuración, framing de los mensajes,
  textos, tiempo y la tabla sobre la que se apoya el resto.
- `src/estacion`: el slot, el coordinador del alquiler (2PC entre el slot y la
  pasarela), el registro de alquileres del líder y la elección de líder por anillo.
- `src/pasarela`: pre-autorizaciones y cobros.
- `src/usuario`: el estado del usuario y su consola.

Las garantías que abarcan varias operaciones están como funciones de prueba con
nombre `ley_...`: la atomicidad del alquiler en `src/estacion/dos_fases.rs`, la
elección completa en `src/estacion/anillo.rs` (y con estaciones caídas en
`src/estacion/caidas.rs`), lo que pasa al cambiar de líder en
`src/estacion/liderazgo.rs`, la reconstrucción del registro en
`src/estacion/reconstruccion.rs`, la idempotencia de la pasarela en
`src/pasarela/conciliacion.rs`, la del líder en `src/estacion/avisos.rs` y la del
slot en `src/estacion/slot.rs`.

Los montos y las coordenadas son reales de doble precisión llevados por sus bits:
la biblioteca los transporta y los compara; las cuentas las hace `app/`.

`app/` tiene los tres procesos (`estacion`, `pasarela`, `usuario`):

```
bicis pasarela --puerto 9000 --config estaciones.toml
bicis estacion --id 1 --puerto 8001 --config estaciones.toml [--estado estado.json]
bicis usuario --id alice --config estaciones.toml
```
