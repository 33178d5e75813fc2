//! La consola del usuario: qué hacer con cada línea que escribe y con cada respuesta
//! que llega.
//!
//! Leer la consola, imprimir y hablar por la red queda afuera: acá se decide qué
//! decir y qué pedirle a quién.

use vstd::prelude::*;
use vstd::string::StringExecFns;

use crate::comun::config::Config;
#[allow(unused_imports)]
use crate::comun::config::{entrada, ley_buscar_estacion, ley_primera};
use crate::comun::direccion::Direccion;
#[allow(unused_imports)]
use crate::comun::direccion::LOCAL;
use crate::comun::dominio::InfoEstacion;
use crate::comun::etiquetas::escribir_numerado;
#[allow(unused_imports)]
use crate::comun::etiquetas::numerado;
use crate::comun::ids::EstacionId;
use crate::comun::mensajes::usuario_estacion::{
    MensajeEstacionAUsuarioConsulta, MensajeUsuario, MensajeUsuarioAEstacion,
    MensajeUsuarioAEstacionConsulta,
};
#[allow(unused_imports)]
use crate::comun::mensajes::usuario_estacion::{ContestacionVista, PreguntaVista, SolicitudVista};
use crate::comun::numeros::Real64;
use crate::comun::texto::{leer_u32, separar};
#[allow(unused_imports)]
use crate::comun::texto::{
    decimal, es_blanco, es_cifra, leer_u32_spec, lemma_decimal, ley_leer_lo_escrito,
    ley_un_blanco_separa, ley_una_palabra, palabras,
};
use crate::usuario::usuario::{EstadoUsuario, Usuario};
#[allow(unused_imports)]
use crate::usuario::usuario::{EstadoVista, UsuarioVista};

verus! {

/// Lo que sigue a una línea de la consola.
#[derive(Debug)]
pub enum Accion {
    /// Nada.
    Nada,
    /// Mostrarle un texto al usuario.
    Decir { texto: String },
    /// Mandarle una operación a una estación.
    Operar { destino: Direccion, pedido: MensajeUsuario },
    /// Consultar la disponibilidad cerca de un punto. Los tres números van como se
    /// escribieron.
    Consultar { lat: String, lon: String, radio: String },
    /// Mostrar el estado del usuario.
    MostrarEstado,
    /// Terminar.
    Salir,
}

/// Lo que sigue a una respuesta en medio de una consulta de disponibilidad.
#[derive(Debug)]
pub enum Consulta {
    /// Mostrarle un texto al usuario y terminar.
    Decir { texto: String },
    /// Mandar un pedido y seguir con lo que contesten.
    Pedir { destino: Direccion, pedido: MensajeUsuario },
    /// Todavía no hay a quién consultarle: contarle al usuario qué pasó, esperar y
    /// volver a preguntar por el líder. `intentos` es cuántas veces se insistió.
    Reintentar {
        aviso: String,
        espera_ms: u64,
        intentos: u32,
        destino: Direccion,
        pedido: MensajeUsuario,
    },
    /// La respuesta al discovery no es ninguna de las esperadas.
    DiscoveryInesperado { respuesta: MensajeEstacionAUsuarioConsulta },
    /// La respuesta a la consulta no es ninguna de las esperadas.
    ConsultaInesperada { respuesta: MensajeEstacionAUsuarioConsulta },
    /// No hay estaciones con bici en ese radio.
    SinEstaciones,
    /// Las estaciones con bici.
    Estaciones { estaciones: Vec<InfoEstacion> },
}

// ---------------------------------------------------------------------------
// Modelo
// ---------------------------------------------------------------------------

/// Una acción, con los textos como secuencias.
#[verifier::ext_equal]
pub enum AccionVista {
    Nada,
    Decir { texto: Seq<char> },
    Operar { destino: Direccion, pedido: SolicitudVista },
    Consultar { lat: Seq<char>, lon: Seq<char>, radio: Seq<char> },
    MostrarEstado,
    Salir,
}

impl Accion {
    /// La acción es la que describe `v`.
    pub open spec fn es(self, v: AccionVista) -> bool {
        match v {
            AccionVista::Nada => self is Nada,
            AccionVista::Decir { texto } => self is Decir && self->texto@ == texto,
            AccionVista::Operar { destino, pedido } => {
                &&& self is Operar
                &&& self->destino == destino
                &&& self->pedido matches MensajeUsuario::Operacion(op) && op@ == pedido
            },
            AccionVista::Consultar { lat, lon, radio } => {
                &&& self is Consultar
                &&& self->lat@ == lat
                &&& self->lon@ == lon
                &&& self->radio@ == radio
            },
            AccionVista::MostrarEstado => self is MostrarEstado,
            AccionVista::Salir => self is Salir,
        }
    }
}

/// La ayuda de la consola.
pub open spec fn texto_ayuda() -> Seq<char> {
    "comandos: alquilar <estacion> <slot> | devolver <estacion> <slot> | consultar <lat> <lon> <radio_km> | estado | ayuda | salir"@
}

/// El aviso de que ya se tiene una bici.
pub open spec fn texto_con_bici(bici: u32) -> Seq<char> {
    numerado("ya tenés la bici BiciId("@, bici as nat)
        + "); devolvela antes de alquilar otra"@
}

/// El aviso de que una estación no está en la configuración.
pub open spec fn texto_desconocida(estacion: u32) -> Seq<char> {
    numerado("no conozco la estación "@, estacion as nat)
}

/// Dónde escucha una estación, si está en la configuración.
pub open spec fn direccion_de(config: Config, estacion: u32) -> Option<Direccion> {
    match entrada(config.estaciones@, EstacionId(estacion)) {
        Some(e) => Some(Direccion::V4 { ip: LOCAL, puerto: e.puerto }),
        None => None,
    }
}

/// Mandarle un pedido a una estación, si está en la configuración.
pub open spec fn mandar(config: Config, estacion: u32, pedido: SolicitudVista) -> AccionVista {
    match direccion_de(config, estacion) {
        Some(destino) => AccionVista::Operar { destino, pedido },
        None => AccionVista::Decir { texto: texto_desconocida(estacion) },
    }
}

/// Qué hacer con `alquilar <est> <slot>`. Una bici por usuario: si ya tiene una, no
/// puede alquilar otra.
pub open spec fn accion_alquilar(
    u: UsuarioVista,
    config: Config,
    est: Seq<char>,
    slot: Seq<char>,
) -> AccionVista {
    match u.estado {
        EstadoVista::ConBici { bici_id, .. } => AccionVista::Decir {
            texto: texto_con_bici(bici_id.0),
        },
        EstadoVista::SinBici => match (leer_u32_spec(est), leer_u32_spec(slot)) {
            (Some(e), Some(slot_id)) => mandar(
                config,
                e,
                SolicitudVista::Alquiler { usuario_id: u.id, slot_id, tarjeta: u.tarjeta },
            ),
            _ => AccionVista::Decir { texto: "uso: alquilar <estacion> <slot> (números)"@ },
        },
    }
}

/// Qué hacer con `devolver <est> <slot>`.
pub open spec fn accion_devolver(
    u: UsuarioVista,
    config: Config,
    est: Seq<char>,
    slot: Seq<char>,
) -> AccionVista {
    match (leer_u32_spec(est), leer_u32_spec(slot)) {
        (Some(e), Some(slot_id)) => match u.estado {
            EstadoVista::ConBici { bici_id, rental_id } => mandar(
                config,
                e,
                SolicitudVista::Devolucion { usuario_id: u.id, bici_id, rental_id, slot_id },
            ),
            EstadoVista::SinBici => AccionVista::Decir {
                texto: "no tenés ninguna bici para devolver"@,
            },
        },
        _ => AccionVista::Decir { texto: "uso: devolver <estacion> <slot> (números)"@ },
    }
}

/// Qué hacer con las palabras de una línea.
pub open spec fn accion_de(u: UsuarioVista, config: Config, ps: Seq<Seq<char>>) -> AccionVista {
    if ps.len() == 0 {
        AccionVista::Nada
    } else if ps.len() == 3 && ps[0] == "alquilar"@ {
        accion_alquilar(u, config, ps[1], ps[2])
    } else if ps.len() == 3 && ps[0] == "devolver"@ {
        accion_devolver(u, config, ps[1], ps[2])
    } else if ps.len() == 4 && ps[0] == "consultar"@ {
        AccionVista::Consultar { lat: ps[1], lon: ps[2], radio: ps[3] }
    } else if ps.len() == 1 && ps[0] == "estado"@ {
        AccionVista::MostrarEstado
    } else if ps.len() == 1 && ps[0] == "ayuda"@ {
        AccionVista::Decir { texto: texto_ayuda() }
    } else if ps.len() == 1 && (ps[0] == "salir"@ || ps[0] == "exit"@) {
        AccionVista::Salir
    } else {
        AccionVista::Decir { texto: "comando desconocido (probá 'ayuda')"@ }
    }
}

// ---------------------------------------------------------------------------
// Operaciones
// ---------------------------------------------------------------------------

/// La ayuda.
pub fn ayuda() -> (s: String)
    ensures
        s@ == texto_ayuda(),
{
    "comandos: alquilar <estacion> <slot> | devolver <estacion> <slot> | consultar <lat> <lon> <radio_km> | estado | ayuda | salir".to_string()
}

/// ¿La palabra es esta?
fn es(palabra: &String, texto: &str) -> (r: bool)
    ensures
        r == (palabra@ == texto@),
{
    *palabra == texto.to_owned()
}

/// Dice un texto.
fn decir(texto: &str) -> (a: Accion)
    ensures
        a.es(AccionVista::Decir { texto: texto@ }),
{
    Accion::Decir { texto: texto.to_owned() }
}

/// Dónde escucha una estación, si está en la configuración.
pub fn direccion(config: &Config, est_id: u32) -> (r: Option<Direccion>)
    ensures
        r == direccion_de(*config, est_id),
{
    config.direccion(EstacionId(est_id))
}

/// Manda un pedido a una estación, si está en la configuración.
fn mandar_a(config: &Config, est_id: u32, operacion: MensajeUsuarioAEstacion) -> (a: Accion)
    ensures
        a.es(mandar(*config, est_id, operacion@)),
{
    match direccion(config, est_id) {
        Some(destino) => Accion::Operar { destino, pedido: MensajeUsuario::Operacion(operacion) },
        None => Accion::Decir { texto: escribir_numerado("no conozco la estación ", est_id as u64) },
    }
}

/// `alquilar <est> <slot>`.
pub fn alquilar(usuario: &Usuario, config: &Config, est: &str, slot: &str) -> (a: Accion)
    ensures
        a.es(accion_alquilar(usuario@, *config, est@, slot@)),
{
    if let EstadoUsuario::ConBici { bici_id, .. } = usuario.estado() {
        let mut texto = escribir_numerado("ya tenés la bici BiciId(", bici_id.0 as u64);
        texto.append("); devolvela antes de alquilar otra");
        return Accion::Decir { texto };
    }
    match (leer_u32(est), leer_u32(slot)) {
        (Some(est_id), Some(slot_id)) => mandar_a(
            config,
            est_id,
            MensajeUsuarioAEstacion::SolicitudAlquiler {
                usuario_id: usuario.id().clone(),
                slot_id,
                tarjeta: usuario.tarjeta().clone(),
            },
        ),
        _ => decir("uso: alquilar <estacion> <slot> (números)"),
    }
}

/// `devolver <est> <slot>`.
pub fn devolver(usuario: &Usuario, config: &Config, est: &str, slot: &str) -> (a: Accion)
    ensures
        a.es(accion_devolver(usuario@, *config, est@, slot@)),
{
    match (leer_u32(est), leer_u32(slot)) {
        (Some(est_id), Some(slot_id)) => match usuario.estado() {
            EstadoUsuario::ConBici { bici_id, rental_id } => mandar_a(
                config,
                est_id,
                MensajeUsuarioAEstacion::SolicitudDevolucion {
                    usuario_id: usuario.id().clone(),
                    bici_id: *bici_id,
                    rental_id: rental_id.clone(),
                    slot_id,
                },
            ),
            EstadoUsuario::SinBici => decir("no tenés ninguna bici para devolver"),
        },
        _ => decir("uso: devolver <estacion> <slot> (números)"),
    }
}

/// Qué hacer con una línea de la consola.
pub fn procesar_linea(usuario: &Usuario, config: &Config, linea: &str) -> (a: Accion)
    ensures
        a.es(accion_de(usuario@, *config, palabras(linea@))),
{
    let partes = separar(linea);
    let ghost ps = palabras(linea@);
    assert(ps.len() == partes@.len());
    assert(forall|i: int| 0 <= i < partes@.len() ==> (#[trigger] partes@[i])@ == ps[i]);
    let n = partes.len();
    if n == 0 {
        Accion::Nada
    } else if n == 3 && es(&partes[0], "alquilar") {
        alquilar(usuario, config, partes[1].as_str(), partes[2].as_str())
    } else if n == 3 && es(&partes[0], "devolver") {
        devolver(usuario, config, partes[1].as_str(), partes[2].as_str())
    } else if n == 4 && es(&partes[0], "consultar") {
        Accion::Consultar {
            lat: partes[1].clone(),
            lon: partes[2].clone(),
            radio: partes[3].clone(),
        }
    } else if n == 1 && es(&partes[0], "estado") {
        Accion::MostrarEstado
    } else if n == 1 && es(&partes[0], "ayuda") {
        Accion::Decir { texto: ayuda() }
    } else if n == 1 && (es(&partes[0], "salir") || es(&partes[0], "exit")) {
        Accion::Salir
    } else {
        decir("comando desconocido (probá 'ayuda')")
    }
}

// --- Consulta de disponibilidad ---
/// Cuánto se espera antes de insistir la primera vez, en milisegundos.
pub const ESPERA_INICIAL_MS: u64 = 200;

/// Cuánto se espera como mucho antes de insistir, en milisegundos.
pub const ESPERA_MAXIMA_MS: u64 = 5_000;

/// Cuánto se espera antes de insistir cuando ya se insistió `intentos` veces: el doble
/// cada vez, hasta un máximo.
pub open spec fn espera_spec(intentos: nat) -> nat
    decreases intentos,
{
    if intentos == 0 {
        ESPERA_INICIAL_MS as nat
    } else if 2 * espera_spec((intentos - 1) as nat) > ESPERA_MAXIMA_MS {
        ESPERA_MAXIMA_MS as nat
    } else {
        2 * espera_spec((intentos - 1) as nat)
    }
}

/// Lo que sigue en una consulta, con los textos como secuencias.
#[verifier::ext_equal]
pub enum ConsultaVista {
    Decir { texto: Seq<char> },
    Pedir { destino: Direccion, pregunta: PreguntaVista },
    Reintentar {
        aviso: Seq<char>,
        espera_ms: nat,
        intentos: nat,
        destino: Direccion,
        pregunta: PreguntaVista,
    },
    DiscoveryInesperado { respuesta: MensajeEstacionAUsuarioConsulta },
    ConsultaInesperada { respuesta: MensajeEstacionAUsuarioConsulta },
    SinEstaciones,
    Estaciones { estaciones: Vec<InfoEstacion> },
}

impl Consulta {
    /// Lo que sigue es lo que describe `v`.
    pub open spec fn es(self, v: ConsultaVista) -> bool {
        match v {
            ConsultaVista::Decir { texto } => self is Decir && self->texto@ == texto,
            ConsultaVista::Pedir { destino, pregunta } => {
                &&& self is Pedir
                &&& self->Pedir_destino == destino
                &&& self->Pedir_pedido matches MensajeUsuario::Consulta(c) && c@ == pregunta
            },
            ConsultaVista::Reintentar { aviso, espera_ms, intentos, destino, pregunta } => {
                &&& self is Reintentar
                &&& self->aviso@ == aviso
                &&& self->espera_ms == espera_ms
                &&& self->intentos == intentos
                &&& self->Reintentar_destino == destino
                &&& self->Reintentar_pedido matches MensajeUsuario::Consulta(c) && c@ == pregunta
            },
            ConsultaVista::DiscoveryInesperado { respuesta } => self
                == (Consulta::DiscoveryInesperado { respuesta }),
            ConsultaVista::ConsultaInesperada { respuesta } => self
                == (Consulta::ConsultaInesperada { respuesta }),
            ConsultaVista::SinEstaciones => self is SinEstaciones,
            ConsultaVista::Estaciones { estaciones } => self == (Consulta::Estaciones {
                estaciones,
            }),
        }
    }
}

/// Volver a preguntarle a `estacion` por el líder, cuando ya se insistió `intentos`
/// veces. La cuenta se queda en el mayor número de 32 bits.
pub open spec fn insistir(aviso: Seq<char>, estacion: Direccion, intentos: u32) -> ConsultaVista {
    ConsultaVista::Reintentar {
        aviso,
        espera_ms: espera_spec(intentos as nat),
        intentos: if intentos < u32::MAX {
            (intentos + 1) as nat
        } else {
            u32::MAX as nat
        },
        destino: estacion,
        pregunta: PreguntaVista::PreguntarLider,
    }
}

/// Una respuesta, o el texto del error por el que no llegó.
pub open spec fn vista_de(r: Result<MensajeEstacionAUsuarioConsulta, String>) -> Result<
    MensajeEstacionAUsuarioConsulta,
    Seq<char>,
> {
    match r {
        Ok(m) => Ok(m),
        Err(e) => Err(e@),
    }
}

/// Qué sigue a la respuesta de `estacion` al discovery.
pub open spec fn paso_discovery(
    u: UsuarioVista,
    estacion: Direccion,
    intentos: u32,
    ubicacion: (Real64, Real64),
    radio: Real64,
    respuesta: Result<MensajeEstacionAUsuarioConsulta, Seq<char>>,
) -> ConsultaVista {
    match respuesta {
        Ok(MensajeEstacionAUsuarioConsulta::RespuestaLider { lider_addr, .. }) => {
            ConsultaVista::Pedir {
                destino: lider_addr,
                pregunta: PreguntaVista::ConsultaDisponibilidad {
                    usuario_id: u.id,
                    ubicacion,
                    radio_max_km: radio,
                },
            }
        },
        Ok(MensajeEstacionAUsuarioConsulta::EnEleccion) => insistir(
            "hay una elección de líder en curso, probá de nuevo en unos segundos"@,
            estacion,
            intentos,
        ),
        Ok(MensajeEstacionAUsuarioConsulta::LiderDesconocido) => insistir(
            "esa estación todavía no conoce al líder"@,
            estacion,
            intentos,
        ),
        Ok(otra) => ConsultaVista::DiscoveryInesperado { respuesta: otra },
        Err(e) => ConsultaVista::Decir { texto: "error buscando al líder: "@ + e },
    }
}

/// Qué sigue a la respuesta del líder. Si no respondió, se lo descarta y se vuelve a
/// empezar el discovery con `estacion`.
pub open spec fn paso_disponibilidad(
    estacion: Direccion,
    intentos: u32,
    respuesta: Result<MensajeEstacionAUsuarioConsulta, Seq<char>>,
) -> ConsultaVista {
    match respuesta {
        Ok(MensajeEstacionAUsuarioConsulta::RespuestaDisponibilidad { estaciones }) => {
            if estaciones@.len() == 0 {
                ConsultaVista::SinEstaciones
            } else {
                ConsultaVista::Estaciones { estaciones }
            }
        },
        Ok(otra) => ConsultaVista::ConsultaInesperada { respuesta: otra },
        Err(e) => insistir("error consultando disponibilidad: "@ + e, estacion, intentos),
    }
}

/// La consulta tiene los tres números que le hacen falta.
pub open spec fn numeros_completos(
    lat: Option<Real64>,
    lon: Option<Real64>,
    radio: Option<Real64>,
) -> bool {
    lat is Some && lon is Some && radio is Some
}

/// Qué sigue a un pedido de consulta.
pub open spec fn paso_consultar(
    config: Config,
    lat: Option<Real64>,
    lon: Option<Real64>,
    radio: Option<Real64>,
) -> ConsultaVista {
    if !numeros_completos(lat, lon, radio) {
        ConsultaVista::Decir { texto: "uso: consultar <lat> <lon> <radio_km> (números)"@ }
    } else if config.estaciones@.len() == 0 {
        ConsultaVista::Decir { texto: "no hay estaciones en la config"@ }
    } else {
        ConsultaVista::Pedir {
            destino: Direccion::V4 { ip: LOCAL, puerto: config.estaciones@[0].puerto },
            pregunta: PreguntaVista::PreguntarLider,
        }
    }
}

/// Desde que se llega al máximo, se espera siempre el máximo.
proof fn lemma_espera_maxima(a: nat, b: nat)
    requires
        a <= b,
        espera_spec(a) == ESPERA_MAXIMA_MS,
    ensures
        espera_spec(b) == ESPERA_MAXIMA_MS,
    decreases b,
{
    if a < b {
        lemma_espera_maxima(a, (b - 1) as nat);
    }
}

/// Cuánto esperar antes de insistir cuando ya se insistió `intentos` veces, en
/// milisegundos.
pub fn espera_ms(intentos: u32) -> (ms: u64)
    ensures
        ms == espera_spec(intentos as nat),
{
    let mut ms: u64 = ESPERA_INICIAL_MS;
    let mut i: u32 = 0;
    while i < intentos && ms < ESPERA_MAXIMA_MS
        invariant
            i <= intentos,
            ms == espera_spec(i as nat),
            ms <= ESPERA_MAXIMA_MS,
        decreases intentos - i,
    {
        ms = if 2 * ms > ESPERA_MAXIMA_MS {
            ESPERA_MAXIMA_MS
        } else {
            2 * ms
        };
        i += 1;
    }
    proof {
        if i < intentos {
            lemma_espera_maxima(i as nat, intentos as nat);
        }
    }
    ms
}

/// Vuelve a preguntarle a `estacion` por el líder.
fn reintentar(aviso: String, estacion: Direccion, intentos: u32) -> (c: Consulta)
    ensures
        c.es(insistir(aviso@, estacion, intentos)),
{
    Consulta::Reintentar {
        aviso,
        espera_ms: espera_ms(intentos),
        intentos: if intentos < u32::MAX {
            intentos + 1
        } else {
            u32::MAX
        },
        destino: estacion,
        pedido: MensajeUsuario::Consulta(MensajeUsuarioAEstacionConsulta::PreguntarLider),
    }
}

/// Empieza una consulta: hace discovery del líder preguntándole a la primera estación
/// de la configuración. Los números son los leídos de la línea, o `None` si no lo eran.
pub fn consultar(
    config: &Config,
    lat: Option<Real64>,
    lon: Option<Real64>,
    radio: Option<Real64>,
) -> (c: Consulta)
    ensures
        c.es(paso_consultar(*config, lat, lon, radio)),
{
    if lat.is_none() || lon.is_none() || radio.is_none() {
        return Consulta::Decir {
            texto: "uso: consultar <lat> <lon> <radio_km> (números)".to_string(),
        };
    }
    if config.estaciones.len() == 0 {
        return Consulta::Decir { texto: "no hay estaciones en la config".to_string() };
    }
    Consulta::Pedir {
        destino: Direccion::local(config.estaciones[0].puerto),
        pedido: MensajeUsuario::Consulta(MensajeUsuarioAEstacionConsulta::PreguntarLider),
    }
}

/// Un error, con lo que se estaba haciendo.
fn texto_error(que: &str, error: &String) -> (texto: String)
    ensures
        texto@ == que@ + error@,
{
    let mut texto = que.to_owned();
    texto.append(error.as_str());
    texto
}

/// Sigue una consulta con la respuesta de `estacion` al discovery: si trae al líder, se
/// le manda la consulta de disponibilidad; si hay una elección en curso o todavía no lo
/// conoce, se insiste. Un error va con su texto.
pub fn tras_discovery(
    usuario: &Usuario,
    estacion: Direccion,
    intentos: u32,
    ubicacion: (Real64, Real64),
    radio: Real64,
    respuesta: Result<MensajeEstacionAUsuarioConsulta, String>,
) -> (c: Consulta)
    ensures
        c.es(
            paso_discovery(usuario@, estacion, intentos, ubicacion, radio, vista_de(respuesta)),
        ),
{
    match respuesta {
        Ok(MensajeEstacionAUsuarioConsulta::RespuestaLider { lider_addr, .. }) => Consulta::Pedir {
            destino: lider_addr,
            pedido: MensajeUsuario::Consulta(
                MensajeUsuarioAEstacionConsulta::ConsultaDisponibilidad {
                    usuario_id: usuario.id().clone(),
                    ubicacion,
                    radio_max_km: radio,
                },
            ),
        },
        Ok(MensajeEstacionAUsuarioConsulta::EnEleccion) => reintentar(
            "hay una elección de líder en curso, probá de nuevo en unos segundos".to_string(),
            estacion,
            intentos,
        ),
        Ok(MensajeEstacionAUsuarioConsulta::LiderDesconocido) => reintentar(
            "esa estación todavía no conoce al líder".to_string(),
            estacion,
            intentos,
        ),
        Ok(otra) => Consulta::DiscoveryInesperado { respuesta: otra },
        Err(e) => Consulta::Decir { texto: texto_error("error buscando al líder: ", &e) },
    }
}

/// Termina una consulta con la respuesta del líder o, si no respondió, vuelve a empezar
/// el discovery con `estacion`. Un error va con su texto.
pub fn tras_consulta(
    estacion: Direccion,
    intentos: u32,
    respuesta: Result<MensajeEstacionAUsuarioConsulta, String>,
) -> (c: Consulta)
    ensures
        c.es(paso_disponibilidad(estacion, intentos, vista_de(respuesta))),
{
    match respuesta {
        Ok(MensajeEstacionAUsuarioConsulta::RespuestaDisponibilidad { estaciones }) => {
            if estaciones.len() == 0 {
                Consulta::SinEstaciones
            } else {
                Consulta::Estaciones { estaciones }
            }
        },
        Ok(otra) => Consulta::ConsultaInesperada { respuesta: otra },
        Err(e) => reintentar(
            texto_error("error consultando disponibilidad: ", &e),
            estacion,
            intentos,
        ),
    }
}

// ---------------------------------------------------------------------------
// Leyes
// ---------------------------------------------------------------------------

/// Una bici por usuario: mientras tiene una, ninguna línea manda un pedido de alquiler.
pub proof fn ley_una_bici_por_usuario(u: UsuarioVista, config: Config, ps: Seq<Seq<char>>)
    requires
        u.estado is ConBici,
    ensures
        accion_de(u, config, ps) matches AccionVista::Operar { pedido, .. } ==> pedido
            is Devolucion,
{
}

/// Sin bici, ninguna línea manda una devolución.
pub proof fn ley_sin_bici_no_devuelve(u: UsuarioVista, config: Config, ps: Seq<Seq<char>>)
    requires
        u.estado is SinBici,
    ensures
        accion_de(u, config, ps) matches AccionVista::Operar { pedido, .. } ==> pedido is Alquiler,
{
}

/// Lo que se pide va a nombre del usuario: un alquiler lleva su id y su tarjeta, y una
/// devolución, su id, la bici que tiene y el alquiler por el que la tiene.
pub proof fn ley_los_pedidos_son_propios(u: UsuarioVista, config: Config, ps: Seq<Seq<char>>)
    requires
        accion_de(u, config, ps) is Operar,
    ensures
        match accion_de(u, config, ps)->pedido {
            SolicitudVista::Alquiler { usuario_id, tarjeta, .. } => usuario_id == u.id && tarjeta
                == u.tarjeta,
            SolicitudVista::Devolucion { usuario_id, bici_id, rental_id, .. } => {
                &&& usuario_id == u.id
                &&& u.estado == (EstadoVista::ConBici { bici_id, rental_id })
            },
        },
{
}

/// Lo que se confirmó es lo que se devuelve: tras un alquiler confirmado, una
/// devolución a una estación conocida lleva esa bici y ese alquiler.
pub proof fn ley_se_devuelve_lo_confirmado(
    u: UsuarioVista,
    config: Config,
    confirmado: ContestacionVista,
    est: Seq<char>,
    slot: Seq<char>,
)
    requires
        confirmado is AlquilerConfirmado,
        leer_u32_spec(est) is Some,
        leer_u32_spec(slot) is Some,
        direccion_de(config, leer_u32_spec(est)->0) is Some,
    ensures
        accion_devolver(u.tras(confirmado), config, est, slot) == (AccionVista::Operar {
            destino: direccion_de(config, leer_u32_spec(est)->0)->0,
            pedido: SolicitudVista::Devolucion {
                usuario_id: u.id,
                bici_id: confirmado->AlquilerConfirmado_bici_id,
                rental_id: confirmado->AlquilerConfirmado_rental_id,
                slot_id: leer_u32_spec(slot)->0,
            },
        }),
{
}

/// La espera entre un intento y el siguiente no baja, y nunca pasa del máximo.
pub proof fn ley_espera_creciente(a: nat, b: nat)
    requires
        a <= b,
    ensures
        ESPERA_INICIAL_MS <= espera_spec(a) <= espera_spec(b) <= ESPERA_MAXIMA_MS,
    decreases b,
{
    if a < b {
        ley_espera_creciente(a, (b - 1) as nat);
    } else if a > 0 {
        ley_espera_creciente((a - 1) as nat, (b - 1) as nat);
    }
}

/// Lo que se hace con las respuestas sucesivas al discovery: mientras toca insistir, se
/// pasa a la siguiente.
pub open spec fn buscar_lider(
    u: UsuarioVista,
    estacion: Direccion,
    intentos: u32,
    ubicacion: (Real64, Real64),
    radio: Real64,
    respuestas: Seq<MensajeEstacionAUsuarioConsulta>,
) -> ConsultaVista
    decreases respuestas.len(),
{
    let paso = paso_discovery(u, estacion, intentos, ubicacion, radio, Ok(respuestas[0]));
    match paso {
        ConsultaVista::Reintentar { intentos: n, .. } if respuestas.len() > 1 => buscar_lider(
            u,
            estacion,
            n as u32,
            ubicacion,
            radio,
            respuestas.skip(1),
        ),
        _ => paso,
    }
}

/// Se insiste hasta dar con el líder: si a las primeras `k` preguntas contestan que hay
/// una elección en curso o que no lo conocen, y a la siguiente lo informan, la consulta
/// de disponibilidad se le manda a él.
pub proof fn ley_se_insiste_hasta_el_lider(
    u: UsuarioVista,
    estacion: Direccion,
    intentos: u32,
    ubicacion: (Real64, Real64),
    radio: Real64,
    respuestas: Seq<MensajeEstacionAUsuarioConsulta>,
    k: nat,
)
    requires
        k < respuestas.len(),
        forall|i: int|
            0 <= i < k ==> (#[trigger] respuestas[i] is EnEleccion || respuestas[i]
                is LiderDesconocido),
        respuestas[k as int] is RespuestaLider,
    ensures
        buscar_lider(u, estacion, intentos, ubicacion, radio, respuestas)
            == (ConsultaVista::Pedir {
            destino: respuestas[k as int]->lider_addr,
            pregunta: PreguntaVista::ConsultaDisponibilidad {
                usuario_id: u.id,
                ubicacion,
                radio_max_km: radio,
            },
        }),
    decreases k,
{
    if k > 0 {
        assert(respuestas[0] is EnEleccion || respuestas[0] is LiderDesconocido);
        let demas = respuestas.skip(1);
        assert forall|i: int| 0 <= i < k - 1 implies (#[trigger] demas[i] is EnEleccion || demas[i]
            is LiderDesconocido) by {
            assert(respuestas[i + 1] is EnEleccion || respuestas[i + 1] is LiderDesconocido);
        }
        let paso = paso_discovery(u, estacion, intentos, ubicacion, radio, Ok(respuestas[0]));
        ley_se_insiste_hasta_el_lider(
            u,
            estacion,
            paso->Reintentar_intentos as u32,
            ubicacion,
            radio,
            demas,
            (k - 1) as nat,
        );
    }
}

// --- Lo que hace cada línea ---
/// Qué es una acción: la que manda una operación la manda a ese destino, tal cual; la que
/// dice un texto dice ese; la que consulta lleva los tres números como se escribieron.
pub proof fn ley_que_es_una_accion(a: Accion, v: AccionVista)
    requires
        a.es(v),
    ensures
        a is Nada <==> v is Nada,
        a is MostrarEstado <==> v is MostrarEstado,
        a is Salir <==> v is Salir,
        a matches Accion::Decir { texto } ==> v == (AccionVista::Decir { texto: texto@ }),
        a matches Accion::Consultar { lat, lon, radio } ==> v == (AccionVista::Consultar {
            lat: lat@,
            lon: lon@,
            radio: radio@,
        }),
        a matches Accion::Operar { destino, pedido } ==> {
            &&& pedido matches MensajeUsuario::Operacion(op)
            &&& v == (AccionVista::Operar { destino, pedido: op@ })
        },
{
}

/// Una operación va a la estación que se nombró: si `est` se lee como el número `e`, y la
/// entrada `i` de la configuración es la primera con ese id, el destino es 127.0.0.1 con
/// el puerto de esa entrada, esté en el lugar que esté. Y lleva el slot que se escribió.
pub proof fn ley_alquilar_va_a_la_estacion_nombrada(
    u: UsuarioVista,
    config: Config,
    est: Seq<char>,
    slot: Seq<char>,
    e: u32,
    k: u32,
    i: int,
    a: Accion,
)
    requires
        u.estado is SinBici,
        leer_u32_spec(est) == Some(e),
        leer_u32_spec(slot) == Some(k),
        0 <= i < config.estaciones@.len(),
        config.estaciones@[i].id.0 == e,
        forall|j: int| 0 <= j < i ==> (#[trigger] config.estaciones@[j]).id.0 != e,
        a.es(accion_de(u, config, seq!["alquilar"@, est, slot])),
    ensures
        a matches Accion::Operar {
            destino,
            pedido: MensajeUsuario::Operacion(
                MensajeUsuarioAEstacion::SolicitudAlquiler { usuario_id, slot_id, tarjeta },
            ),
        } && {
            &&& destino == (Direccion::V4 {
                ip: 0x7f00_0001,
                puerto: config.estaciones@[i].puerto,
            })
            &&& slot_id == k
            &&& usuario_id.0@ == u.id
            &&& tarjeta@ == u.tarjeta
        },
{
    lemma_comando(u, config, "alquilar"@, est, slot);
    lemma_destino(config, e, i);
}

/// Una devolución va a la estación que se nombró, con el slot que se escribió, la bici que
/// el usuario tiene y el alquiler por el que la tiene.
pub proof fn ley_devolver_va_a_la_estacion_nombrada(
    u: UsuarioVista,
    config: Config,
    est: Seq<char>,
    slot: Seq<char>,
    e: u32,
    k: u32,
    i: int,
    a: Accion,
)
    requires
        u.estado is ConBici,
        leer_u32_spec(est) == Some(e),
        leer_u32_spec(slot) == Some(k),
        0 <= i < config.estaciones@.len(),
        config.estaciones@[i].id.0 == e,
        forall|j: int| 0 <= j < i ==> (#[trigger] config.estaciones@[j]).id.0 != e,
        a.es(accion_de(u, config, seq!["devolver"@, est, slot])),
    ensures
        a matches Accion::Operar {
            destino,
            pedido: MensajeUsuario::Operacion(
                MensajeUsuarioAEstacion::SolicitudDevolucion {
                    usuario_id,
                    bici_id,
                    rental_id,
                    slot_id,
                },
            ),
        } && {
            &&& destino == (Direccion::V4 {
                ip: 0x7f00_0001,
                puerto: config.estaciones@[i].puerto,
            })
            &&& slot_id == k
            &&& usuario_id.0@ == u.id
            &&& u.estado == (EstadoVista::ConBici { bici_id, rental_id: rental_id.0@ })
        },
{
    lemma_comando(u, config, "devolver"@, est, slot);
    lemma_destino(config, e, i);
}

/// El destino de una operación a la estación `e`.
proof fn lemma_destino(config: Config, e: u32, i: int)
    requires
        0 <= i < config.estaciones@.len(),
        config.estaciones@[i].id.0 == e,
        forall|j: int| 0 <= j < i ==> (#[trigger] config.estaciones@[j]).id.0 != e,
    ensures
        direccion_de(config, e) == Some(
            Direccion::V4 { ip: 0x7f00_0001, puerto: config.estaciones@[i].puerto },
        ),
{
    assert forall|j: int| 0 <= j < i implies (#[trigger] config.estaciones@[j]).id != EstacionId(
        e,
    ) by {
        assert(config.estaciones@[j].id.0 != e);
    }
    ley_buscar_estacion(config.estaciones@, EstacionId(e), i);
}

/// Los nombres de los comandos son distintos.
proof fn lemma_nombres()
    ensures
        "alquilar"@ != "devolver"@,
        "estado"@ != "ayuda"@,
        "estado"@ != "salir"@,
        "estado"@ != "exit"@,
        "ayuda"@ != "salir"@,
        "ayuda"@ != "exit"@,
        "salir"@ != "exit"@,
{
    reveal_strlit("alquilar");
    reveal_strlit("devolver");
    reveal_strlit("estado");
    reveal_strlit("ayuda");
    reveal_strlit("salir");
    reveal_strlit("exit");
    assert("alquilar"@[0] != "devolver"@[0]);
    assert("ayuda"@[0] != "salir"@[0]);
    assert("estado"@.len() != "exit"@.len());
}

/// Los comandos de tres palabras.
proof fn lemma_comando(
    u: UsuarioVista,
    config: Config,
    orden: Seq<char>,
    est: Seq<char>,
    slot: Seq<char>,
)
    ensures
        ({
            let accion = accion_de(u, config, seq![orden, est, slot]);
            &&& orden == "alquilar"@ ==> accion == accion_alquilar(u, config, est, slot)
            &&& orden == "devolver"@ ==> accion == accion_devolver(u, config, est, slot)
        }),
{
    lemma_nombres();
}

/// Todas las líneas que mandan una operación son de esas: tres palabras, la primera
/// `alquilar` o `devolver`, y las otras dos números, el primero el de una estación de la
/// configuración. Con una que no está se dice cuál, y no se manda nada.
pub proof fn ley_solo_esas_lineas_operan(
    u: UsuarioVista,
    config: Config,
    ps: Seq<Seq<char>>,
    a: Accion,
)
    requires
        a.es(accion_de(u, config, ps)),
    ensures
        a is Operar ==> {
            &&& ps.len() == 3
            &&& ps[0] == "alquilar"@ && u.estado is SinBici || ps[0] == "devolver"@ && u.estado
                is ConBici
            &&& leer_u32_spec(ps[1]) matches Some(e)
            &&& leer_u32_spec(ps[2]) is Some
            &&& exists|i: int|
                0 <= i < config.estaciones@.len() && (#[trigger] config.estaciones@[i]).id.0 == e
        },
{
    if a is Operar {
        let e = leer_u32_spec(ps[1])->0;
        ley_primera(config.estaciones@, EstacionId(e), 0);
    }
}

/// Lo que se contesta sin mandar nada: con bici no se alquila otra, sin bici no se devuelve,
/// lo que no son números se explica, y de una estación que no está se dice que no se conoce.
pub proof fn ley_lo_que_no_se_manda(
    u: UsuarioVista,
    config: Config,
    est: Seq<char>,
    slot: Seq<char>,
)
    ensures
        ({
            let a = accion_de(u, config, seq!["alquilar"@, est, slot]);
            let d = accion_de(u, config, seq!["devolver"@, est, slot]);
            let numeros = leer_u32_spec(est) is Some && leer_u32_spec(slot) is Some;
            let e = leer_u32_spec(est)->0;
            let ausente = forall|i: int|
                0 <= i < config.estaciones@.len() ==> (#[trigger] config.estaciones@[i]).id.0 != e;
            let desconocida = AccionVista::Decir { texto: "no conozco la estación "@ + decimal(
                e as nat,
            ) };
            &&& u.estado matches EstadoVista::ConBici { bici_id, .. } ==> a == (AccionVista::Decir {
                texto: "ya tenés la bici BiciId("@ + decimal(bici_id.0 as nat)
                    + "); devolvela antes de alquilar otra"@,
            })
            &&& u.estado is SinBici && !numeros ==> a == (AccionVista::Decir {
                texto: "uso: alquilar <estacion> <slot> (números)"@,
            })
            &&& u.estado is SinBici && numeros && ausente ==> a == desconocida
            &&& !numeros ==> d == (AccionVista::Decir {
                texto: "uso: devolver <estacion> <slot> (números)"@,
            })
            &&& u.estado is SinBici && numeros ==> d == (AccionVista::Decir {
                texto: "no tenés ninguna bici para devolver"@,
            })
            &&& u.estado is ConBici && numeros && ausente ==> d == desconocida
        }),
{
    lemma_comando(u, config, "alquilar"@, est, slot);
    lemma_comando(u, config, "devolver"@, est, slot);
    let e = leer_u32_spec(est)->0;
    ley_primera(config.estaciones@, EstacionId(e), 0);
}

/// Los demás comandos, y lo que no es ninguno.
pub proof fn ley_los_demas_comandos(
    u: UsuarioVista,
    config: Config,
    lat: Seq<char>,
    lon: Seq<char>,
    radio: Seq<char>,
    ps: Seq<Seq<char>>,
)
    ensures
        accion_de(u, config, seq!["consultar"@, lat, lon, radio]) == (AccionVista::Consultar {
            lat,
            lon,
            radio,
        }),
        accion_de(u, config, seq!["estado"@]) == AccionVista::MostrarEstado,
        accion_de(u, config, seq!["ayuda"@]) == (AccionVista::Decir { texto: texto_ayuda() }),
        accion_de(u, config, seq!["salir"@]) == AccionVista::Salir,
        accion_de(u, config, seq!["exit"@]) == AccionVista::Salir,
        accion_de(u, config, Seq::<Seq<char>>::empty()) == AccionVista::Nada,
        ({
            let conocido = {
                ||| ps.len() == 3 && (ps[0] == "alquilar"@ || ps[0] == "devolver"@)
                ||| ps.len() == 4 && ps[0] == "consultar"@
                ||| ps.len() == 1 && (ps[0] == "estado"@ || ps[0] == "ayuda"@ || ps[0] == "salir"@
                    || ps[0] == "exit"@)
            };
            ps.len() > 0 && !conocido ==> accion_de(u, config, ps) == (AccionVista::Decir {
                texto: "comando desconocido (probá 'ayuda')"@,
            })
        }),
{
    lemma_nombres();
}

/// De una línea se leen sus palabras: las de un comando separadas por espacios son esas.
pub proof fn ley_palabras_de_la_linea(orden: Seq<char>, est: Seq<char>, slot: Seq<char>)
    requires
        orden.len() > 0,
        est.len() > 0,
        slot.len() > 0,
        forall|i: int| 0 <= i < orden.len() ==> !es_blanco(#[trigger] orden[i]),
        forall|i: int| 0 <= i < est.len() ==> !es_blanco(#[trigger] est[i]),
        forall|i: int| 0 <= i < slot.len() ==> !es_blanco(#[trigger] slot[i]),
    ensures
        palabras(orden + seq![' '] + (est + seq![' '] + slot)) == seq![orden, est, slot],
{
    ley_un_blanco_separa(orden, ' ', est + seq![' '] + slot);
    ley_un_blanco_separa(est, ' ', slot);
    ley_una_palabra(orden);
    ley_una_palabra(est);
    ley_una_palabra(slot);
    assert(seq![orden] + (seq![est] + seq![slot]) =~= seq![orden, est, slot]);
}

/// La línea entera: `alquilar <e> <k>`, con los números escritos en base diez, le pide a la
/// estación `e` el slot `k`.
pub proof fn ley_la_linea_alquilar(
    u: UsuarioVista,
    config: Config,
    linea: Seq<char>,
    e: u32,
    k: u32,
    i: int,
    a: Accion,
)
    requires
        u.estado is SinBici,
        linea == "alquilar"@ + seq![' '] + (decimal(e as nat) + seq![' '] + decimal(k as nat)),
        0 <= i < config.estaciones@.len(),
        config.estaciones@[i].id.0 == e,
        forall|j: int| 0 <= j < i ==> (#[trigger] config.estaciones@[j]).id.0 != e,
        a.es(accion_de(u, config, palabras(linea))),
    ensures
        a matches Accion::Operar {
            destino,
            pedido: MensajeUsuario::Operacion(
                MensajeUsuarioAEstacion::SolicitudAlquiler { slot_id, .. },
            ),
        } && destino == (Direccion::V4 { ip: 0x7f00_0001, puerto: config.estaciones@[i].puerto })
            && slot_id == k,
{
    let (est, slot) = (decimal(e as nat), decimal(k as nat));
    reveal_strlit("alquilar");
    lemma_decimal(e as nat);
    lemma_decimal(k as nat);
    assert forall|j: int| 0 <= j < est.len() implies !es_blanco(#[trigger] est[j]) by {
        assert(es_cifra(est[j]));
    }
    assert forall|j: int| 0 <= j < slot.len() implies !es_blanco(#[trigger] slot[j]) by {
        assert(es_cifra(slot[j]));
    }
    ley_palabras_de_la_linea("alquilar"@, est, slot);
    ley_leer_lo_escrito(e);
    ley_leer_lo_escrito(k);
    ley_alquilar_va_a_la_estacion_nombrada(u, config, est, slot, e, k, i, a);
}

// --- Lo que hace cada paso de una consulta ---
/// La espera empieza en doscientos milisegundos, se duplica cada vez y no pasa de cinco mil.
pub proof fn ley_cuanto_se_espera(n: nat)
    ensures
        espera_spec(0) == 200,
        2 * espera_spec(n) <= 5000 ==> espera_spec(n + 1) == 2 * espera_spec(n),
        2 * espera_spec(n) > 5000 ==> espera_spec(n + 1) == 5000,
{
}

/// Qué es lo que sigue en una consulta: pedir es pedir eso en ese destino; reintentar es
/// además avisar, esperar y contar eso.
pub proof fn ley_que_es_lo_que_sigue(c: Consulta, v: ConsultaVista)
    requires
        c.es(v),
    ensures
        c matches Consulta::Decir { texto } ==> v == (ConsultaVista::Decir { texto: texto@ }),
        c matches Consulta::Pedir { destino, pedido } ==> {
            &&& pedido matches MensajeUsuario::Consulta(p)
            &&& v == (ConsultaVista::Pedir { destino, pregunta: p@ })
        },
        c matches Consulta::Reintentar { aviso, espera_ms, intentos, destino, pedido } ==> {
            &&& pedido matches MensajeUsuario::Consulta(p)
            &&& v == (ConsultaVista::Reintentar {
                aviso: aviso@,
                espera_ms: espera_ms as nat,
                intentos: intentos as nat,
                destino,
                pregunta: p@,
            })
        },
        c matches Consulta::DiscoveryInesperado { respuesta } ==> v
            == (ConsultaVista::DiscoveryInesperado { respuesta }),
        c matches Consulta::ConsultaInesperada { respuesta } ==> v
            == (ConsultaVista::ConsultaInesperada { respuesta }),
        c is SinEstaciones <==> v is SinEstaciones,
        c matches Consulta::Estaciones { estaciones } ==> v == (ConsultaVista::Estaciones {
            estaciones,
        }),
{
}

/// Una consulta empieza preguntándole por el líder a la primera estación de la
/// configuración; sin los tres números o sin estaciones, no empieza.
pub proof fn ley_como_empieza_una_consulta(
    config: Config,
    lat: Option<Real64>,
    lon: Option<Real64>,
    radio: Option<Real64>,
)
    ensures
        ({
            let paso = paso_consultar(config, lat, lon, radio);
            let numeros = lat is Some && lon is Some && radio is Some;
            &&& !numeros ==> paso == (ConsultaVista::Decir {
                texto: "uso: consultar <lat> <lon> <radio_km> (números)"@,
            })
            &&& numeros && config.estaciones@.len() == 0 ==> paso == (ConsultaVista::Decir {
                texto: "no hay estaciones en la config"@,
            })
            &&& numeros && config.estaciones@.len() > 0 ==> paso == (ConsultaVista::Pedir {
                destino: Direccion::V4 {
                    ip: 0x7f00_0001,
                    puerto: config.estaciones@[0].puerto,
                },
                pregunta: PreguntaVista::PreguntarLider,
            })
        }),
{
}

/// Lo que sigue a cada respuesta al discovery. Si informa al líder, se le pide a él la
/// disponibilidad, con el usuario, el punto y el radio de la consulta. Si todavía no hay,
/// se espera y se vuelve a preguntar lo mismo a la misma estación, con un intento más. Un
/// error o una respuesta que no es de discovery terminan la consulta.
pub proof fn ley_tras_el_discovery(
    u: UsuarioVista,
    estacion: Direccion,
    intentos: u32,
    ubicacion: (Real64, Real64),
    radio: Real64,
    respuesta: Result<MensajeEstacionAUsuarioConsulta, Seq<char>>,
)
    ensures
        ({
            let paso = paso_discovery(u, estacion, intentos, ubicacion, radio, respuesta);
            match respuesta {
                Ok(MensajeEstacionAUsuarioConsulta::RespuestaLider { lider_addr, .. }) => paso
                    == (ConsultaVista::Pedir {
                    destino: lider_addr,
                    pregunta: PreguntaVista::ConsultaDisponibilidad {
                        usuario_id: u.id,
                        ubicacion,
                        radio_max_km: radio,
                    },
                }),
                Ok(MensajeEstacionAUsuarioConsulta::EnEleccion) => {
                    &&& paso matches ConsultaVista::Reintentar {
                        aviso,
                        espera_ms,
                        intentos: n,
                        destino,
                        pregunta,
                    }
                    &&& aviso
                        == "hay una elección de líder en curso, probá de nuevo en unos segundos"@
                    &&& espera_ms == espera_spec(intentos as nat)
                    &&& intentos < u32::MAX ==> n == intentos + 1
                    &&& intentos == u32::MAX ==> n == u32::MAX
                    &&& destino == estacion
                    &&& pregunta is PreguntarLider
                },
                Ok(MensajeEstacionAUsuarioConsulta::LiderDesconocido) => {
                    &&& paso matches ConsultaVista::Reintentar {
                        aviso,
                        espera_ms,
                        intentos: n,
                        destino,
                        pregunta,
                    }
                    &&& aviso == "esa estación todavía no conoce al líder"@
                    &&& espera_ms == espera_spec(intentos as nat)
                    &&& intentos < u32::MAX ==> n == intentos + 1
                    &&& intentos == u32::MAX ==> n == u32::MAX
                    &&& destino == estacion
                    &&& pregunta is PreguntarLider
                },
                Ok(MensajeEstacionAUsuarioConsulta::RespuestaDisponibilidad { .. }) => paso
                    == (ConsultaVista::DiscoveryInesperado { respuesta: respuesta->Ok_0 }),
                Err(e) => paso == (ConsultaVista::Decir {
                    texto: "error buscando al líder: "@ + e,
                }),
            }
        }),
{
}

/// Lo que sigue a cada respuesta del líder: las estaciones que informa se muestran tal cual;
/// si no respondió, se vuelve a buscarlo con la misma estación; otra respuesta termina.
pub proof fn ley_tras_la_consulta(
    estacion: Direccion,
    intentos: u32,
    respuesta: Result<MensajeEstacionAUsuarioConsulta, Seq<char>>,
)
    ensures
        ({
            let paso = paso_disponibilidad(estacion, intentos, respuesta);
            match respuesta {
                Ok(MensajeEstacionAUsuarioConsulta::RespuestaDisponibilidad { estaciones }) => {
                    &&& estaciones@.len() == 0 ==> paso is SinEstaciones
                    &&& estaciones@.len() > 0 ==> paso == (ConsultaVista::Estaciones { estaciones })
                },
                Ok(otra) => paso == (ConsultaVista::ConsultaInesperada { respuesta: otra }),
                Err(e) => {
                    &&& paso matches ConsultaVista::Reintentar {
                        aviso,
                        espera_ms,
                        intentos: n,
                        destino,
                        pregunta,
                    }
                    &&& aviso == "error consultando disponibilidad: "@ + e
                    &&& espera_ms == espera_spec(intentos as nat)
                    &&& intentos < u32::MAX ==> n == intentos + 1
                    &&& intentos == u32::MAX ==> n == u32::MAX
                    &&& destino == estacion
                    &&& pregunta is PreguntarLider
                },
            }
        }),
{
}

/// Una respuesta que llegó es la que llegó, y un error, su texto.
pub proof fn ley_que_llego(r: Result<MensajeEstacionAUsuarioConsulta, String>)
    ensures
        r matches Ok(m) ==> vista_de(r) == Ok::<MensajeEstacionAUsuarioConsulta, Seq<char>>(m),
        r matches Err(e) ==> vista_de(r) == Err::<MensajeEstacionAUsuarioConsulta, Seq<char>>(e@),
{
}

} // verus!
