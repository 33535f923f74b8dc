//! Tabla de sesiones: asocia símbolos opacos a un usuario y una caducidad.
//! Se guarda sólo en memoria y se pierde al reiniciar el proceso.

use vstd::prelude::*;
use vstd::hash_map::StringHashMap;
use vstd::string::StringExecFns;

use crypto::digest::Digest;
use crypto::sha3::Sha3;
use rand::thread_rng;
use rand::Rng;

use crate::fallo::Fallo;
use crate::id::Id;
use crate::usuarios::{acredita, Usuario, Usuarios};

use crate::ruta::{ruta, vista_rutas, Metodo, Ruta, RutaVista};

verus! {

/// Resumen SHA3-512, en hexadecimal, de los bytes UTF-8 de un texto.
pub uninterp spec fn sha3_512_hex(texto: Seq<char>) -> Seq<char>;

/// Codificación base64 (alfabeto estándar, con relleno) de unos bytes.
pub uninterp spec fn base64_de(bytes: Seq<u8>) -> Seq<char>;

/// Se apoya en `Sha3::sha3_512`, `Digest::input_str` y `Digest::result_str`
/// de rust-crypto: el resumen de los bytes del texto, 64 bytes escritos como
/// 128 dígitos hexadecimales.
#[verifier::external_body]
fn resumen_sha3_512(texto: &str) -> (r: String)
    ensures
        r@ == sha3_512_hex(texto@),
        r@.len() == 128,
{
    let mut olla = Sha3::sha3_512();
    olla.input_str(texto);
    olla.result_str()
}

/// Se apoya en `thread_rng` y `Rng::fill` de rand: `n` bytes sacados del
/// generador del hilo. Para `ThreadRng`, `try_fill` sobre bytes siempre
/// devuelve `Ok` (si falla la fuente del sistema, rand aborta antes), así
/// que `fill` siempre llena el búfer entero.
#[verifier::external_body]
fn bytes_aleatorios(n: usize) -> (r: Vec<u8>)
    ensures
        r@.len() == n,
{
    let mut b = vec![0u8; n];
    thread_rng().fill(&mut b[..]);
    b
}

/// Se apoya en `base64::encode`: la codificación base64 estándar, con
/// relleno, de cuatro caracteres por cada grupo de hasta tres bytes. Para
/// entradas tan largas que ese tamaño no cabe en `usize`, `encode` aborta.
#[verifier::external_body]
fn codifica_base64(bytes: &Vec<u8>) -> (r: String)
    requires
        bytes@.len() <= usize::MAX / 2,
    ensures
        r@ == base64_de(bytes@),
        r@.len() == 4 * ((bytes@.len() + 2) / 3),
{
    base64::encode(bytes)
}

/// Resumen de una contraseña: lo único que se guarda de ella.
pub fn ofusca_clave(clave: &String) -> (r: String)
    ensures
        r@ == sha3_512_hex(clave@),
        r@.len() == 128,
{
    resumen_sha3_512(clave.as_str())
}

/// Bytes aleatorios de los que sale cada símbolo de sesión.
pub const BYTES_SIMBOLO: usize = 64;

/// Segundos que dura una sesión desde que se abre.
pub const DURACION_SESION: u64 = 3600;

/// Un símbolo de sesión nuevo: 64 bytes aleatorios en base64, 88
/// caracteres.
pub fn crea_simbolo_sesion() -> (r: String)
    ensures
        exists|b: Seq<u8>| b.len() == BYTES_SIMBOLO && r@ == base64_de(b),
        r@.len() == 88,
{
    let b = bytes_aleatorios(BYTES_SIMBOLO);
    let t = codifica_base64(&b);
    assert(b@.len() == BYTES_SIMBOLO && t@ == base64_de(b@));
    t
}

/// Una sesión abierta: el usuario y el instante (en segundos) en que caduca.
#[derive(Clone, Copy, Debug, PartialEq, Eq, Structural)]
pub struct Sesion {
    pub usuario: Id,
    pub caducidad: u64,
}

/// La sesión de `usuario` abierta en el instante `ahora`.
pub fn crea_sesion(usuario: &Usuario, ahora: u64) -> (r: Sesion)
    requires
        ahora <= u64::MAX - DURACION_SESION,
    ensures
        r == (Sesion { usuario: usuario.id, caducidad: (ahora + DURACION_SESION) as u64 }),
{
    Sesion { usuario: usuario.id, caducidad: ahora + DURACION_SESION }
}

/// Resultado de consultar el símbolo `simbolo` en el instante `ahora`: la
/// sesión si existe y aún no ha caducado.
pub open spec fn consulta_spec(m: Map<Seq<char>, Sesion>, simbolo: Seq<char>, ahora: u64) -> Result<
    Sesion,
    Fallo,
> {
    if m.contains_key(simbolo) && ahora < m[simbolo].caducidad {
        Ok(m[simbolo])
    } else {
        Err(Fallo::NoAutorizado)
    }
}

/// Una sesión recién abierta se encuentra al consultarla en ese mismo
/// instante; un símbolo desconocido, caducado o cerrado no da acceso.
pub proof fn lemma_sesiones(m: Map<Seq<char>, Sesion>, simbolo: Seq<char>, usuario: Id, ahora: u64)
    requires
        ahora <= u64::MAX - DURACION_SESION,
    ensures
        consulta_spec(
            m.insert(simbolo, Sesion { usuario, caducidad: (ahora + DURACION_SESION) as u64 }),
            simbolo,
            ahora,
        ) == Ok::<Sesion, Fallo>(Sesion { usuario, caducidad: (ahora + DURACION_SESION) as u64 }),
        !m.contains_key(simbolo) ==> consulta_spec(m, simbolo, ahora) == Err::<Sesion, Fallo>(
            Fallo::NoAutorizado,
        ),
        m.contains_key(simbolo) && m[simbolo].caducidad <= ahora ==> consulta_spec(m, simbolo, ahora)
            == Err::<Sesion, Fallo>(Fallo::NoAutorizado),
        consulta_spec(m.remove(simbolo), simbolo, ahora) == Err::<Sesion, Fallo>(Fallo::NoAutorizado),
{
}

/// Las sesiones abiertas, por símbolo.
pub struct SesionesActivas {
    mapa: StringHashMap<Sesion>,
}

impl View for SesionesActivas {
    type V = Map<Seq<char>, Sesion>;

    closed spec fn view(&self) -> Map<Seq<char>, Sesion> {
        self.mapa@
    }
}

/// La tabla de sesiones vacía con la que arranca el proceso.
pub fn prepara_estado_inicial() -> (r: SesionesActivas)
    ensures
        r@ == Map::<Seq<char>, Sesion>::empty(),
{
    SesionesActivas { mapa: StringHashMap::new() }
}

impl SesionesActivas {
    /// Guarda la sesión bajo el símbolo dado (sustituye la que hubiera).
    pub fn registra(&mut self, simbolo: String, sesion: Sesion)
        ensures
            final(self)@ == old(self)@.insert(simbolo@, sesion),
    {
        self.mapa.insert(simbolo, sesion);
    }

    /// La sesión del símbolo si existe y no ha caducado en `ahora`; si no,
    /// `NoAutorizado`.
    pub fn consulta(&self, simbolo: &str, ahora: u64) -> (r: Result<Sesion, Fallo>)
        ensures
            r == consulta_spec(self@, simbolo@, ahora),
    {
        match self.mapa.get(simbolo) {
            Some(s) => {
                if ahora < s.caducidad {
                    Ok(*s)
                } else {
                    Err(Fallo::NoAutorizado)
                }
            },
            None => Err(Fallo::NoAutorizado),
        }
    }

    /// Si el símbolo corresponde a alguna sesión guardada, caducada o no.
    pub fn en_uso(&self, simbolo: &str) -> (r: bool)
        ensures
            r == self@.contains_key(simbolo@),
    {
        self.mapa.contains_key(simbolo)
    }

    /// Cierra la sesión del símbolo, si existe; cerrarla de nuevo no cambia nada.
    pub fn cierra_sesion(&mut self, simbolo: &str)
        ensures
            final(self)@ == old(self)@.remove(simbolo@),
    {
        self.mapa.remove(simbolo);
    }
}

/// Abre una sesión de `usuario` bajo el símbolo dado.
pub fn abre_sesion(sesiones: &mut SesionesActivas, usuario: &Usuario, simbolo: String, ahora: u64)
    requires
        ahora <= u64::MAX - DURACION_SESION,
    ensures
        final(sesiones)@ == old(sesiones)@.insert(
            simbolo@,
            Sesion { usuario: usuario.id, caducidad: (ahora + DURACION_SESION) as u64 },
        ),
{
    let sesion = crea_sesion(usuario, ahora);
    sesiones.registra(simbolo, sesion);
}

/// Inicio de sesión: si el nombre y la contraseña dan acceso a un usuario,
/// abre una sesión suya bajo un símbolo aleatorio que no estaba en uso y lo
/// devuelve. Falla con `NoAutorizado` si no dan acceso. Un símbolo nunca se
/// reutiliza: si el sorteado ya estaba en uso, falla con `Interno`. En
/// ambos casos la tabla no cambia.
pub fn gestiona_acceso(
    sesiones: &mut SesionesActivas,
    usuarios: &Usuarios,
    nombre: &String,
    clave: &String,
    ahora: u64,
) -> (r: Result<String, Fallo>)
    requires
        usuarios.wf(),
        ahora <= u64::MAX - DURACION_SESION,
    ensures
        match acredita(usuarios@, nombre@, sha3_512_hex(clave@)) {
            None => r == Err::<String, Fallo>(Fallo::NoAutorizado) && final(sesiones)@ == old(sesiones)@,
            Some(id) => match r {
                Ok(t) => !old(sesiones)@.contains_key(t@) && final(sesiones)@ == old(sesiones)@.insert(
                    t@,
                    Sesion { usuario: id, caducidad: (ahora + DURACION_SESION) as u64 },
                ) && exists|b: Seq<u8>| b.len() == BYTES_SIMBOLO && t@ == base64_de(b),
                Err(e) => e == Fallo::Interno && final(sesiones)@ == old(sesiones)@
                    && exists|b: Seq<u8>|
                    b.len() == BYTES_SIMBOLO && old(sesiones)@.contains_key(#[trigger] base64_de(b)),
            },
        },
{
    let resumen = ofusca_clave(clave);
    let usuario = match usuarios.autentica(nombre, &resumen) {
        Some(u) => u,
        None => return Err(Fallo::NoAutorizado),
    };
    let simbolo = crea_simbolo_sesion();
    if sesiones.en_uso(simbolo.as_str()) {
        return Err(Fallo::Interno);
    }
    let devuelto = simbolo.clone();
    abre_sesion(sesiones, &usuario, simbolo, ahora);
    Ok(devuelto)
}

/// Recurso de prueba que sólo ve un usuario autenticado.
pub fn secreto_accesible(_usuario: &Usuario) -> (r: String)
    ensures
        r@ == "Secreto muy valioso."@,
{
    String::from_str("Secreto muy valioso.")
}

/// Respuesta al mismo recurso sin sesión válida.
pub fn secreto_no_accesible() -> (r: Fallo)
    ensures
        r == Fallo::NoAutorizado,
{
    Fallo::NoAutorizado
}

/// Puntos de acceso de la sesión: el recurso de prueba (con y sin sesión), el inicio y el cierre.
pub fn rutas() -> (r: Vec<Ruta>)
    ensures
        vista_rutas(r@) == seq![
            RutaVista { metodo: Metodo::Get, camino: "/sesión"@, rango: None },
            RutaVista { metodo: Metodo::Get, camino: "/sesión"@, rango: Some(2u8) },
            RutaVista { metodo: Metodo::Post, camino: "/sesión"@, rango: None },
            RutaVista { metodo: Metodo::Delete, camino: "/sesión"@, rango: None },
        ],
{
    let mut r: Vec<Ruta> = Vec::new();
    r.push(ruta(Metodo::Get, "/sesión", None));
    r.push(ruta(Metodo::Get, "/sesión", Some(2)));
    r.push(ruta(Metodo::Post, "/sesión", None));
    r.push(ruta(Metodo::Delete, "/sesión", None));
    assert(vista_rutas(r@) =~= seq![
            RutaVista { metodo: Metodo::Get, camino: "/sesión"@, rango: None },
        RutaVista { metodo: Metodo::Get, camino: "/sesión"@, rango: Some(2u8) },
        RutaVista { metodo: Metodo::Post, camino: "/sesión"@, rango: None },
        RutaVista { metodo: Metodo::Delete, camino: "/sesión"@, rango: None },
    ]);
    r
}

} // verus!
