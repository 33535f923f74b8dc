//! Clases de fallo que las operaciones del almacén devuelven.

use vstd::prelude::*;
use vstd::string::StringExecFns;

verus! {

/// Motivo por el que una operación no se llevó a cabo.
#[derive(Clone, Copy, Debug, PartialEq, Eq, Structural)]
pub enum Fallo {
    /// El identificador citado no existe.
    NoEncontrado,
    /// La operación está prohibida por la estructura o por falta de un rol.
    Prohibido,
    /// Sesión ausente, caducada o inválida, o credenciales incorrectas.
    NoAutorizado,
    /// Fallo interno, por ejemplo del generador de números aleatorios.
    Interno,
}

impl Fallo {
    /// Código de estado HTTP que corresponde a cada fallo.
    pub open spec fn codigo_spec(self) -> u16 {
        match self {
            Fallo::NoEncontrado => 404,
            Fallo::Prohibido => 403,
            Fallo::NoAutorizado => 401,
            Fallo::Interno => 500,
        }
    }

    /// Código de estado HTTP del fallo.
    pub fn codigo(&self) -> (r: u16)
        ensures
            r == self.codigo_spec(),
    {
        match self {
            Fallo::NoEncontrado => 404,
            Fallo::Prohibido => 403,
            Fallo::NoAutorizado => 401,
            Fallo::Interno => 500,
        }
    }
}

/// Cuerpo de la respuesta de error que recibe el cliente.
pub struct RespuestaError {
    pub estado: String,
    pub codigo: u16,
    pub mensaje: String,
}

/// Mensaje de la respuesta de error de cada código.
pub open spec fn mensaje_de(codigo: u16) -> Seq<char> {
    if codigo == 401 {
        "No tienes permiso para acceder a este recurso."@
    } else if codigo == 403 {
        "Acción prohibida."@
    } else if codigo == 404 {
        "Recurso no encontrado."@
    } else {
        "Error interno."@
    }
}

/// La respuesta de error de un código, con el estado `"error"`.
fn respuesta_error(codigo: u16, mensaje: &str) -> (r: RespuestaError)
    ensures
        r.estado@ == "error"@,
        r.codigo == codigo,
        r.mensaje@ == mensaje@,
{
    RespuestaError { estado: String::from_str("error"), codigo, mensaje: String::from_str(mensaje) }
}

/// Respuesta a una petición sin sesión válida.
pub fn error_401() -> (r: RespuestaError)
    ensures
        r.estado@ == "error"@,
        r.codigo == 401,
        r.mensaje@ == mensaje_de(401),
{
    respuesta_error(401, "No tienes permiso para acceder a este recurso.")
}

/// Respuesta a una acción prohibida.
pub fn error_403() -> (r: RespuestaError)
    ensures
        r.estado@ == "error"@,
        r.codigo == 403,
        r.mensaje@ == mensaje_de(403),
{
    respuesta_error(403, "Acción prohibida.")
}

/// Respuesta a un recurso que no existe.
pub fn error_404() -> (r: RespuestaError)
    ensures
        r.estado@ == "error"@,
        r.codigo == 404,
        r.mensaje@ == mensaje_de(404),
{
    respuesta_error(404, "Recurso no encontrado.")
}

/// Respuesta a un fallo interno.
pub fn error_500() -> (r: RespuestaError)
    ensures
        r.estado@ == "error"@,
        r.codigo == 500,
        r.mensaje@ == mensaje_de(500),
{
    respuesta_error(500, "Error interno.")
}

impl Fallo {
    /// La respuesta de error que corresponde al fallo.
    pub fn respuesta(&self) -> (r: RespuestaError)
        ensures
            r.estado@ == "error"@,
            r.codigo == self.codigo_spec(),
            r.mensaje@ == mensaje_de(self.codigo_spec()),
    {
        match self {
            Fallo::NoAutorizado => error_401(),
            Fallo::Prohibido => error_403(),
            Fallo::NoEncontrado => error_404(),
            Fallo::Interno => error_500(),
        }
    }
}

} // verus!
