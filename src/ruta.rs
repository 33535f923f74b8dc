//! Descripción de los puntos de acceso que la capa web expone.

use vstd::prelude::*;
use vstd::string::StringExecFns;

verus! {

/// Método HTTP de un punto de acceso.
#[derive(Clone, Copy, Debug, PartialEq, Eq, Structural)]
pub enum Metodo {
    Get,
    Post,
    Patch,
    Delete,
}

/// Un punto de acceso: método, camino (con `<id>` o `<archivo..>` para los
/// segmentos variables) y, si lo tiene, su rango explícito (menor, antes).
pub struct Ruta {
    pub metodo: Metodo,
    pub camino: String,
    pub rango: Option<u8>,
}

/// Vista matemática de un punto de acceso.
pub struct RutaVista {
    pub metodo: Metodo,
    pub camino: Seq<char>,
    pub rango: Option<u8>,
}

impl View for Ruta {
    type V = RutaVista;

    open spec fn view(&self) -> RutaVista {
        RutaVista { metodo: self.metodo, camino: self.camino@, rango: self.rango }
    }
}

/// Las vistas de una lista de puntos de acceso.
pub open spec fn vista_rutas(v: Seq<Ruta>) -> Seq<RutaVista> {
    Seq::new(v.len(), |i: int| v[i]@)
}

/// Construye un punto de acceso.
pub fn ruta(metodo: Metodo, camino: &str, rango: Option<u8>) -> (r: Ruta)
    ensures
        r@ == (RutaVista { metodo, camino: camino@, rango }),
{
    Ruta { metodo, camino: String::from_str(camino), rango }
}

} // verus!
