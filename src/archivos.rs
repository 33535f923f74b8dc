//! Puntos de acceso de los archivos estáticos del sitio.

use vstd::prelude::*;

use crate::ruta::{ruta, vista_rutas, Metodo, Ruta, RutaVista};

verus! {

/// La raíz, `index.htm` y cualquier otro archivo; los tres sirven
/// `index.html` cuando el archivo pedido no existe.
pub fn rutas() -> (r: Vec<Ruta>)
    ensures
        vista_rutas(r@) == seq![
            RutaVista { metodo: Metodo::Get, camino: "/"@, rango: Some(2u8) },
            RutaVista { metodo: Metodo::Get, camino: "/index.htm"@, rango: Some(2u8) },
            RutaVista { metodo: Metodo::Get, camino: "/<archivo..>"@, rango: Some(3u8) },
        ],
{
    let mut r: Vec<Ruta> = Vec::new();
    r.push(ruta(Metodo::Get, "/", Some(2)));
    r.push(ruta(Metodo::Get, "/index.htm", Some(2)));
    r.push(ruta(Metodo::Get, "/<archivo..>", Some(3)));
    assert(vista_rutas(r@) =~= seq![
        RutaVista { metodo: Metodo::Get, camino: "/"@, rango: Some(2u8) },
        RutaVista { metodo: Metodo::Get, camino: "/index.htm"@, rango: Some(2u8) },
        RutaVista { metodo: Metodo::Get, camino: "/<archivo..>"@, rango: Some(3u8) },
    ]);
    r
}

} // verus!
