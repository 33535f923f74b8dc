use gestor_documentos::fallo::{error_401, error_403, error_404, error_500};
use gestor_documentos::{archivos, documentos, sesion, usuarios};
use gestor_documentos::{Fallo, Metodo, Ruta};

fn plano(r: &[Ruta]) -> Vec<(Metodo, String, Option<u8>)> {
    r.iter().map(|x| (x.metodo, x.camino.clone(), x.rango)).collect()
}

#[test]
fn rutas_de_archivos() {
    assert_eq!(
        plano(&archivos::rutas()),
        vec![
            (Metodo::Get, "/".to_string(), Some(2)),
            (Metodo::Get, "/index.htm".to_string(), Some(2)),
            (Metodo::Get, "/<archivo..>".to_string(), Some(3)),
        ]
    );
}

#[test]
fn rutas_de_documentos() {
    assert_eq!(
        plano(&documentos::rutas()),
        vec![
            (Metodo::Get, "/documentos".to_string(), None),
            (Metodo::Post, "/documento".to_string(), None),
            (Metodo::Get, "/documento/<id>".to_string(), None),
            (Metodo::Patch, "/documento/<id>".to_string(), None),
            (Metodo::Delete, "/documento/<id>".to_string(), None),
        ]
    );
}

#[test]
fn rutas_de_usuarios() {
    let r = plano(&usuarios::rutas());
    assert_eq!(r.len(), 5);
    assert_eq!(r[0], (Metodo::Get, "/usuarios".to_string(), None));
    assert_eq!(r[4], (Metodo::Delete, "/usuario/<id>".to_string(), None));
}

#[test]
fn rutas_de_sesion() {
    assert_eq!(
        plano(&sesion::rutas()),
        vec![
            (Metodo::Get, "/sesión".to_string(), None),
            (Metodo::Get, "/sesión".to_string(), Some(2)),
            (Metodo::Post, "/sesión".to_string(), None),
            (Metodo::Delete, "/sesión".to_string(), None),
        ]
    );
}

#[test]
fn respuestas_de_error() {
    let r = error_401();
    assert_eq!((r.estado.as_str(), r.codigo), ("error", 401));
    assert_eq!(r.mensaje, "No tienes permiso para acceder a este recurso.");
    assert_eq!(error_403().mensaje, "Acción prohibida.");
    assert_eq!(error_404().mensaje, "Recurso no encontrado.");
    assert_eq!(error_500().codigo, 500);
    assert_eq!(error_500().mensaje, "Error interno.");
    assert_eq!(Fallo::Prohibido.respuesta().codigo, 403);
    assert_eq!(Fallo::NoEncontrado.codigo(), 404);
    assert_eq!(Fallo::NoAutorizado.respuesta().mensaje, error_401().mensaje);
    assert_eq!(Fallo::Interno.codigo(), 500);
}
