use gestor_documentos::documentos::{self, Documento, Documentos};
use gestor_documentos::sesion::{self, SesionesActivas};
use gestor_documentos::usuarios::{self, ConfigAdmin, Usuarios};
use gestor_documentos::{Editor, Fallo};

const AHORA: u64 = 1_700_000_000;

fn directorio() -> Usuarios {
    let config = ConfigAdmin { admin: "Administrador".to_string(), clave: "1234".to_string() };
    usuarios::prepara_estado_inicial(&config, None)
}

fn editor() -> Editor {
    let usuarios = directorio();
    let mut sesiones: SesionesActivas = sesion::prepara_estado_inicial();
    let simbolo = sesion::gestiona_acceso(
        &mut sesiones,
        &usuarios,
        &"Administrador".to_string(),
        &"1234".to_string(),
        AHORA,
    )
    .unwrap();
    Editor::from_request(&sesiones, &usuarios, &simbolo, AHORA).unwrap()
}

fn doc(id: u64, padre: u64, titulo: &str, hijos: Vec<u64>) -> Documento {
    Documento { id, padre, titulo: titulo.to_string(), contenido: String::new(), hijos }
}

fn ids(d: &Documentos, e: &Editor) -> Vec<u64> {
    d.lee_documentos(e).iter().map(|x| x.id).collect()
}

#[test]
fn escenario_crear_y_borrar() {
    let e = editor();
    let mut d = documentos::prepara_estado_inicial(None);
    assert_eq!(ids(&d, &e), vec![0]);
    assert_eq!(d.crea_documento(&e, 0, "A".to_string(), String::new()), Ok(1));
    assert_eq!(d.crea_documento(&e, 1, "B".to_string(), String::new()), Ok(2));
    assert_eq!(d.borra_documento(&e, 1), Err(Fallo::Prohibido));
    assert_eq!(d.borra_documento(&e, 2), Ok(()));
    assert_eq!(d.borra_documento(&e, 1), Ok(()));
    assert_eq!(ids(&d, &e), vec![0]);
    assert!(d.lee_documento(0).unwrap().hijos.is_empty());
}

#[test]
fn crear_enlaza_con_el_padre() {
    let e = editor();
    let mut d = documentos::prepara_estado_inicial(None);
    let a = d.crea_documento(&e, 0, "A".to_string(), "texto".to_string()).unwrap();
    let b = d.crea_documento(&e, 0, "B".to_string(), String::new()).unwrap();
    let c = d.crea_documento(&e, a, "C".to_string(), String::new()).unwrap();
    assert_eq!((a, b, c), (1, 2, 3));
    assert_eq!(d.lee_documento(0).unwrap().hijos, vec![1, 2]);
    assert_eq!(d.lee_documento(1).unwrap().hijos, vec![3]);
    let hijo = d.lee_documento(3).unwrap();
    assert_eq!(hijo.padre, 1);
    assert_eq!(hijo.titulo, "C");
    assert!(hijo.hijos.is_empty());
    assert_eq!(d.lee_documento(1).unwrap().contenido, "texto");
    assert_eq!(d.siguiente(), 4);
}

#[test]
fn crear_bajo_padre_inexistente_no_consume_id() {
    let e = editor();
    let mut d = documentos::prepara_estado_inicial(None);
    assert_eq!(d.crea_documento(&e, 7, "X".to_string(), String::new()), Err(Fallo::NoEncontrado));
    assert_eq!(d.siguiente(), 1);
    assert_eq!(ids(&d, &e), vec![0]);
    assert_eq!(d.crea_documento(&e, 0, "A".to_string(), String::new()), Ok(1));
}

#[test]
fn borrar_la_raiz_esta_prohibido() {
    let e = editor();
    let mut d = documentos::prepara_estado_inicial(None);
    assert_eq!(d.borra_documento(&e, 0), Err(Fallo::Prohibido));
    d.crea_documento(&e, 0, "A".to_string(), String::new()).unwrap();
    assert_eq!(d.borra_documento(&e, 0), Err(Fallo::Prohibido));
    assert_eq!(ids(&d, &e), vec![0, 1]);
}

#[test]
fn borrar_con_hijos_no_cambia_nada() {
    let e = editor();
    let mut d = documentos::prepara_estado_inicial(None);
    d.crea_documento(&e, 0, "A".to_string(), String::new()).unwrap();
    d.crea_documento(&e, 1, "B".to_string(), String::new()).unwrap();
    d.crea_documento(&e, 1, "C".to_string(), String::new()).unwrap();
    assert_eq!(d.borra_documento(&e, 1), Err(Fallo::Prohibido));
    assert_eq!(ids(&d, &e), vec![0, 1, 2, 3]);
    assert_eq!(d.lee_documento(1).unwrap().hijos, vec![2, 3]);
    assert_eq!(d.lee_documento(0).unwrap().hijos, vec![1]);
}

#[test]
fn borrar_inexistente() {
    let e = editor();
    let mut d = documentos::prepara_estado_inicial(None);
    assert_eq!(d.borra_documento(&e, 5), Err(Fallo::NoEncontrado));
}

#[test]
fn borrar_quita_al_hijo_del_padre_por_identificador() {
    let e = editor();
    let mut d = documentos::prepara_estado_inicial(None);
    d.crea_documento(&e, 0, "A".to_string(), String::new()).unwrap();
    d.crea_documento(&e, 0, "B".to_string(), String::new()).unwrap();
    d.crea_documento(&e, 0, "C".to_string(), String::new()).unwrap();
    assert_eq!(d.borra_documento(&e, 2), Ok(()));
    assert_eq!(d.lee_documento(0).unwrap().hijos, vec![1, 3]);
    assert_eq!(ids(&d, &e), vec![0, 1, 3]);
    assert_eq!(d.lee_documento(2).err(), Some(Fallo::NoEncontrado));
    // los identificadores no se reutilizan
    assert_eq!(d.crea_documento(&e, 0, "D".to_string(), String::new()), Ok(4));
}

#[test]
fn cambiar_no_mueve_el_documento() {
    let e = editor();
    let mut d = documentos::prepara_estado_inicial(None);
    d.crea_documento(&e, 0, "A".to_string(), String::new()).unwrap();
    d.crea_documento(&e, 1, "B".to_string(), String::new()).unwrap();
    let cambiado = d.cambia_documento(&e, 2, "B2".to_string(), "nuevo".to_string()).unwrap();
    assert_eq!(cambiado.titulo, "B2");
    assert_eq!(cambiado.contenido, "nuevo");
    assert_eq!(cambiado.padre, 1);
    let leido = d.lee_documento(2).unwrap();
    assert_eq!(leido.titulo, "B2");
    assert_eq!(d.lee_documento(1).unwrap().hijos, vec![2]);
    assert_eq!(
        d.cambia_documento(&e, 9, "X".to_string(), String::new()).err(),
        Some(Fallo::NoEncontrado)
    );
}

#[test]
fn ida_y_vuelta_por_el_disco() {
    let e = editor();
    let mut d = documentos::prepara_estado_inicial(None);
    d.crea_documento(&e, 0, "A".to_string(), "a".to_string()).unwrap();
    d.crea_documento(&e, 1, "B".to_string(), "b".to_string()).unwrap();
    d.crea_documento(&e, 0, "C".to_string(), "c".to_string()).unwrap();
    d.borra_documento(&e, 3).unwrap();
    let guardado = d.lee_documentos(&e);
    let recargado = documentos::prepara_estado_inicial(Some(guardado.clone()));
    let otra_vez = recargado.lee_documentos(&e);
    assert_eq!(otra_vez.len(), guardado.len());
    for (x, y) in otra_vez.iter().zip(guardado.iter()) {
        assert_eq!(x.id, y.id);
        assert_eq!(x.padre, y.padre);
        assert_eq!(x.titulo, y.titulo);
        assert_eq!(x.contenido, y.contenido);
        assert_eq!(x.hijos, y.hijos);
    }
    // el contador sigue al mayor identificador guardado
    assert_eq!(recargado.siguiente(), 3);
}

#[test]
fn carga_sin_nada_o_vacia_deja_solo_la_raiz() {
    let e = editor();
    let d = documentos::prepara_estado_inicial(Some(vec![]));
    assert_eq!(ids(&d, &e), vec![0]);
    assert_eq!(d.siguiente(), 1);
    let raiz = d.lee_documento(0).unwrap();
    assert_eq!(raiz.padre, 0);
    assert!(raiz.titulo.is_empty() && raiz.contenido.is_empty() && raiz.hijos.is_empty());
}

#[test]
fn carga_incoherente_deja_solo_la_raiz() {
    let e = editor();
    // el hijo no figura en la lista del padre
    let v = vec![doc(0, 0, "", vec![]), doc(4, 0, "A", vec![])];
    let d = documentos::prepara_estado_inicial(Some(v));
    assert_eq!(ids(&d, &e), vec![0]);
    assert_eq!(d.siguiente(), 1);
    // padre inexistente
    let v = vec![doc(0, 0, "", vec![]), doc(4, 9, "A", vec![])];
    assert_eq!(ids(&documentos::prepara_estado_inicial(Some(v)), &e), vec![0]);
    // sin raíz
    let v = vec![doc(1, 1, "A", vec![1])];
    assert_eq!(ids(&documentos::prepara_estado_inicial(Some(v)), &e), vec![0]);
    // identificador repetido
    let v = vec![doc(0, 0, "", vec![4]), doc(4, 0, "A", vec![]), doc(4, 0, "B", vec![])];
    assert_eq!(ids(&documentos::prepara_estado_inicial(Some(v)), &e), vec![0]);
    // hijo repetido en la lista
    let v = vec![doc(0, 0, "", vec![4, 4]), doc(4, 0, "A", vec![])];
    assert_eq!(ids(&documentos::prepara_estado_inicial(Some(v)), &e), vec![0]);
    // identificador que no deja sitio al contador
    let v = vec![doc(0, 0, "", vec![u64::MAX]), doc(u64::MAX, 0, "A", vec![])];
    assert_eq!(ids(&documentos::prepara_estado_inicial(Some(v)), &e), vec![0]);
}

#[test]
fn carga_coherente_se_conserva() {
    let e = editor();
    let v = vec![doc(7, 3, "B", vec![]), doc(0, 0, "", vec![3]), doc(3, 0, "A", vec![7])];
    let mut d = documentos::prepara_estado_inicial(Some(v));
    assert_eq!(ids(&d, &e), vec![7, 0, 3]);
    assert_eq!(d.siguiente(), 8);
    assert_eq!(d.crea_documento(&e, 7, "C".to_string(), String::new()), Ok(8));
    assert_eq!(d.lee_documento(7).unwrap().hijos, vec![8]);
}

#[test]
fn copia_de_documento() {
    let a = doc(3, 0, "A", vec![5, 6]);
    let b = a.clone();
    assert_eq!(b.id, 3);
    assert_eq!(b.titulo, "A");
    assert_eq!(b.hijos, vec![5, 6]);
}
