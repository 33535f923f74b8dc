use gestor_documentos::sesion::{self, SesionesActivas};
use gestor_documentos::usuarios::{self, ConfigAdmin, Usuario, Usuarios};
use gestor_documentos::{Administrador, Fallo};

const AHORA: u64 = 1_700_000_000;

fn config() -> ConfigAdmin {
    ConfigAdmin { admin: "jefa".to_string(), clave: "1234".to_string() }
}

fn admin(u: &Usuarios) -> Administrador {
    let mut s: SesionesActivas = sesion::prepara_estado_inicial();
    let t = sesion::gestiona_acceso(&mut s, u, &"jefa".to_string(), &"1234".to_string(), AHORA).unwrap();
    Administrador::from_request(&s, u, &t, AHORA).unwrap()
}

fn usuario(id: u64, nombre: &str) -> Usuario {
    Usuario { id, nombre: nombre.to_string(), clave: "r".to_string(), roles: vec!["Editor".to_string()] }
}

#[test]
fn semilla_desde_la_configuracion() {
    let u = usuarios::prepara_estado_inicial(&config(), None);
    let a = admin(&u);
    let todos = u.lee_usuarios(&a);
    assert_eq!(todos.len(), 1);
    assert_eq!(todos[0].id, 0);
    assert_eq!(todos[0].nombre, "jefa");
    assert_eq!(todos[0].clave, sesion::ofusca_clave(&"1234".to_string()));
    assert_eq!(todos[0].roles, vec!["Administrador".to_string(), "Editor".to_string()]);
    assert_eq!(u.siguiente(), 1);
}

#[test]
fn crear_guarda_el_resumen() {
    let mut u = usuarios::prepara_estado_inicial(&config(), None);
    let a = admin(&u);
    let id = u.crea_usuario(&a, "ana".to_string(), "secreta".to_string(), vec!["Editor".to_string()]);
    assert_eq!(id, 1);
    let ana = u.lee_usuario(1).unwrap();
    assert_eq!(ana.nombre, "ana");
    assert_ne!(ana.clave, "secreta");
    assert_eq!(ana.clave, sesion::ofusca_clave(&"secreta".to_string()));
    assert_eq!(ana.roles, vec!["Editor".to_string()]);
    assert_eq!(u.siguiente(), 2);
}

#[test]
fn leer_inexistente() {
    let u = usuarios::prepara_estado_inicial(&config(), None);
    assert_eq!(u.lee_usuario(3).err(), Some(Fallo::NoEncontrado));
}

#[test]
fn cambiar_no_toca_los_roles() {
    let mut u = usuarios::prepara_estado_inicial(&config(), None);
    let a = admin(&u);
    u.crea_usuario(&a, "ana".to_string(), "x".to_string(), vec!["Editor".to_string()]);
    let quien = u.lee_usuario(0).unwrap();
    let c = u.cambia_usuario(&quien, 1, "ana2".to_string(), None).unwrap();
    assert_eq!(c.nombre, "ana2");
    assert_eq!(c.clave, sesion::ofusca_clave(&"x".to_string()));
    assert_eq!(c.roles, vec!["Editor".to_string()]);
    let c = u.cambia_usuario(&quien, 1, "ana3".to_string(), Some("y".to_string())).unwrap();
    assert_eq!(c.clave, sesion::ofusca_clave(&"y".to_string()));
    assert_eq!(u.lee_usuario(1).unwrap().nombre, "ana3");
    assert_eq!(u.cambia_usuario(&quien, 8, "z".to_string(), None).err(), Some(Fallo::NoEncontrado));
}

#[test]
fn borrar_semilla_o_inexistente_esta_prohibido() {
    let mut u = usuarios::prepara_estado_inicial(&config(), None);
    let a = admin(&u);
    assert_eq!(u.borra_usuario(&a, 0), Err(Fallo::Prohibido));
    assert_eq!(u.borra_usuario(&a, 4), Err(Fallo::Prohibido));
    let id = u.crea_usuario(&a, "ana".to_string(), "x".to_string(), vec![]);
    assert_eq!(u.borra_usuario(&a, id), Ok(()));
    assert_eq!(u.lee_usuario(id).err(), Some(Fallo::NoEncontrado));
    assert_eq!(u.borra_usuario(&a, id), Err(Fallo::Prohibido));
    assert_eq!(u.crea_usuario(&a, "otra".to_string(), "x".to_string(), vec![]), 2);
}

#[test]
fn carga_de_usuarios() {
    let u = usuarios::prepara_estado_inicial(&config(), Some(vec![usuario(0, "raiz"), usuario(5, "b")]));
    assert_eq!(u.siguiente(), 6);
    assert_eq!(u.lee_usuario(5).unwrap().nombre, "b");
    let vacia = usuarios::prepara_estado_inicial(&config(), Some(vec![]));
    assert_eq!(vacia.lee_usuario(0).unwrap().nombre, "jefa");
    assert_eq!(vacia.siguiente(), 1);
    let repetida = usuarios::prepara_estado_inicial(&config(), Some(vec![usuario(2, "a"), usuario(2, "b")]));
    assert_eq!(repetida.lee_usuario(0).unwrap().nombre, "jefa");
    assert_eq!(repetida.lee_usuario(2).err(), Some(Fallo::NoEncontrado));
    let sin_sitio =
        usuarios::prepara_estado_inicial(&config(), Some(vec![usuario(0, "a"), usuario(u64::MAX, "b")]));
    assert_eq!(sin_sitio.siguiente(), 1);
    assert_eq!(sin_sitio.lee_usuario(0).unwrap().nombre, "jefa");
    let sin_semilla = usuarios::prepara_estado_inicial(&config(), Some(vec![usuario(3, "a"), usuario(4, "b")]));
    assert_eq!(sin_semilla.lee_usuario(0).unwrap().nombre, "jefa");
    assert_eq!(sin_semilla.lee_usuario(3).err(), Some(Fallo::NoEncontrado));
    assert_eq!(sin_semilla.siguiente(), 1);
}

#[test]
fn autenticar_por_nombre_y_resumen() {
    let u = usuarios::prepara_estado_inicial(
        &config(),
        Some(vec![usuario(0, "raiz"), usuario(3, "a"), usuario(4, "a")]),
    );
    assert_eq!(u.autentica(&"a".to_string(), &"r".to_string()).map(|x| x.id), Some(3));
    assert!(u.autentica(&"a".to_string(), &"s".to_string()).is_none());
    assert!(u.autentica(&"b".to_string(), &"r".to_string()).is_none());
}

#[test]
fn roles_presentes() {
    let roles = vec!["Lector".to_string(), "Editor".to_string()];
    assert!(usuarios::tiene_rol(&roles, &"Editor".to_string()));
    assert!(!usuarios::tiene_rol(&roles, &"Administrador".to_string()));
}
