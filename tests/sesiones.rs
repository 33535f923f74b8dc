use gestor_documentos::documentos;
use gestor_documentos::sesion::{self, Sesion, SesionesActivas, DURACION_SESION};
use gestor_documentos::usuarios::{self, ConfigAdmin, Usuario, Usuarios};
use gestor_documentos::{Administrador, Editor, Fallo};

const AHORA: u64 = 1_700_000_000;

const RESUMEN_1234: &str = "d760688da522b4dc3350e6fb68961b0934f911c7d0ff337438cabf4608789ba94ce70b6601d7e08a279ef088716c4b1913b984513fea4c557d404d0598d4f2f1";

fn directorio() -> Usuarios {
    let config = ConfigAdmin { admin: "Administrador".to_string(), clave: "1234".to_string() };
    usuarios::prepara_estado_inicial(&config, None)
}

fn entra(sesiones: &mut SesionesActivas, u: &Usuarios, nombre: &str, clave: &str) -> Result<String, Fallo> {
    sesion::gestiona_acceso(sesiones, u, &nombre.to_string(), &clave.to_string(), AHORA)
}

#[test]
fn escenario_acceso_lectura_y_cierre() {
    let u = directorio();
    let mut s = sesion::prepara_estado_inicial();
    let simbolo = entra(&mut s, &u, "Administrador", "1234").unwrap();
    let editor = Editor::from_request(&s, &u, &simbolo, AHORA).unwrap();
    assert_eq!(editor.id_usuario(), 0);
    let mut d = documentos::prepara_estado_inicial(None);
    let id = d.crea_documento(&editor, 0, "A".to_string(), String::new()).unwrap();
    assert_eq!(d.lee_documento(id).unwrap().titulo, "A");
    s.cierra_sesion(&simbolo);
    assert_eq!(Editor::from_request(&s, &u, &simbolo, AHORA).err(), Some(Fallo::NoAutorizado));
    assert_eq!(s.consulta(&simbolo, AHORA), Err(Fallo::NoAutorizado));
    // cerrar otra vez no cambia nada
    s.cierra_sesion(&simbolo);
    assert_eq!(s.consulta(&simbolo, AHORA), Err(Fallo::NoAutorizado));
}

#[test]
fn acceso_con_clave_erronea_o_nombre_desconocido() {
    let u = directorio();
    let mut s = sesion::prepara_estado_inicial();
    assert_eq!(entra(&mut s, &u, "Administrador", "4321"), Err(Fallo::NoAutorizado));
    assert_eq!(entra(&mut s, &u, "Nadie", "1234"), Err(Fallo::NoAutorizado));
}

#[test]
fn sesion_recien_abierta_y_caducada() {
    let u = directorio();
    let mut s = sesion::prepara_estado_inicial();
    let simbolo = entra(&mut s, &u, "Administrador", "1234").unwrap();
    assert_eq!(s.consulta(&simbolo, AHORA), Ok(Sesion { usuario: 0, caducidad: AHORA + 3600 }));
    assert_eq!(s.consulta(&simbolo, AHORA + DURACION_SESION - 1).map(|x| x.usuario), Ok(0));
    assert_eq!(s.consulta(&simbolo, AHORA + DURACION_SESION), Err(Fallo::NoAutorizado));
    assert_eq!(s.consulta("desconocido", AHORA), Err(Fallo::NoAutorizado));
    assert_eq!(
        Usuario::from_request(&s, &u, &simbolo, AHORA + DURACION_SESION).err(),
        Some(Fallo::NoAutorizado)
    );
}

#[test]
fn registrar_y_consultar() {
    let mut s = sesion::prepara_estado_inicial();
    let usuario = Usuario { id: 5, nombre: "x".to_string(), clave: String::new(), roles: vec![] };
    sesion::abre_sesion(&mut s, &usuario, "abc".to_string(), 100);
    assert_eq!(s.consulta("abc", 100), Ok(Sesion { usuario: 5, caducidad: 3700 }));
    s.registra("abc".to_string(), Sesion { usuario: 6, caducidad: 50 });
    assert_eq!(s.consulta("abc", 49), Ok(Sesion { usuario: 6, caducidad: 50 }));
    assert_eq!(s.consulta("abc", 50), Err(Fallo::NoAutorizado));
}

#[test]
fn crear_sesion_caduca_en_una_hora() {
    let usuario = Usuario { id: 9, nombre: "x".to_string(), clave: String::new(), roles: vec![] };
    assert_eq!(sesion::crea_sesion(&usuario, 10), Sesion { usuario: 9, caducidad: 3610 });
}

#[test]
fn simbolos_de_sesion_nuevos() {
    let a = sesion::crea_simbolo_sesion();
    let b = sesion::crea_simbolo_sesion();
    // 64 bytes en base64 con relleno: 88 caracteres
    assert_eq!(a.len(), 88);
    assert!(a.ends_with('='));
    assert!(a.chars().all(|c| c.is_ascii_alphanumeric() || c == '+' || c == '/' || c == '='));
    assert_ne!(a, b);
}

#[test]
fn dos_accesos_dan_simbolos_distintos() {
    let u = directorio();
    let mut s = sesion::prepara_estado_inicial();
    let a = entra(&mut s, &u, "Administrador", "1234").unwrap();
    let b = entra(&mut s, &u, "Administrador", "1234").unwrap();
    assert_ne!(a, b);
    assert!(s.consulta(&a, AHORA).is_ok());
    assert!(s.consulta(&b, AHORA).is_ok());
    assert!(s.en_uso(&a) && s.en_uso(&b));
}

#[test]
fn simbolo_en_uso() {
    let mut s = sesion::prepara_estado_inicial();
    assert!(!s.en_uso("abc"));
    s.registra("abc".to_string(), Sesion { usuario: 1, caducidad: 5 });
    // una sesión caducada sigue ocupando su símbolo
    assert!(s.en_uso("abc"));
    s.cierra_sesion("abc");
    assert!(!s.en_uso("abc"));
}

#[test]
fn resumen_de_clave() {
    assert_eq!(sesion::ofusca_clave(&"1234".to_string()), RESUMEN_1234);
    assert_eq!(
        sesion::ofusca_clave(&"secreta".to_string()),
        "8b86eeb90f3effe1396d38480e487258cb5322a06c2f459a0124ecaa7754b7ad087a6c7f52a61926da4a95cee3186668dc40cbcbb13d353bc2c90206beb40e0d"
    );
}

#[test]
fn secreto_con_y_sin_sesion() {
    let usuario = Usuario { id: 1, nombre: "x".to_string(), clave: String::new(), roles: vec![] };
    assert_eq!(sesion::secreto_accesible(&usuario), "Secreto muy valioso.");
    assert_eq!(sesion::secreto_no_accesible(), Fallo::NoAutorizado);
}

#[test]
fn guarda_de_rol() {
    let mut u = directorio();
    let mut s = sesion::prepara_estado_inicial();
    let raiz = entra(&mut s, &u, "Administrador", "1234").unwrap();
    let admin = Administrador::from_request(&s, &u, &raiz, AHORA).unwrap();
    assert_eq!(admin.id_usuario(), 0);
    let lector = u.crea_usuario(&admin, "lector".to_string(), "clave".to_string(), vec!["Lector".to_string()]);
    let editora = u.crea_usuario(&admin, "editora".to_string(), "otra".to_string(), vec!["Editor".to_string()]);
    let sl = entra(&mut s, &u, "lector", "clave").unwrap();
    let se = entra(&mut s, &u, "editora", "otra").unwrap();
    assert_eq!(Editor::from_request(&s, &u, &sl, AHORA).err(), Some(Fallo::Prohibido));
    assert_eq!(Usuario::from_request(&s, &u, &sl, AHORA).unwrap().id, lector);
    assert_eq!(Editor::from_request(&s, &u, &se, AHORA).unwrap().id_usuario(), editora);
    assert_eq!(Administrador::from_request(&s, &u, &se, AHORA).err(), Some(Fallo::Prohibido));
    assert_eq!(Editor::from_request(&s, &u, "nada", AHORA).err(), Some(Fallo::NoAutorizado));
}

#[test]
fn sesion_de_usuario_borrado_no_autoriza() {
    let mut u = directorio();
    let mut s = sesion::prepara_estado_inicial();
    let raiz = entra(&mut s, &u, "Administrador", "1234").unwrap();
    let admin = Administrador::from_request(&s, &u, &raiz, AHORA).unwrap();
    let id = u.crea_usuario(&admin, "eva".to_string(), "x".to_string(), vec!["Editor".to_string()]);
    let se = entra(&mut s, &u, "eva", "x").unwrap();
    assert!(Editor::from_request(&s, &u, &se, AHORA).is_ok());
    u.borra_usuario(&admin, id).unwrap();
    assert_eq!(Editor::from_request(&s, &u, &se, AHORA).err(), Some(Fallo::NoAutorizado));
    assert_eq!(Usuario::from_request(&s, &u, &se, AHORA).err(), Some(Fallo::NoAutorizado));
}
