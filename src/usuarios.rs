//! Directorio de usuarios: cuentas con nombre, resumen de contraseña y roles.

use vstd::prelude::*;
use vstd::string::StringExecFns;

use crate::fallo::Fallo;
use crate::id::{ContadorIds, Id};
use crate::sesion::{ofusca_clave, sha3_512_hex};

pub use crate::roles::{Administrador, Editor};

use crate::ruta::{ruta, vista_rutas, Metodo, Ruta, RutaVista};

verus! {

/// Una cuenta de usuario. `clave` guarda el resumen de la contraseña, nunca
/// la contraseña.
pub struct Usuario {
    pub id: Id,
    pub nombre: String,
    pub clave: String,
    pub roles: Vec<String>,
}

/// Vista matemática de un usuario.
pub struct UsuarioVista {
    pub id: Id,
    pub nombre: Seq<char>,
    pub clave: Seq<char>,
    pub roles: Seq<Seq<char>>,
}

/// Las vistas de una lista de nombres de rol.
pub open spec fn vista_roles(r: Seq<String>) -> Seq<Seq<char>> {
    Seq::new(r.len(), |i: int| r[i]@)
}

impl View for Usuario {
    type V = UsuarioVista;

    open spec fn view(&self) -> UsuarioVista {
        UsuarioVista {
            id: self.id,
            nombre: self.nombre@,
            clave: self.clave@,
            roles: vista_roles(self.roles@),
        }
    }
}

/// Copia de una lista de roles.
fn copia_roles(roles: &Vec<String>) -> (r: Vec<String>)
    ensures
        vista_roles(r@) == vista_roles(roles@),
{
    let mut r: Vec<String> = Vec::new();
    let mut i: usize = 0;
    while i < roles.len()
        invariant
            i <= roles@.len(),
            r@.len() == i,
            forall|k: int| 0 <= k < i ==> r@[k]@ == roles@[k]@,
        decreases roles@.len() - i,
    {
        r.push(roles[i].clone());
        i = i + 1;
    }
    assert(vista_roles(r@) =~= vista_roles(roles@));
    r
}

impl Clone for Usuario {
    fn clone(&self) -> (r: Self)
        ensures
            r@ == self@,
    {
        Usuario {
            id: self.id,
            nombre: self.nombre.clone(),
            clave: self.clave.clone(),
            roles: copia_roles(&self.roles),
        }
    }
}

/// Si `roles` contiene `rol`.
pub fn tiene_rol(roles: &Vec<String>, rol: &String) -> (r: bool)
    ensures
        r == vista_roles(roles@).contains(rol@),
{
    let ghost v = vista_roles(roles@);
    let mut i: usize = 0;
    while i < roles.len()
        invariant
            i <= roles@.len(),
            v == vista_roles(roles@),
            forall|k: int| 0 <= k < i ==> v[k] != rol@,
        decreases roles@.len() - i,
    {
        if roles[i] == *rol {
            assert(v[i as int] == rol@);
            return true;
        }
        i = i + 1;
    }
    false
}

/// Las vistas de una secuencia de usuarios, en el mismo orden.
pub open spec fn vista_usuarios(v: Seq<Usuario>) -> Seq<UsuarioVista> {
    Seq::new(v.len(), |i: int| v[i]@)
}

/// Algún usuario de `s` tiene el identificador `x`.
pub open spec fn existe_usuario(s: Seq<UsuarioVista>, x: Id) -> bool {
    exists|i: int| 0 <= i < s.len() && #[trigger] s[i].id == x
}

/// Ningún identificador se repite en `s`.
pub open spec fn usuarios_unicos(s: Seq<UsuarioVista>) -> bool {
    forall|i: int, j: int|
        0 <= i < s.len() && 0 <= j < s.len() && #[trigger] s[i].id == #[trigger] s[j].id ==> i == j
}

/// Todos los identificadores de `s` son menores que `n`.
pub open spec fn usuarios_menores(s: Seq<UsuarioVista>, n: Id) -> bool {
    forall|i: int| 0 <= i < s.len() ==> #[trigger] s[i].id < n
}

/// Posición del usuario con identificador `x` (significativa si existe).
pub open spec fn indice_usuario(s: Seq<UsuarioVista>, x: Id) -> int {
    choose|i: int| 0 <= i < s.len() && #[trigger] s[i].id == x
}

/// El usuario con identificador `x` (significativo si existe).
pub open spec fn usuario_de(s: Seq<UsuarioVista>, x: Id) -> UsuarioVista {
    s[indice_usuario(s, x)]
}

/// `i` es la primera posición de `s` con ese nombre.
pub open spec fn primero_con_nombre(s: Seq<UsuarioVista>, nombre: Seq<char>, i: int) -> bool {
    &&& 0 <= i < s.len()
    &&& s[i].nombre == nombre
    &&& forall|k: int| 0 <= k < i ==> #[trigger] s[k].nombre != nombre
}

/// El usuario al que dan acceso un nombre y el resumen de una contraseña: el
/// primero con ese nombre, si su resumen coincide.
pub open spec fn acredita(s: Seq<UsuarioVista>, nombre: Seq<char>, resumen: Seq<char>) -> Option<Id> {
    if exists|i: int| primero_con_nombre(s, nombre, i) {
        let i = choose|i: int| primero_con_nombre(s, nombre, i);
        if s[i].clave == resumen {
            Some(s[i].id)
        } else {
            None
        }
    } else {
        None
    }
}

/// Los roles de la cuenta semilla de administración.
pub open spec fn roles_semilla() -> Seq<Seq<char>> {
    seq!["Administrador"@, "Editor"@]
}

/// Los datos de la cuenta semilla de administración, que llegan de la
/// configuración externa.
pub struct ConfigAdmin {
    pub admin: String,
    pub clave: String,
}

/// El directorio tras renombrar al usuario `x` y, si se da, sustituir el
/// resumen de su contraseña. Los roles no cambian.
pub open spec fn tras_cambiar_usuario(
    s: Seq<UsuarioVista>,
    x: Id,
    nombre: Seq<char>,
    resumen: Option<Seq<char>>,
) -> Seq<UsuarioVista> {
    Seq::new(
        s.len(),
        |k: int|
            if s[k].id == x {
                UsuarioVista {
                    id: s[k].id,
                    nombre,
                    clave: match resumen {
                        Some(c) => c,
                        None => s[k].clave,
                    },
                    roles: s[k].roles,
                }
            } else {
                s[k]
            },
    )
}

/// El resumen de la contraseña nueva, si la hay.
pub open spec fn resumen_opcional(clave: Option<String>) -> Option<Seq<char>> {
    match clave {
        Some(c) => Some(sha3_512_hex(c@)),
        None => None,
    }
}

/// El mayor identificador de `s` (`0` si está vacía).
pub open spec fn max_usuario(s: Seq<UsuarioVista>) -> Id
    decreases s.len(),
{
    if s.len() == 0 {
        0
    } else if s.last().id > max_usuario(s.drop_last()) {
        s.last().id
    } else {
        max_usuario(s.drop_last())
    }
}

/// Un directorio guardado que puede cargarse tal cual: conserva la cuenta
/// semilla (`0`), no repite identificadores y deja sitio al contador.
pub open spec fn carga_usuarios_aceptable(s: Seq<UsuarioVista>) -> bool {
    existe_usuario(s, 0) && usuarios_unicos(s) && usuarios_menores(s, u64::MAX)
}

/// Si algún usuario de `v` tiene el identificador `x`.
fn existe_usuario_exec(v: &Vec<Usuario>, x: Id) -> (r: bool)
    ensures
        r == existe_usuario(vista_usuarios(v@), x),
{
    let ghost s = vista_usuarios(v@);
    let mut i: usize = 0;
    while i < v.len()
        invariant
            i <= v@.len(),
            s == vista_usuarios(v@),
            forall|k: int| 0 <= k < i ==> s[k].id != x,
        decreases v@.len() - i,
    {
        if v[i].id == x {
            assert(s[i as int].id == x);
            return true;
        }
        i = i + 1;
    }
    false
}

/// La cuenta semilla de administración, con identificador `0`.
pub open spec fn semilla(admin: Seq<char>, clave: Seq<char>) -> UsuarioVista {
    UsuarioVista { id: 0, nombre: admin, clave: sha3_512_hex(clave), roles: roles_semilla() }
}

/// El mayor identificador es uno de los presentes y ninguno lo supera.
proof fn lemma_max_usuario(s: Seq<UsuarioVista>)
    requires
        s.len() > 0,
    ensures
        forall|i: int| 0 <= i < s.len() ==> #[trigger] s[i].id <= max_usuario(s),
        existe_usuario(s, max_usuario(s)),
    decreases s.len(),
{
    let p = s.drop_last();
    if p.len() > 0 {
        lemma_max_usuario(p);
        assert forall|i: int| 0 <= i < s.len() implies #[trigger] s[i].id <= max_usuario(s) by {
            if i < p.len() {
                assert(p[i].id == s[i].id);
            }
        }
        if s.last().id <= max_usuario(p) {
            let k = choose|k: int| 0 <= k < p.len() && p[k].id == max_usuario(p);
            assert(s[k].id == max_usuario(s));
        } else {
            assert(s[s.len() - 1].id == max_usuario(s));
        }
    } else {
        assert(max_usuario(p) == 0);
        assert(s.last() == s[0]);
    }
}

/// Si ningún identificador se repite en `v`.
fn usuarios_unicos_exec(v: &Vec<Usuario>) -> (r: bool)
    ensures
        r == usuarios_unicos(vista_usuarios(v@)),
{
    let ghost s = vista_usuarios(v@);
    let mut i: usize = 0;
    while i < v.len()
        invariant
            i <= v@.len(),
            s == vista_usuarios(v@),
            forall|a: int, b: int| 0 <= a < i && 0 <= b < s.len() && a != b ==> s[a].id != s[b].id,
        decreases v@.len() - i,
    {
        let mut j: usize = 0;
        while j < v.len()
            invariant
                i < v@.len(),
                j <= v@.len(),
                s == vista_usuarios(v@),
                forall|a: int, b: int| 0 <= a < i && 0 <= b < s.len() && a != b ==> s[a].id != s[b].id,
                forall|b: int| 0 <= b < j && b != i ==> s[i as int].id != s[b].id,
            decreases v@.len() - j,
        {
            if j != i && v[i].id == v[j].id {
                assert(s[i as int].id == s[j as int].id);
                return false;
            }
            j = j + 1;
        }
        i = i + 1;
    }
    true
}

/// El mayor identificador de `v`, o `None` si alguno es `u64::MAX`.
fn max_usuario_exec(v: &Vec<Usuario>) -> (r: Option<Id>)
    ensures
        match r {
            Some(m) => m == max_usuario(vista_usuarios(v@)) && usuarios_menores(vista_usuarios(v@), u64::MAX),
            None => !usuarios_menores(vista_usuarios(v@), u64::MAX),
        },
{
    let ghost s = vista_usuarios(v@);
    let mut m: Id = 0;
    let mut i: usize = 0;
    while i < v.len()
        invariant
            i <= v@.len(),
            s == vista_usuarios(v@),
            m == max_usuario(s.take(i as int)),
            forall|k: int| 0 <= k < i ==> #[trigger] s[k].id < u64::MAX,
        decreases v@.len() - i,
    {
        if v[i].id == u64::MAX {
            assert(s[i as int].id == u64::MAX);
            return None;
        }
        proof {
            assert(s.take(i + 1).drop_last() =~= s.take(i as int));
            assert(s.take(i + 1).last() == s[i as int]);
        }
        if v[i].id > m {
            m = v[i].id;
        }
        i = i + 1;
    }
    assert(s.take(i as int) =~= s);
    Some(m)
}

/// Prepara el directorio de arranque a partir de lo leído del disco: el
/// directorio leído si no está vacío y no repite identificadores; si no (o
/// si no se leyó nada), sólo la cuenta semilla de administración.
pub fn prepara_estado_inicial(config: &ConfigAdmin, cargado: Option<Vec<Usuario>>) -> (r: Usuarios)
    ensures
        r.wf(),
        match cargado {
            Some(v) => if carga_usuarios_aceptable(vista_usuarios(v@)) {
                r@ == vista_usuarios(v@) && r.siguiente_id() == max_usuario(vista_usuarios(v@)) + 1
            } else {
                r@ == seq![semilla(config.admin@, config.clave@)] && r.siguiente_id() == 1
            },
            None => r@ == seq![semilla(config.admin@, config.clave@)] && r.siguiente_id() == 1,
        },
{
    if let Some(v) = cargado {
        if existe_usuario_exec(&v, 0) && usuarios_unicos_exec(&v) {
            if let Some(m) = max_usuario_exec(&v) {
                proof {
                    lemma_max_usuario(vista_usuarios(v@));
                    let k = choose|k: int| 0 <= k < vista_usuarios(v@).len() && vista_usuarios(v@)[k].id == m;
                    assert(vista_usuarios(v@)[k].id < u64::MAX);
                }
                let r = Usuarios { lista: v, contador: ContadorIds::nuevo(m + 1) };
                proof {
                    assert forall|i: int| 0 <= i < r@.len() implies #[trigger] r@[i].id < r.siguiente_id() by {
                        assert(r@[i].id <= m);
                    }
                }
                return r;
            }
        }
    }
    let mut roles: Vec<String> = Vec::new();
    roles.push(String::from_str("Administrador"));
    roles.push(String::from_str("Editor"));
    let admin = Usuario {
        id: 0,
        nombre: config.admin.clone(),
        clave: ofusca_clave(&config.clave),
        roles,
    };
    let mut lista: Vec<Usuario> = Vec::new();
    lista.push(admin);
    let r = Usuarios { lista, contador: ContadorIds::nuevo(1) };
    proof {
        assert(vista_roles(r.lista@[0].roles@) =~= roles_semilla());
        assert(r@ =~= seq![semilla(config.admin@, config.clave@)]);
        assert(r@[0].id == 0);
    }
    r
}

/// El directorio de usuarios con su contador de identificadores.
pub struct Usuarios {
    lista: Vec<Usuario>,
    contador: ContadorIds,
}

impl View for Usuarios {
    type V = Seq<UsuarioVista>;

    closed spec fn view(&self) -> Seq<UsuarioVista> {
        vista_usuarios(self.lista@)
    }
}

impl Usuarios {
    /// El identificador que recibirá el próximo usuario creado.
    pub closed spec fn siguiente_id(&self) -> Id {
        self.contador.siguiente()
    }

    /// La cuenta semilla (`0`) existe, y los identificadores son únicos y
    /// anteriores al contador.
    pub open spec fn wf(&self) -> bool {
        existe_usuario(self@, 0) && usuarios_unicos(self@) && usuarios_menores(self@, self.siguiente_id())
    }

    /// Consulta el próximo identificador sin consumirlo.
    pub fn siguiente(&self) -> (r: Id)
        ensures
            r == self.siguiente_id(),
    {
        self.contador.consulta()
    }

    /// Posición en la lista del usuario con identificador `id`.
    fn posicion(&self, id: Id) -> (r: Option<usize>)
        ensures
            match r {
                Some(i) => i < self@.len() && self@[i as int].id == id,
                None => !existe_usuario(self@, id),
            },
    {
        let mut i: usize = 0;
        while i < self.lista.len()
            invariant
                i <= self.lista@.len(),
                forall|k: int| 0 <= k < i ==> self@[k].id != id,
            decreases self.lista@.len() - i,
        {
            if self.lista[i].id == id {
                return Some(i);
            }
            i = i + 1;
        }
        None
    }

    /// Cambia el nombre del usuario `id` y, si se da una contraseña nueva,
    /// el resumen guardado. Los roles nunca cambian por esta vía.
    pub fn cambia_usuario(&mut self, _usuario: &Usuario, id: Id, nombre: String, clave: Option<String>) -> (r: Result<
        Usuario,
        Fallo,
    >)
        requires
            old(self).wf(),
        ensures
            final(self).wf(),
            final(self).siguiente_id() == old(self).siguiente_id(),
            r is Ok <==> existe_usuario(old(self)@, id),
            r matches Ok(u) ==> final(self)@ == tras_cambiar_usuario(
                old(self)@,
                id,
                nombre@,
                resumen_opcional(clave),
            ) && u@ == usuario_de(final(self)@, id),
            r matches Err(e) ==> e == Fallo::NoEncontrado && final(self)@ == old(self)@,
    {
        let i = match self.posicion(id) {
            Some(i) => i,
            None => return Err(Fallo::NoEncontrado),
        };
        let ghost antes = self@;
        let ghost resumen = resumen_opcional(clave);
        self.lista[i].nombre = nombre;
        if let Some(c) = clave {
            self.lista[i].clave = ofusca_clave(&c);
        }
        proof {
            assert(self@ =~= tras_cambiar_usuario(antes, id, nombre@, resumen));
            let k0 = choose|k: int| 0 <= k < antes.len() && antes[k].id == 0;
            assert(self@[k0].id == 0);
            assert(self@[i as int].id == id);
            let j = indice_usuario(self@, id);
            assert(self@[j].id == self@[i as int].id);
        }
        let u = self.lista[i].clone();
        Ok(u)
    }

    /// Borra el usuario `id`. Falla con `Prohibido` si es la cuenta semilla
    /// (`0`) o si no existe, y entonces el directorio queda intacto.
    pub fn borra_usuario(&mut self, _administrador: &Administrador, id: Id) -> (r: Result<(), Fallo>)
        requires
            old(self).wf(),
        ensures
            final(self).wf(),
            final(self).siguiente_id() == old(self).siguiente_id(),
            r is Ok <==> (id != 0 && existe_usuario(old(self)@, id)),
            r is Ok ==> final(self)@ == old(self)@.remove(indice_usuario(old(self)@, id)),
            r matches Err(e) ==> e == Fallo::Prohibido && final(self)@ == old(self)@,
    {
        if id == 0 {
            return Err(Fallo::Prohibido);
        }
        let i = match self.posicion(id) {
            Some(i) => i,
            None => return Err(Fallo::Prohibido),
        };
        let ghost antes = self@;
        self.lista.remove(i);
        proof {
            let j = indice_usuario(antes, id);
            assert(antes[j].id == antes[i as int].id);
            assert(self@ =~= antes.remove(i as int));
            let k0 = choose|k: int| 0 <= k < antes.len() && antes[k].id == 0;
            assert(k0 != i);
            assert(self@[if k0 < i { k0 } else { k0 - 1 }].id == 0);
            assert forall|k: int| 0 <= k < self@.len() implies self@[k] == antes[if k < i { k } else { k + 1 }] by {}
            assert forall|a: int, b: int| 0 <= a < self@.len() && 0 <= b < self@.len() && #[trigger] self@[a].id
                == #[trigger] self@[b].id implies a == b by {
                assert(antes[if a < i { a } else { a + 1 }].id == antes[if b < i { b } else { b + 1 }].id);
            }
            assert forall|k: int| 0 <= k < self@.len() implies #[trigger] self@[k].id < self.siguiente_id() by {
                assert(antes[if k < i { k } else { k + 1 }].id < self.siguiente_id());
            }
        }
        Ok(())
    }

    /// El usuario al que dan acceso un nombre y el resumen de una contraseña:
    /// el primero con ese nombre, si el resumen guardado coincide.
    pub fn autentica(&self, nombre: &String, resumen: &String) -> (r: Option<Usuario>)
        requires
            self.wf(),
        ensures
            r is None <==> acredita(self@, nombre@, resumen@) is None,
            r matches Some(u) ==> acredita(self@, nombre@, resumen@) == Some(u.id) && u@ == usuario_de(
                self@,
                u.id,
            ),
    {
        let ghost s = self@;
        let mut i: usize = 0;
        while i < self.lista.len()
            invariant
                i <= self.lista@.len(),
                s == self@,
                usuarios_unicos(s),
                forall|k: int| 0 <= k < i ==> #[trigger] s[k].nombre != nombre@,
            decreases self.lista@.len() - i,
        {
            if self.lista[i].nombre == *nombre {
                proof {
                    assert(primero_con_nombre(s, nombre@, i as int));
                    let j = choose|j: int| primero_con_nombre(s, nombre@, j);
                    if j < i {
                        assert(s[j].nombre != nombre@);
                    }
                    if i < j {
                        assert(s[i as int].nombre != nombre@);
                    }
                    assert(j == i);
                }
                if self.lista[i].clave == *resumen {
                    let u = self.lista[i].clone();
                    proof {
                        assert(s[i as int].id == u.id);
                        assert(existe_usuario(s, u.id));
                        let j = indice_usuario(s, u.id);
                        assert(s[j].id == s[i as int].id);
                    }
                    return Some(u);
                } else {
                    return None;
                }
            }
            i = i + 1;
        }
        None
    }

    /// Copia de todos los usuarios, en orden de inserción: lo que se guarda
    /// en disco tras cada cambio.
    pub fn instantanea(&self) -> (r: Vec<Usuario>)
        ensures
            vista_usuarios(r@) == self@,
    {
        let mut r: Vec<Usuario> = Vec::new();
        let mut i: usize = 0;
        while i < self.lista.len()
            invariant
                i <= self.lista@.len(),
                r@.len() == i,
                forall|k: int| 0 <= k < i ==> r@[k]@ == self@[k],
            decreases self.lista@.len() - i,
        {
            r.push(self.lista[i].clone());
            i = i + 1;
        }
        assert(vista_usuarios(r@) =~= self@);
        r
    }

    /// Lista de todos los usuarios, para quien tiene el rol de administración.
    pub fn lee_usuarios(&self, _administrador: &Administrador) -> (r: Vec<Usuario>)
        ensures
            vista_usuarios(r@) == self@,
    {
        self.instantanea()
    }

    /// Copia del usuario con identificador `id`.
    pub fn lee_usuario(&self, id: Id) -> (r: Result<Usuario, Fallo>)
        requires
            self.wf(),
        ensures
            r is Ok <==> existe_usuario(self@, id),
            r matches Ok(u) ==> u@ == usuario_de(self@, id),
            r matches Err(e) ==> e == Fallo::NoEncontrado,
    {
        match self.posicion(id) {
            Some(i) => {
                let u = self.lista[i].clone();
                proof {
                    let j = indice_usuario(self@, id);
                    assert(self@[j].id == self@[i as int].id);
                }
                Ok(u)
            },
            None => Err(Fallo::NoEncontrado),
        }
    }

    /// Crea una cuenta y devuelve su identificador, el valor del contador.
    /// Se guarda el resumen de la contraseña, no la contraseña.
    pub fn crea_usuario(&mut self, _administrador: &Administrador, nombre: String, clave: String, roles: Vec<String>) -> (r: Id)
        requires
            old(self).wf(),
            old(self).siguiente_id() < u64::MAX,
        ensures
            final(self).wf(),
            r == old(self).siguiente_id(),
            final(self).siguiente_id() == r + 1,
            final(self)@ == old(self)@.push(
                UsuarioVista { id: r, nombre: nombre@, clave: sha3_512_hex(clave@), roles: vista_roles(roles@) },
            ),
    {
        let resumen = ofusca_clave(&clave);
        let x = self.contador.lee_nuevo_id();
        self.lista.push(Usuario { id: x, nombre, clave: resumen, roles });
        proof {
            let k0 = choose|k: int| 0 <= k < old(self)@.len() && old(self)@[k].id == 0;
            assert(self@ =~= old(self)@.push(
                UsuarioVista { id: x, nombre: nombre@, clave: resumen@, roles: vista_roles(roles@) },
            ));
            assert(self@[k0].id == 0);
        }
        x
    }
}

/// Puntos de acceso de los usuarios: listar, crear, leer, cambiar y borrar.
pub fn rutas() -> (r: Vec<Ruta>)
    ensures
        vista_rutas(r@) == seq![
            RutaVista { metodo: Metodo::Get, camino: "/usuarios"@, rango: None },
            RutaVista { metodo: Metodo::Post, camino: "/usuario"@, rango: None },
            RutaVista { metodo: Metodo::Get, camino: "/usuario/<id>"@, rango: None },
            RutaVista { metodo: Metodo::Patch, camino: "/usuario/<id>"@, rango: None },
            RutaVista { metodo: Metodo::Delete, camino: "/usuario/<id>"@, rango: None },
        ],
{
    let mut r: Vec<Ruta> = Vec::new();
    r.push(ruta(Metodo::Get, "/usuarios", None));
    r.push(ruta(Metodo::Post, "/usuario", None));
    r.push(ruta(Metodo::Get, "/usuario/<id>", None));
    r.push(ruta(Metodo::Patch, "/usuario/<id>", None));
    r.push(ruta(Metodo::Delete, "/usuario/<id>", None));
    assert(vista_rutas(r@) =~= seq![
            RutaVista { metodo: Metodo::Get, camino: "/usuarios"@, rango: None },
        RutaVista { metodo: Metodo::Post, camino: "/usuario"@, rango: None },
        RutaVista { metodo: Metodo::Get, camino: "/usuario/<id>"@, rango: None },
        RutaVista { metodo: Metodo::Patch, camino: "/usuario/<id>"@, rango: None },
        RutaVista { metodo: Metodo::Delete, camino: "/usuario/<id>"@, rango: None },
    ]);
    r
}

} // verus!
