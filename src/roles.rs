//! Guardas de rol: capacidades que sólo se obtienen tras comprobar la sesión,
//! el usuario y su rol.

use vstd::prelude::*;
use vstd::string::StringExecFns;

use crate::fallo::Fallo;
use crate::id::Id;
use crate::sesion::{consulta_spec, Sesion, SesionesActivas};
use crate::usuarios::{existe_usuario, tiene_rol, usuario_de, Usuario, UsuarioVista, Usuarios};

verus! {

/// Resultado de la cadena de guardas hasta el usuario: la sesión del símbolo
/// debe existir y no haber caducado, y su usuario debe seguir existiendo.
pub open spec fn usuario_autenticado(
    sesiones: Map<Seq<char>, Sesion>,
    usuarios: Seq<UsuarioVista>,
    simbolo: Seq<char>,
    ahora: u64,
) -> Result<UsuarioVista, Fallo> {
    match consulta_spec(sesiones, simbolo, ahora) {
        Ok(s) => if existe_usuario(usuarios, s.usuario) {
            Ok(usuario_de(usuarios, s.usuario))
        } else {
            Err(Fallo::NoAutorizado)
        },
        Err(e) => Err(e),
    }
}

/// Resultado de la guarda de rol: el identificador del usuario autenticado
/// si tiene el rol, `Prohibido` si no lo tiene.
pub open spec fn autoriza_rol_spec(
    sesiones: Map<Seq<char>, Sesion>,
    usuarios: Seq<UsuarioVista>,
    simbolo: Seq<char>,
    ahora: u64,
    rol: Seq<char>,
) -> Result<Id, Fallo> {
    match usuario_autenticado(sesiones, usuarios, simbolo, ahora) {
        Ok(u) => if u.roles.contains(rol) {
            Ok(u.id)
        } else {
            Err(Fallo::Prohibido)
        },
        Err(e) => Err(e),
    }
}

/// La guarda de rol: la cadena de guardas y, además, el rol pedido.
pub fn autoriza_rol(sesiones: &SesionesActivas, usuarios: &Usuarios, simbolo: &str, ahora: u64, rol: &String) -> (r:
    Result<Id, Fallo>)
    requires
        usuarios.wf(),
    ensures
        r == autoriza_rol_spec(sesiones@, usuarios@, simbolo@, ahora, rol@),
{
    let u = match Usuario::from_request(sesiones, usuarios, simbolo, ahora) {
        Ok(u) => u,
        Err(e) => return Err(e),
    };
    if tiene_rol(&u.roles, rol) {
        Ok(u.id)
    } else {
        Err(Fallo::Prohibido)
    }
}

impl Usuario {
    /// La cadena de guardas hasta el usuario autenticado.
    pub fn from_request(sesiones: &SesionesActivas, usuarios: &Usuarios, simbolo: &str, ahora: u64) -> (r: Result<
        Usuario,
        Fallo,
    >)
        requires
            usuarios.wf(),
        ensures
            r is Ok <==> usuario_autenticado(sesiones@, usuarios@, simbolo@, ahora) is Ok,
            r matches Ok(u) ==> usuario_autenticado(sesiones@, usuarios@, simbolo@, ahora) == Ok::<
                UsuarioVista,
                Fallo,
            >(u@),
            r matches Err(e) ==> usuario_autenticado(sesiones@, usuarios@, simbolo@, ahora) == Err::<
                UsuarioVista,
                Fallo,
            >(e),
    {
        let sesion = match sesiones.consulta(simbolo, ahora) {
            Ok(s) => s,
            Err(e) => return Err(e),
        };
        match usuarios.lee_usuario(sesion.usuario) {
            Ok(u) => Ok(u),
            Err(_) => Err(Fallo::NoAutorizado),
        }
    }
}

/// Capacidad de un usuario autenticado con el rol de administración.
pub struct Administrador {
    usuario: Id,
}

/// Capacidad de un usuario autenticado con el rol de edición.
pub struct Editor {
    usuario: Id,
}

impl Administrador {
    /// El usuario al que se concedió la capacidad.
    pub closed spec fn usuario(&self) -> Id {
        self.usuario
    }

    /// El identificador del usuario al que se concedió la capacidad.
    pub fn id_usuario(&self) -> (r: Id)
        ensures
            r == self.usuario(),
    {
        self.usuario
    }

    /// Concede la capacidad si el símbolo corresponde a una sesión viva de un
    /// usuario existente con el rol `Administrador`.
    pub fn from_request(sesiones: &SesionesActivas, usuarios: &Usuarios, simbolo: &str, ahora: u64) -> (r: Result<
        Administrador,
        Fallo,
    >)
        requires
            usuarios.wf(),
        ensures
            r is Ok <==> autoriza_rol_spec(sesiones@, usuarios@, simbolo@, ahora, "Administrador"@) is Ok,
            r matches Ok(a) ==> autoriza_rol_spec(sesiones@, usuarios@, simbolo@, ahora, "Administrador"@)
                == Ok::<Id, Fallo>(a.usuario()),
            r matches Err(e) ==> autoriza_rol_spec(sesiones@, usuarios@, simbolo@, ahora, "Administrador"@)
                == Err::<Id, Fallo>(e),
    {
        let rol = String::from_str("Administrador");
        match autoriza_rol(sesiones, usuarios, simbolo, ahora, &rol) {
            Ok(id) => Ok(Administrador { usuario: id }),
            Err(e) => Err(e),
        }
    }
}

impl Editor {
    /// El usuario al que se concedió la capacidad.
    pub closed spec fn usuario(&self) -> Id {
        self.usuario
    }

    /// El identificador del usuario al que se concedió la capacidad.
    pub fn id_usuario(&self) -> (r: Id)
        ensures
            r == self.usuario(),
    {
        self.usuario
    }

    /// Concede la capacidad si el símbolo corresponde a una sesión viva de un
    /// usuario existente con el rol `Editor`.
    pub fn from_request(sesiones: &SesionesActivas, usuarios: &Usuarios, simbolo: &str, ahora: u64) -> (r: Result<
        Editor,
        Fallo,
    >)
        requires
            usuarios.wf(),
        ensures
            r is Ok <==> autoriza_rol_spec(sesiones@, usuarios@, simbolo@, ahora, "Editor"@) is Ok,
            r matches Ok(a) ==> autoriza_rol_spec(sesiones@, usuarios@, simbolo@, ahora, "Editor"@) == Ok::<
                Id,
                Fallo,
            >(a.usuario()),
            r matches Err(e) ==> autoriza_rol_spec(sesiones@, usuarios@, simbolo@, ahora, "Editor"@) == Err::<
                Id,
                Fallo,
            >(e),
    {
        let rol = String::from_str("Editor");
        match autoriza_rol(sesiones, usuarios, simbolo, ahora, &rol) {
            Ok(id) => Ok(Editor { usuario: id }),
            Err(e) => Err(e),
        }
    }
}

} // verus!
