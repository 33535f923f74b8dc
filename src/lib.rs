//! Almacén autenticado de documentos jerárquicos: un árbol de documentos con
//! sus reglas de coherencia, un directorio de usuarios, una tabla de sesiones
//! y la cadena de guardas que autoriza cada operación.

pub mod archivos;
pub mod documentos;
pub mod fallo;
pub mod id;
pub mod roles;
pub mod ruta;
pub mod sesion;
pub mod usuarios;

pub use documentos::{DocVista, Documento, Documentos};
pub use fallo::{Fallo, RespuestaError};
pub use id::{ContadorIds, Id};
pub use roles::{Administrador, Editor};
pub use ruta::{Metodo, Ruta};
pub use sesion::{Sesion, SesionesActivas};
pub use usuarios::{ConfigAdmin, Usuario, Usuarios};
