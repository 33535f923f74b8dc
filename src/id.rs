//! Asignador de identificadores: entrega valores únicos y crecientes.

use vstd::prelude::*;

verus! {

/// Identificador de un documento o de un usuario.
pub type Id = u64;

/// Contador de identificadores. El `0` está reservado para la raíz (o la
/// cuenta de administración semilla), por eso el primer valor entregado es `1`.
pub struct ContadorIds {
    siguiente: Id,
}

impl ContadorIds {
    /// El próximo valor que entregará `lee_nuevo_id`.
    pub closed spec fn siguiente(&self) -> Id {
        self.siguiente
    }

    /// Un contador que empezará por `siguiente`.
    pub fn nuevo(siguiente: Id) -> (r: ContadorIds)
        ensures
            r.siguiente() == siguiente,
    {
        ContadorIds { siguiente }
    }

    /// Consulta el próximo valor sin consumirlo.
    pub fn consulta(&self) -> (r: Id)
        ensures
            r == self.siguiente(),
    {
        self.siguiente
    }

    /// Entrega el valor actual del contador y lo incrementa.
    pub fn lee_nuevo_id(&mut self) -> (r: Id)
        requires
            old(self).siguiente() < u64::MAX,
        ensures
            r == old(self).siguiente(),
            final(self).siguiente() == old(self).siguiente() + 1,
    {
        let id = self.siguiente;
        self.siguiente = self.siguiente + 1;
        id
    }
}

} // verus!
