//! Identidades y perfiles de usuario.

use vstd::prelude::*;

use crate::roles::ErrorSistema;
use crate::roles::Rol;
use crate::roles::combinar_roles;
use crate::roles::rol_combinado;
use crate::roles::rol_ya_cubierto;

verus! {

/// Identidad opaca de un principal (por ejemplo, una dirección derivada de
/// una clave pública). Solo se compara por igualdad.
#[derive(Clone, Copy, PartialEq, Eq, Structural, Hash, Debug)]
pub struct AccountId {
    pub valor: u128,
}

/// Perfil de una identidad registrada. `id` repite la clave bajo la que el
/// registro guarda el perfil, para que el valor sea autocontenido.
#[derive(PartialEq, Eq, Debug)]
pub struct Usuario {
    pub nombre: String,
    pub apellido: String,
    pub email: String,
    pub id: AccountId,
    pub rol: Rol,
}

impl Usuario {
    /// Extiende la clasificación del perfil: rechaza un rol que el vigente
    /// ya cubre y, si no, asciende al join de los dos. El rol nunca baja en
    /// el retículo y ningún otro campo cambia.
    pub fn agregar_rol(&mut self, rol: Rol) -> (r: Result<(), ErrorSistema>)
        ensures
            rol_ya_cubierto(old(self).rol, rol) ==> r == Err::<(), ErrorSistema>(
                ErrorSistema::RolYaEnUso,
            ) && *final(self) == *old(self),
            !rol_ya_cubierto(old(self).rol, rol) ==> r == Ok::<(), ErrorSistema>(())
                && final(self).rol == rol_combinado(old(self).rol, rol)
                && final(self).nombre == old(self).nombre
                && final(self).apellido == old(self).apellido
                && final(self).email == old(self).email
                && final(self).id == old(self).id,
    {
        match combinar_roles(self.rol, rol) {
            Ok(nuevo) => {
                self.rol = nuevo;
                Ok(())
            },
            Err(e) => Err(e),
        }
    }
}

} // verus!
