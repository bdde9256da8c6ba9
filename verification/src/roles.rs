//! Roles, errores y la regla de fusión de roles.

use vstd::prelude::*;

verus! {

/// Clasificación de una identidad registrada. `Ambos` equivale a tener a la
/// vez las capacidades de `Comprador` y de `Vendedor`.
#[derive(Clone, Copy, PartialEq, Eq, Structural, Debug)]
pub enum Rol {
    Comprador,
    Vendedor,
    Ambos,
}

/// Errores que devuelven las operaciones del registro.
#[derive(Clone, Copy, PartialEq, Eq, Structural, Debug)]
pub enum ErrorSistema {
    /// Se intentó registrar una identidad que ya tiene perfil.
    UsuarioYaRegistrado,
    /// Se consultó o modificó una identidad sin perfil.
    UsuarioNoExiste,
    /// Se intentó agregar un rol que la identidad ya tiene cubierto.
    RolYaEnUso,
}

/// Join del retículo de roles: dos roles iguales quedan como están y dos
/// distintos se funden en `Ambos` (en particular, `Ambos` absorbe a
/// cualquier otro).
pub open spec fn rol_combinado(actual: Rol, nuevo: Rol) -> Rol {
    if actual == nuevo {
        actual
    } else {
        Rol::Ambos
    }
}

/// El rol vigente ya cubre al nuevo cuando fusionarlos no agrega ninguna
/// capacidad: son el mismo rol, o el vigente ya es `Ambos`.
pub open spec fn rol_ya_cubierto(actual: Rol, nuevo: Rol) -> bool {
    rol_combinado(actual, nuevo) == actual
}

/// Tabla total de fusión de roles: para cada uno de los nueve pares posibles
/// dice si la combinación se rechaza (el rol vigente ya cubre al nuevo) o
/// qué rol resulta. El rol solo asciende en el retículo: una vez en `Ambos`,
/// todo agregado se rechaza.
pub fn combinar_roles(actual: Rol, nuevo: Rol) -> (r: Result<Rol, ErrorSistema>)
    ensures
        rol_ya_cubierto(actual, nuevo) ==> r == Err::<Rol, ErrorSistema>(ErrorSistema::RolYaEnUso),
        !rol_ya_cubierto(actual, nuevo) ==> r == Ok::<Rol, ErrorSistema>(
            rol_combinado(actual, nuevo),
        ),
{
    match (actual, nuevo) {
        (Rol::Comprador, Rol::Comprador) => Err(ErrorSistema::RolYaEnUso),
        (Rol::Vendedor, Rol::Vendedor) => Err(ErrorSistema::RolYaEnUso),
        (Rol::Ambos, Rol::Ambos) => Err(ErrorSistema::RolYaEnUso),
        (Rol::Ambos, Rol::Comprador) => Err(ErrorSistema::RolYaEnUso),
        (Rol::Ambos, Rol::Vendedor) => Err(ErrorSistema::RolYaEnUso),
        (Rol::Comprador, Rol::Vendedor) => Ok(Rol::Ambos),
        (Rol::Vendedor, Rol::Comprador) => Ok(Rol::Ambos),
        (Rol::Comprador, Rol::Ambos) => Ok(Rol::Ambos),
        (Rol::Vendedor, Rol::Ambos) => Ok(Rol::Ambos),
    }
}

} // verus!
