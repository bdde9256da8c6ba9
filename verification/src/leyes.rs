//! Leyes del registro, probadas sobre el modelo `Map` que usan los
//! contratos de `Sistema`.

use vstd::prelude::*;

use crate::roles::ErrorSistema;
use crate::roles::Rol;
use crate::sistema::spec_agregar_rol;
use crate::sistema::spec_es_comprador;
use crate::sistema::spec_es_vendedor;
use crate::sistema::spec_existe_usuario;
use crate::sistema::spec_registrar;
use crate::usuario::AccountId;
use crate::usuario::Usuario;

verus! {

/// Unicidad: tras un registro exitoso de una identidad, cualquier segundo
/// registro de la misma identidad se rechaza con `UsuarioYaRegistrado`, el
/// estado no cambia, y el perfil guardado sigue siendo el del primer
/// registro.
pub proof fn ley_registro_unico(m: Map<AccountId, Usuario>, u1: Usuario, u2: Usuario)
    requires
        spec_registrar(m, u1).1 == Ok::<(), ErrorSistema>(()),
        u2.id == u1.id,
    ensures
        ({
            let m1 = spec_registrar(m, u1).0;
            &&& spec_registrar(m1, u2).1 == Err::<(), ErrorSistema>(
                ErrorSistema::UsuarioYaRegistrado,
            )
            &&& spec_registrar(m1, u2).0 == m1
            &&& m1[u1.id] == u1
        }),
{
}

/// Consulta sin registro: para una identidad sin perfil, `existe_usuario`,
/// `es_vendedor`, `es_comprador` y `agregar_rol` devuelven todos
/// `UsuarioNoExiste`, y `agregar_rol` no cambia el estado.
pub proof fn ley_consulta_sin_registro(m: Map<AccountId, Usuario>, id: AccountId, rol: Rol)
    requires
        !m.contains_key(id),
    ensures
        spec_existe_usuario(m, id) == Err::<bool, ErrorSistema>(ErrorSistema::UsuarioNoExiste),
        spec_es_vendedor(m, id) == Err::<bool, ErrorSistema>(ErrorSistema::UsuarioNoExiste),
        spec_es_comprador(m, id) == Err::<bool, ErrorSistema>(ErrorSistema::UsuarioNoExiste),
        spec_agregar_rol(m, id, rol).1 == Err::<(), ErrorSistema>(ErrorSistema::UsuarioNoExiste),
        spec_agregar_rol(m, id, rol).0 == m,
{
}

/// Clasificación correcta: un perfil con rol `Comprador` es comprador y no
/// vendedor; uno con `Vendedor`, lo simétrico; uno con `Ambos`, las dos
/// cosas.
pub proof fn ley_clasificacion_de_roles(m: Map<AccountId, Usuario>, id: AccountId)
    requires
        m.contains_key(id),
    ensures
        m[id].rol == Rol::Comprador ==> spec_es_comprador(m, id) == Ok::<bool, ErrorSistema>(true)
            && spec_es_vendedor(m, id) == Ok::<bool, ErrorSistema>(false),
        m[id].rol == Rol::Vendedor ==> spec_es_vendedor(m, id) == Ok::<bool, ErrorSistema>(true)
            && spec_es_comprador(m, id) == Ok::<bool, ErrorSistema>(false),
        m[id].rol == Rol::Ambos ==> spec_es_vendedor(m, id) == Ok::<bool, ErrorSistema>(true)
            && spec_es_comprador(m, id) == Ok::<bool, ErrorSistema>(true),
{
}

/// Fusión monótona: registrarse con uno de los dos roles simples y agregar
/// después el otro deja el rol en `Ambos`.
pub proof fn ley_fusion_monotona(m: Map<AccountId, Usuario>, u: Usuario, otro: Rol)
    requires
        spec_registrar(m, u).1 == Ok::<(), ErrorSistema>(()),
        (u.rol == Rol::Comprador && otro == Rol::Vendedor) || (u.rol == Rol::Vendedor && otro
            == Rol::Comprador),
    ensures
        ({
            let m1 = spec_registrar(m, u).0;
            &&& spec_agregar_rol(m1, u.id, otro).1 == Ok::<(), ErrorSistema>(())
            &&& spec_agregar_rol(m1, u.id, otro).0[u.id].rol == Rol::Ambos
        }),
{
}

/// Absorción de `Ambos`: un perfil cuyo rol es `Ambos` nunca lo pierde;
/// cualquier `agregar_rol` sobre él se rechaza con `RolYaEnUso` y el estado
/// no cambia.
pub proof fn ley_ambos_absorbe(m: Map<AccountId, Usuario>, id: AccountId, rol: Rol)
    requires
        m.contains_key(id),
        m[id].rol == Rol::Ambos,
    ensures
        spec_agregar_rol(m, id, rol).1 == Err::<(), ErrorSistema>(ErrorSistema::RolYaEnUso),
        spec_agregar_rol(m, id, rol).0 == m,
        spec_agregar_rol(m, id, rol).0[id].rol == Rol::Ambos,
{
}

/// Rechazo del rol redundante: agregar a un perfil exactamente el rol con
/// el que acaba de registrarse se rechaza con `RolYaEnUso` y deja el estado,
/// y en particular el rol, sin cambio.
pub proof fn ley_rechazo_rol_redundante(m: Map<AccountId, Usuario>, u: Usuario)
    requires
        spec_registrar(m, u).1 == Ok::<(), ErrorSistema>(()),
    ensures
        ({
            let m1 = spec_registrar(m, u).0;
            &&& spec_agregar_rol(m1, u.id, u.rol).1 == Err::<(), ErrorSistema>(
                ErrorSistema::RolYaEnUso,
            )
            &&& spec_agregar_rol(m1, u.id, u.rol).0 == m1
            &&& m1[u.id].rol == u.rol
        }),
{
}

} // verus!
