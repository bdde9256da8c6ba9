//! El registro: un estado explícito con el mapa de identidad a perfil y las
//! operaciones que lo consultan y lo mutan.
//!
//! El modelo matemático de cada operación es una función `spec` sobre
//! `Map<AccountId, Usuario>`; cada operación ejecutable asegura que su
//! resultado y el estado final coinciden con ese modelo.

use vstd::prelude::*;

use crate::roles::ErrorSistema;
use crate::roles::Rol;
use crate::roles::rol_combinado;
use crate::roles::rol_ya_cubierto;
use crate::usuario::AccountId;
use crate::usuario::Usuario;

verus! {

/// El perfil `u` con el rol reemplazado por `rol`.
pub open spec fn con_rol(u: Usuario, rol: Rol) -> Usuario {
    Usuario {
        nombre: u.nombre,
        apellido: u.apellido,
        email: u.email,
        id: u.id,
        rol: rol,
    }
}

/// Modelo de la registración: si la identidad ya tiene perfil, el estado no
/// cambia y se rechaza; si no, se inserta el perfil dado bajo su identidad.
pub open spec fn spec_registrar(m: Map<AccountId, Usuario>, u: Usuario) -> (
    Map<AccountId, Usuario>,
    Result<(), ErrorSistema>,
) {
    if m.contains_key(u.id) {
        (m, Err(ErrorSistema::UsuarioYaRegistrado))
    } else {
        (m.insert(u.id, u), Ok(()))
    }
}

/// Modelo de `agregar_rol`: sin perfil se rechaza; un rol que el vigente ya
/// cubre se rechaza sin cambiar el estado; si no, el rol asciende al join
/// del vigente con el nuevo y el resto del perfil queda igual.
pub open spec fn spec_agregar_rol(m: Map<AccountId, Usuario>, id: AccountId, rol: Rol) -> (
    Map<AccountId, Usuario>,
    Result<(), ErrorSistema>,
) {
    if !m.contains_key(id) {
        (m, Err(ErrorSistema::UsuarioNoExiste))
    } else if rol_ya_cubierto(m[id].rol, rol) {
        (m, Err(ErrorSistema::RolYaEnUso))
    } else {
        (m.insert(id, con_rol(m[id], rol_combinado(m[id].rol, rol))), Ok(()))
    }
}

/// Modelo de `existe_usuario`: la ausencia se informa como error, no como
/// `Ok(false)`.
pub open spec fn spec_existe_usuario(m: Map<AccountId, Usuario>, id: AccountId) -> Result<
    bool,
    ErrorSistema,
> {
    if m.contains_key(id) {
        Ok(true)
    } else {
        Err(ErrorSistema::UsuarioNoExiste)
    }
}

/// Modelo de `es_vendedor`: `Ok(true)` exactamente para `Vendedor` y `Ambos`.
pub open spec fn spec_es_vendedor(m: Map<AccountId, Usuario>, id: AccountId) -> Result<
    bool,
    ErrorSistema,
> {
    if m.contains_key(id) {
        Ok(m[id].rol == Rol::Vendedor || m[id].rol == Rol::Ambos)
    } else {
        Err(ErrorSistema::UsuarioNoExiste)
    }
}

/// Modelo de `es_comprador`: `Ok(true)` exactamente para `Comprador` y
/// `Ambos`.
pub open spec fn spec_es_comprador(m: Map<AccountId, Usuario>, id: AccountId) -> Result<
    bool,
    ErrorSistema,
> {
    if m.contains_key(id) {
        Ok(m[id].rol == Rol::Comprador || m[id].rol == Rol::Ambos)
    } else {
        Err(ErrorSistema::UsuarioNoExiste)
    }
}

/// Ninguna identidad aparece dos veces en la sucesión de perfiles.
pub open spec fn ids_unicos(s: Seq<Usuario>) -> bool {
    forall|i: int, j: int| 0 <= i < j < s.len() ==> s[i].id != s[j].id
}

/// El mapa de identidad a perfil que describe una sucesión de perfiles.
pub open spec fn mapa_de(s: Seq<Usuario>) -> Map<AccountId, Usuario>
    decreases s.len(),
{
    if s.len() == 0 {
        Map::empty()
    } else {
        mapa_de(s.drop_last()).insert(s.last().id, s.last())
    }
}

/// Las claves de `mapa_de(s)` son exactamente las identidades que aparecen
/// en `s`.
proof fn lema_mapa_de_claves(s: Seq<Usuario>, id: AccountId)
    ensures
        mapa_de(s).contains_key(id) <==> exists|i: int| 0 <= i < s.len() && s[i].id == id,
    decreases s.len(),
{
    if s.len() > 0 {
        lema_mapa_de_claves(s.drop_last(), id);
        if s.last().id == id {
            assert(s[s.len() - 1].id == id);
        } else if mapa_de(s).contains_key(id) {
            let i = choose|i: int| 0 <= i < s.drop_last().len() && s.drop_last()[i].id == id;
            assert(s[i].id == id);
        } else if exists|i: int| 0 <= i < s.len() && s[i].id == id {
            let i = choose|i: int| 0 <= i < s.len() && s[i].id == id;
            assert(s.drop_last()[i].id == id);
        }
    }
}

/// Con identidades únicas, `mapa_de(s)` guarda cada perfil bajo su
/// identidad.
proof fn lema_mapa_de_indice(s: Seq<Usuario>, i: int)
    requires
        ids_unicos(s),
        0 <= i < s.len(),
    ensures
        mapa_de(s).contains_key(s[i].id),
        mapa_de(s)[s[i].id] == s[i],
    decreases s.len(),
{
    if i < s.len() - 1 {
        assert(s.drop_last()[i] == s[i]);
        lema_mapa_de_indice(s.drop_last(), i);
        assert(s.last().id != s[i].id);
    }
}

/// Agregar un perfil al final de la sucesión inserta su entrada en el mapa.
proof fn lema_mapa_de_empujar(s: Seq<Usuario>, u: Usuario)
    ensures
        mapa_de(s.push(u)) == mapa_de(s).insert(u.id, u),
{
    assert(s.push(u).drop_last() =~= s);
    assert(s.push(u).last() == u);
}

/// Reemplazar el perfil en la posición `i` por otro con la misma identidad
/// actualiza solo esa entrada del mapa.
proof fn lema_mapa_de_actualizar(s: Seq<Usuario>, i: int, u: Usuario)
    requires
        ids_unicos(s),
        0 <= i < s.len(),
        u.id == s[i].id,
    ensures
        mapa_de(s.update(i, u)) == mapa_de(s).insert(u.id, u),
    decreases s.len(),
{
    let t = s.update(i, u);
    if i == s.len() - 1 {
        assert(t.drop_last() =~= s.drop_last());
        assert(t.last() == u);
        assert(mapa_de(t) == mapa_de(s.drop_last()).insert(u.id, u));
        assert(mapa_de(s.drop_last()).insert(s.last().id, s.last()).insert(u.id, u)
            =~= mapa_de(s.drop_last()).insert(u.id, u));
    } else {
        assert(t.drop_last() =~= s.drop_last().update(i, u));
        assert(t.last() == s.last());
        assert(s.drop_last()[i] == s[i]);
        lema_mapa_de_actualizar(s.drop_last(), i, u);
        assert(s.last().id != u.id);
        assert(mapa_de(s.drop_last()).insert(u.id, u).insert(s.last().id, s.last())
            =~= mapa_de(s.drop_last()).insert(s.last().id, s.last()).insert(u.id, u));
    }
}

/// El registro: el estado que el entorno anfitrión crea al inicio, conserva
/// entre llamadas y pasa a cada operación.
pub struct Sistema {
    value: bool,
    usuarios: Vec<Usuario>,
}

impl View for Sistema {
    type V = Map<AccountId, Usuario>;

    /// El contenido del registro, como mapa de identidad a perfil.
    closed spec fn view(&self) -> Map<AccountId, Usuario> {
        mapa_de(self.usuarios@)
    }
}

impl Sistema {
    /// Invariante del registro: a lo sumo un perfil por identidad.
    pub closed spec fn wf(&self) -> bool {
        ids_unicos(self.usuarios@)
    }

    /// El valor del conmutador booleano que el registro arrastra.
    pub closed spec fn valor(&self) -> bool {
        self.value
    }

    /// Crea un registro vacío con el conmutador en `init_value`.
    pub fn new(init_value: bool) -> (r: Sistema)
        ensures
            r.wf(),
            r@ == Map::<AccountId, Usuario>::empty(),
            r.valor() == init_value,
    {
        Sistema { value: init_value, usuarios: Vec::new() }
    }

    /// Crea un registro vacío con el conmutador en `false`.
    pub fn default() -> (r: Sistema)
        ensures
            r.wf(),
            r@ == Map::<AccountId, Usuario>::empty(),
            r.valor() == false,
    {
        Sistema::new(false)
    }

    /// Invierte el conmutador; el contenido del registro no cambia.
    pub fn flip(&mut self)
        ensures
            final(self).valor() == !old(self).valor(),
            final(self)@ == old(self)@,
            final(self).wf() == old(self).wf(),
    {
        self.value = !self.value;
    }

    /// Devuelve el valor del conmutador.
    pub fn get(&self) -> (r: bool)
        ensures
            r == self.valor(),
    {
        self.value
    }

    /// Posición del perfil de `id`, si hay alguno.
    fn buscar(&self, id: AccountId) -> (r: Option<usize>)
        ensures
            match r {
                Some(i) => i < self.usuarios@.len() && self.usuarios@[i as int].id == id,
                None => forall|j: int| 0 <= j < self.usuarios@.len() ==> self.usuarios@[j].id != id,
            },
    {
        let mut i: usize = 0;
        while i < self.usuarios.len()
            invariant
                i <= self.usuarios.len(),
                forall|j: int| 0 <= j < i ==> self.usuarios@[j].id != id,
            decreases self.usuarios.len() - i,
        {
            if self.usuarios[i].id == id {
                return Some(i);
            }
            i += 1;
        }
        None
    }

    /// Dice si `id` tiene perfil; la ausencia se informa como error.
    pub fn existe_usuario(&self, id: AccountId) -> (r: Result<bool, ErrorSistema>)
        requires
            self.wf(),
        ensures
            r == spec_existe_usuario(self@, id),
    {
        proof {
            lema_mapa_de_claves(self.usuarios@, id);
        }
        if self.buscar(id).is_some() {
            Ok(true)
        } else {
            Err(ErrorSistema::UsuarioNoExiste)
        }
    }

    /// Dice si el rol de `id` incluye la capacidad de vendedor.
    pub fn es_vendedor(&self, id: AccountId) -> (r: Result<bool, ErrorSistema>)
        requires
            self.wf(),
        ensures
            r == spec_es_vendedor(self@, id),
    {
        proof {
            lema_mapa_de_claves(self.usuarios@, id);
        }
        match self.buscar(id) {
            Some(i) => {
                proof {
                    lema_mapa_de_indice(self.usuarios@, i as int);
                }
                match self.usuarios[i].rol {
                    Rol::Vendedor | Rol::Ambos => Ok(true),
                    _ => Ok(false),
                }
            },
            None => Err(ErrorSistema::UsuarioNoExiste),
        }
    }

    /// Dice si el rol de `id` incluye la capacidad de comprador.
    pub fn es_comprador(&self, id: AccountId) -> (r: Result<bool, ErrorSistema>)
        requires
            self.wf(),
        ensures
            r == spec_es_comprador(self@, id),
    {
        proof {
            lema_mapa_de_claves(self.usuarios@, id);
        }
        match self.buscar(id) {
            Some(i) => {
                proof {
                    lema_mapa_de_indice(self.usuarios@, i as int);
                }
                match self.usuarios[i].rol {
                    Rol::Comprador | Rol::Ambos => Ok(true),
                    _ => Ok(false),
                }
            },
            None => Err(ErrorSistema::UsuarioNoExiste),
        }
    }

    /// Registra a `id` con el perfil dado, a lo sumo una vez: si ya tiene
    /// perfil no cambia nada y se rechaza con `UsuarioYaRegistrado`.
    pub fn registrar_usuario(
        &mut self,
        nombre: String,
        apellido: String,
        email: String,
        rol: Rol,
        id: AccountId,
    ) -> (r: Result<(), ErrorSistema>)
        requires
            old(self).wf(),
        ensures
            final(self).wf(),
            final(self)@ == spec_registrar(old(self)@, (Usuario { nombre, apellido, email, id, rol })).0,
            r == spec_registrar(old(self)@, (Usuario { nombre, apellido, email, id, rol })).1,
            final(self).valor() == old(self).valor(),
    {
        proof {
            lema_mapa_de_claves(self.usuarios@, id);
        }
        if self.buscar(id).is_some() {
            return Err(ErrorSistema::UsuarioYaRegistrado);
        }
        let u = Usuario { nombre, apellido, email, id, rol };
        proof {
            lema_mapa_de_empujar(self.usuarios@, u);
        }
        self.usuarios.push(u);
        Ok(())
    }

    /// Extiende el rol de `id` según la regla de fusión; sin perfil, o con
    /// un rol que el vigente ya cubre, se rechaza sin cambiar el estado.
    pub fn agregar_rol(&mut self, rol: Rol, id: AccountId) -> (r: Result<(), ErrorSistema>)
        requires
            old(self).wf(),
        ensures
            final(self).wf(),
            final(self)@ == spec_agregar_rol(old(self)@, id, rol).0,
            r == spec_agregar_rol(old(self)@, id, rol).1,
            final(self).valor() == old(self).valor(),
    {
        proof {
            lema_mapa_de_claves(self.usuarios@, id);
        }
        match self.buscar(id) {
            Some(i) => {
                proof {
                    lema_mapa_de_indice(self.usuarios@, i as int);
                }
                let ghost antes = self.usuarios@;
                let u = &mut self.usuarios[i];
                let r = u.agregar_rol(rol);
                proof {
                    if r is Err {
                        assert(antes.update(i as int, antes[i as int]) =~= antes);
                    } else {
                        lema_mapa_de_actualizar(antes, i as int, self.usuarios@[i as int]);
                    }
                }
                r
            },
            None => Err(ErrorSistema::UsuarioNoExiste),
        }
    }

    /// Devuelve una copia del perfil de `id`, si hay alguno.
    pub fn get_user(&self, id: AccountId) -> (r: Result<Usuario, ErrorSistema>)
        requires
            self.wf(),
        ensures
            self@.contains_key(id) ==> r == Ok::<Usuario, ErrorSistema>(self@[id]),
            !self@.contains_key(id) ==> r == Err::<Usuario, ErrorSistema>(
                ErrorSistema::UsuarioNoExiste,
            ),
    {
        proof {
            lema_mapa_de_claves(self.usuarios@, id);
        }
        match self.buscar(id) {
            Some(i) => {
                proof {
                    lema_mapa_de_indice(self.usuarios@, i as int);
                }
                let u = &self.usuarios[i];
                Ok(
                    Usuario {
                        nombre: u.nombre.clone(),
                        apellido: u.apellido.clone(),
                        email: u.email.clone(),
                        id: u.id,
                        rol: u.rol,
                    },
                )
            },
            None => Err(ErrorSistema::UsuarioNoExiste),
        }
    }
}

} // verus!
