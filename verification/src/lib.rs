//! Registro de identidades y roles.
//!
//! Una identidad se registra una sola vez con un perfil y un rol
//! (`Comprador`, `Vendedor` o `Ambos`); cualquier consulta posterior puede
//! preguntar por su clasificación, y `agregar_rol` combina el rol vigente
//! con uno nuevo según la regla de fusión del retículo de roles.
//! El estado es un objeto explícito (`Sistema`) y la identidad que actúa se
//! pasa como parámetro en cada operación: la resolución del llamador y la
//! persistencia quedan a cargo del entorno que aloja al registro.

pub mod leyes;
pub mod roles;
pub mod sistema;
pub mod usuario;

pub use roles::ErrorSistema;
pub use roles::Rol;
pub use roles::combinar_roles;
pub use sistema::Sistema;
pub use usuario::AccountId;
pub use usuario::Usuario;
