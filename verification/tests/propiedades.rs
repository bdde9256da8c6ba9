use usuarios_sistema::AccountId;
use usuarios_sistema::ErrorSistema;
use usuarios_sistema::Rol;
use usuarios_sistema::Sistema;
use usuarios_sistema::combinar_roles;

fn registrar(sistema: &mut Sistema, nombre: &str, email: &str, rol: Rol, id: AccountId) -> Result<(), ErrorSistema> {
    sistema.registrar_usuario(
        String::from(nombre),
        String::from("Surname"),
        String::from(email),
        rol,
        id,
    )
}

#[test]
fn unicidad_conserva_el_primer_perfil() {
    let a = AccountId { valor: 7 };
    let mut sistema = Sistema::new(false);

    assert_eq!(registrar(&mut sistema, "Alice", "alice.email", Rol::Comprador, a), Ok(()));
    assert_eq!(
        registrar(&mut sistema, "Mallory", "mallory.email", Rol::Vendedor, a),
        Err(ErrorSistema::UsuarioYaRegistrado)
    );

    let perfil = sistema.get_user(a).unwrap();
    assert_eq!(perfil.nombre, "Alice");
    assert_eq!(perfil.email, "alice.email");
    assert_eq!(perfil.id, a);
    assert_eq!(perfil.rol, Rol::Comprador);
}

#[test]
fn consultas_sobre_identidad_sin_registro() {
    let a = AccountId { valor: 7 };
    let mut sistema = Sistema::new(false);

    assert_eq!(sistema.existe_usuario(a), Err(ErrorSistema::UsuarioNoExiste));
    assert_eq!(sistema.es_vendedor(a), Err(ErrorSistema::UsuarioNoExiste));
    assert_eq!(sistema.es_comprador(a), Err(ErrorSistema::UsuarioNoExiste));
    assert_eq!(sistema.agregar_rol(Rol::Comprador, a), Err(ErrorSistema::UsuarioNoExiste));
    assert!(matches!(sistema.get_user(a), Err(ErrorSistema::UsuarioNoExiste)));
}

#[test]
fn clasificacion_por_rol() {
    let a = AccountId { valor: 1 };
    let b = AccountId { valor: 2 };
    let c = AccountId { valor: 3 };
    let mut sistema = Sistema::new(false);
    registrar(&mut sistema, "Alice", "alice.email", Rol::Comprador, a).unwrap();
    registrar(&mut sistema, "Bob", "bob.email", Rol::Vendedor, b).unwrap();
    registrar(&mut sistema, "Charlie", "charlie.email", Rol::Ambos, c).unwrap();

    assert_eq!(sistema.es_comprador(a), Ok(true));
    assert_eq!(sistema.es_vendedor(a), Ok(false));
    assert_eq!(sistema.es_comprador(b), Ok(false));
    assert_eq!(sistema.es_vendedor(b), Ok(true));
    assert_eq!(sistema.es_comprador(c), Ok(true));
    assert_eq!(sistema.es_vendedor(c), Ok(true));
}

#[test]
fn fusion_monotona_en_ambos_ordenes() {
    let a = AccountId { valor: 1 };
    let mut sistema = Sistema::new(false);
    registrar(&mut sistema, "Alice", "alice.email", Rol::Comprador, a).unwrap();
    assert_eq!(sistema.agregar_rol(Rol::Vendedor, a), Ok(()));
    assert_eq!(sistema.get_user(a).unwrap().rol, Rol::Ambos);

    let b = AccountId { valor: 2 };
    let mut sistema = Sistema::new(false);
    registrar(&mut sistema, "Bob", "bob.email", Rol::Vendedor, b).unwrap();
    assert_eq!(sistema.agregar_rol(Rol::Comprador, b), Ok(()));
    assert_eq!(sistema.get_user(b).unwrap().rol, Rol::Ambos);
}

#[test]
fn rechazo_del_rol_redundante() {
    let a = AccountId { valor: 1 };
    let mut sistema = Sistema::new(false);
    registrar(&mut sistema, "Alice", "alice.email", Rol::Vendedor, a).unwrap();

    assert_eq!(sistema.agregar_rol(Rol::Vendedor, a), Err(ErrorSistema::RolYaEnUso));
    assert_eq!(sistema.get_user(a).unwrap().rol, Rol::Vendedor);
}

#[test]
fn escenario_extremo_a_extremo() {
    let a = AccountId { valor: 10 };
    let mut sistema = Sistema::new(false);

    assert_eq!(registrar(&mut sistema, "Alice", "alice.email", Rol::Comprador, a), Ok(()));
    assert_eq!(sistema.es_comprador(a), Ok(true));
    assert_eq!(sistema.es_vendedor(a), Ok(false));
    assert_eq!(sistema.agregar_rol(Rol::Vendedor, a), Ok(()));
    assert_eq!(sistema.es_vendedor(a), Ok(true));
    assert_eq!(sistema.get_user(a).unwrap().rol, Rol::Ambos);
    assert_eq!(sistema.agregar_rol(Rol::Vendedor, a), Err(ErrorSistema::RolYaEnUso));
    assert_eq!(sistema.get_user(a).unwrap().rol, Rol::Ambos);
}

#[test]
fn ambos_absorbe_todo_agregado() {
    // Una vez en `Ambos` el rol no baja: todo agregado se rechaza como ya
    // cubierto; y agregar `Ambos` sobre un rol simple sí asciende.
    let a = AccountId { valor: 1 };
    let mut sistema = Sistema::new(false);
    registrar(&mut sistema, "Alice", "alice.email", Rol::Ambos, a).unwrap();

    assert_eq!(sistema.agregar_rol(Rol::Ambos, a), Err(ErrorSistema::RolYaEnUso));
    assert_eq!(sistema.agregar_rol(Rol::Vendedor, a), Err(ErrorSistema::RolYaEnUso));
    assert_eq!(sistema.agregar_rol(Rol::Comprador, a), Err(ErrorSistema::RolYaEnUso));
    assert_eq!(sistema.get_user(a).unwrap().rol, Rol::Ambos);

    let b = AccountId { valor: 2 };
    registrar(&mut sistema, "Bob", "bob.email", Rol::Comprador, b).unwrap();
    assert_eq!(sistema.agregar_rol(Rol::Ambos, b), Ok(()));
    assert_eq!(sistema.get_user(b).unwrap().rol, Rol::Ambos);
}

#[test]
fn tabla_de_combinacion_de_roles() {
    assert_eq!(combinar_roles(Rol::Comprador, Rol::Comprador), Err(ErrorSistema::RolYaEnUso));
    assert_eq!(combinar_roles(Rol::Vendedor, Rol::Vendedor), Err(ErrorSistema::RolYaEnUso));
    assert_eq!(combinar_roles(Rol::Ambos, Rol::Ambos), Err(ErrorSistema::RolYaEnUso));
    assert_eq!(combinar_roles(Rol::Ambos, Rol::Comprador), Err(ErrorSistema::RolYaEnUso));
    assert_eq!(combinar_roles(Rol::Ambos, Rol::Vendedor), Err(ErrorSistema::RolYaEnUso));
    assert_eq!(combinar_roles(Rol::Comprador, Rol::Vendedor), Ok(Rol::Ambos));
    assert_eq!(combinar_roles(Rol::Vendedor, Rol::Comprador), Ok(Rol::Ambos));
    assert_eq!(combinar_roles(Rol::Comprador, Rol::Ambos), Ok(Rol::Ambos));
    assert_eq!(combinar_roles(Rol::Vendedor, Rol::Ambos), Ok(Rol::Ambos));
}

#[test]
fn el_perfil_guarda_los_campos_dados() {
    let a = AccountId { valor: 42 };
    let mut sistema = Sistema::new(false);
    sistema
        .registrar_usuario(
            String::from("Alice"),
            String::from("Surname"),
            String::from("alice.email"),
            Rol::Comprador,
            a,
        )
        .unwrap();

    let perfil = sistema.get_user(a).unwrap();
    assert_eq!(perfil.nombre, "Alice");
    assert_eq!(perfil.apellido, "Surname");
    assert_eq!(perfil.email, "alice.email");
    assert_eq!(perfil.id, a);
    assert_eq!(perfil.rol, Rol::Comprador);
}

#[test]
fn el_conmutador_no_toca_el_registro() {
    let a = AccountId { valor: 1 };
    let mut sistema = Sistema::new(false);
    registrar(&mut sistema, "Alice", "alice.email", Rol::Comprador, a).unwrap();

    sistema.flip();
    assert_eq!(sistema.get(), true);
    assert_eq!(sistema.es_comprador(a), Ok(true));
    sistema.flip();
    assert_eq!(sistema.get(), false);
}
