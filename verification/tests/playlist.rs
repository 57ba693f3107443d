use resoluciones::playlist::{Cancion, Genero, Playlist};

#[test]
fn test_agregar_cancion() {
    let mut playlist = Playlist::new(String::from("Mi Playlist"));
    let cancion = Cancion::new("Titulo1".to_string(), "Artista1".to_string(), Genero::Rock);
    playlist.agregar_cancion(cancion);
    assert_eq!(playlist.lista_canciones.len(), 1);
    assert_eq!(playlist.lista_canciones[0].titulo, "Titulo1");
}

#[test]
fn test_eliminar_cancion() {
    let mut playlist = Playlist::new(String::from("Mi Playlist"));
    let cancion = Cancion::new("Titulo1".to_string(), "Artista1".to_string(), Genero::Rock);
    playlist.agregar_cancion(cancion);
    playlist.eliminar_cancion(&Cancion::new("Titulo1".to_string(), "Artista1".to_string(), Genero::Rock));
       assert_eq!(playlist.lista_canciones.len(), 0);
}

#[test]
fn test_mover_cancion() {
    let mut playlist = Playlist::new(String::from("Mi Playlist"));
    let cancion1 = Cancion::new("Titulo1".to_string(), "Artista1".to_string(), Genero::Rock);
    let cancion2 = Cancion::new("Titulo2".to_string(), "Artista2".to_string(), Genero::Rap);
    playlist.agregar_cancion(cancion1);
    playlist.agregar_cancion(cancion2);
    playlist.mover_cancion(&Cancion::new("Titulo2".to_string(), "Artista2".to_string(), Genero::Rap), 1);
    assert_eq!(playlist.lista_canciones[1].titulo, "Titulo2");
}

#[test]
fn test_buscar_cancion_por_nombre() {
    let mut playlist = Playlist::new(String::from("Mi Playlist"));
    let cancion = Cancion::new("Titulo1".to_string(), "Artista1".to_string(), Genero::Rock);
    playlist.agregar_cancion(cancion);
    let cancion_a_encontrar = Cancion::new("Titulo1".to_string(), "Artista1".to_string(), Genero::Rock);
    assert!(playlist.buscar_cancion_por_nombre("Titulo1".to_string()).unwrap().es_igual(&cancion_a_encontrar));
}

#[test]
fn test_obtener_por_genero() {
    let mut playlist = Playlist::new(String::from("Mi Playlist"));
    let cancion1 = Cancion::new("Titulo1".to_string(), "Artista1".to_string(), Genero::Rock);
    let cancion2 = Cancion::new("Titulo2".to_string(), "Artista2".to_string(), Genero::Otros);
    
    playlist.agregar_cancion(cancion1.into());
    playlist.agregar_cancion(cancion2.into());

    let canciones_rock = playlist.obtener_por_genero(Genero::Rock);
    assert_eq!(canciones_rock.len(), 1);
    assert_eq!(canciones_rock[0].titulo, "Titulo1");
}

#[test]
fn test_obtener_por_artista() {
    let mut playlist = Playlist::new(String::from("Mi Playlist"));
    let cancion1 = Cancion::new("Titulo1".to_string(), "Artista1".to_string(), Genero::Rock); 
    let cancion2 = Cancion::new("Titulo2".to_string(), "Artista1".to_string(), Genero::Otros);

    playlist.agregar_cancion(cancion1.into());
    playlist.agregar_cancion(cancion2.into());

    let canciones_queen = playlist.obtener_por_artista(String::from("Artista1"));
    assert_eq!(canciones_queen.len(), 2);
    assert_eq!(canciones_queen[0].titulo, "Titulo1");
    assert_eq!(canciones_queen[1].titulo, "Titulo2");
}

#[test]
fn test_modificar_titulo() {
    let mut playlist = Playlist::new("MiPlaylist".to_string());
    playlist.modificar_titulo("Nueva Playlist".to_string());
    assert_eq!(playlist.nombre, String::from("Nueva Playlist"));
}

#[test]
fn test_vaciar_playlist() {
    let mut playlist = Playlist::new(String::from("Mi Playlist"));
    playlist.agregar_cancion(Cancion::new("Titulo1".to_string(), "Artista1".to_string(), Genero::Rock));
    assert_eq!(playlist.lista_canciones.len(), 1) ;
    playlist.vaciar_playlist();
    assert_eq!(playlist.lista_canciones.len(), 0);
}

fn cancion(titulo: &str, artista: &str, genero: Genero) -> Cancion {
    Cancion::new(titulo.to_string(), artista.to_string(), genero)
}

fn titulos(playlist: &Playlist) -> Vec<String> {
    playlist.lista_canciones.iter().map(|c| c.titulo.clone()).collect()
}

#[test]
fn generos_iguales_y_distintos() {
    let todos = [Genero::Rock, Genero::Pop, Genero::Rap, Genero::Jazz, Genero::Otros];
    for (i, a) in todos.iter().enumerate() {
        for (j, b) in todos.iter().enumerate() {
            assert_eq!(a.es_igual(b), i == j);
        }
    }
}

#[test]
fn etiquetas_de_genero() {
    assert_eq!(cancion("t", "a", Genero::Jazz).genero_comparable(), "jazz");
    assert_eq!(cancion("t", "a", Genero::Pop).genero_comparable(), "pop");
    assert_eq!(cancion("t", "a", Genero::Rap).genero_comparable(), "rap");
    assert_eq!(cancion("t", "a", Genero::Rock).genero_comparable(), "rock");
    assert_eq!(cancion("t", "a", Genero::Otros).genero_comparable(), "otros");
}

#[test]
fn canciones_iguales_y_distintas() {
    let c = cancion("t", "a", Genero::Rap);
    assert!(c.es_igual(&cancion("t", "a", Genero::Rap)));
    assert!(!c.es_igual(&cancion("t", "a", Genero::Pop)));
    assert!(!c.es_igual(&cancion("t", "b", Genero::Rap)));
    assert!(!c.es_igual(&cancion("u", "a", Genero::Rap)));
}

#[test]
fn eliminar_quita_solo_la_primera_igual() {
    let mut playlist = Playlist::new("p".to_string());
    playlist.agregar_cancion(cancion("a", "x", Genero::Rock));
    playlist.agregar_cancion(cancion("b", "x", Genero::Rock));
    playlist.agregar_cancion(cancion("a", "x", Genero::Rock));
    playlist.eliminar_cancion(&cancion("a", "x", Genero::Rock));
    assert_eq!(titulos(&playlist), vec!["b", "a"]);
    playlist.eliminar_cancion(&cancion("z", "x", Genero::Rock));
    assert_eq!(titulos(&playlist), vec!["b", "a"]);
    assert_eq!(playlist.nombre, "p");
}

#[test]
fn mover_cambia_el_orden() {
    let mut playlist = Playlist::new("p".to_string());
    for t in ["a", "b", "c", "d"] {
        playlist.agregar_cancion(cancion(t, "x", Genero::Pop));
    }
    playlist.mover_cancion(&cancion("a", "x", Genero::Pop), 2);
    assert_eq!(titulos(&playlist), vec!["b", "c", "a", "d"]);
    playlist.mover_cancion(&cancion("d", "x", Genero::Pop), 0);
    assert_eq!(titulos(&playlist), vec!["d", "b", "c", "a"]);
    playlist.mover_cancion(&cancion("b", "x", Genero::Pop), 3);
    assert_eq!(titulos(&playlist), vec!["d", "c", "a", "b"]);
    // a position outside the list, or a song that is not there: nothing moves
    playlist.mover_cancion(&cancion("d", "x", Genero::Pop), 4);
    assert_eq!(titulos(&playlist), vec!["d", "c", "a", "b"]);
    playlist.mover_cancion(&cancion("z", "x", Genero::Pop), 1);
    assert_eq!(titulos(&playlist), vec!["d", "c", "a", "b"]);
}

#[test]
fn buscar_por_nombre_da_la_primera() {
    let mut playlist = Playlist::new("p".to_string());
    playlist.agregar_cancion(cancion("a", "x", Genero::Pop));
    playlist.agregar_cancion(cancion("b", "y", Genero::Jazz));
    playlist.agregar_cancion(cancion("b", "z", Genero::Rap));
    assert_eq!(playlist.buscar_cancion_por_nombre("b".to_string()).unwrap().artista, "y");
    assert!(playlist.buscar_cancion_por_nombre("c".to_string()).is_none());
}

#[test]
fn filtros_conservan_el_orden() {
    let mut playlist = Playlist::new("p".to_string());
    playlist.agregar_cancion(cancion("a", "x", Genero::Pop));
    playlist.agregar_cancion(cancion("b", "y", Genero::Jazz));
    playlist.agregar_cancion(cancion("c", "x", Genero::Jazz));
    playlist.agregar_cancion(cancion("d", "y", Genero::Pop));
    let jazz: Vec<&str> = playlist.obtener_por_genero(Genero::Jazz).iter().map(|c| c.titulo.as_str()).collect();
    assert_eq!(jazz, vec!["b", "c"]);
    let de_y: Vec<&str> =
        playlist.obtener_por_artista("y".to_string()).iter().map(|c| c.titulo.as_str()).collect();
    assert_eq!(de_y, vec!["b", "d"]);
    assert!(playlist.obtener_por_genero(Genero::Rock).is_empty());
    assert!(playlist.obtener_por_artista("nadie".to_string()).is_empty());
}
