use resoluciones::biblioteca::{Biblioteca, Cliente, EstadoPrestamo, Genero, Libro, Prestamo};
use resoluciones::fecha::Fecha;

#[test]
fn test_incrementar_copias() {
    let mut biblioteca = Biblioteca::new("Biblioteca1", "Calle 123");
    biblioteca.incrementar_copias(1234);
    assert_eq!(biblioteca.obtener_cantidad_copias(1234), Some(1));
}

#[test]
fn test_decrementar_copias() {
    let mut biblioteca = Biblioteca::new("Biblioteca1", "Calle 123");
    biblioteca.incrementar_copias(1234);
    assert!(biblioteca.decrementar_copias(1234));
    assert_eq!(biblioteca.obtener_cantidad_copias(1234), Some(0));
}

#[test]
fn test_realizar_prestamo() {
    let mut biblioteca = Biblioteca::new("Biblioteca1", "Calle 123");
    let cliente = Cliente::new("juan perez", 15547852, "juanmail@hotmail.com");
    let fecha = Fecha::new(15, 5, 2024);
    biblioteca.incrementar_copias(1234);
    assert!(biblioteca.realizar_prestamo(&cliente, 1234, fecha.clone()));
    assert_eq!(biblioteca.obtener_cantidad_copias(1234), Some(0));
}

#[test]
fn test_devolver_libro() {
    let mut biblioteca = Biblioteca::new("Biblioteca1", "Calle 123");
    let cliente = Cliente::new("juan perez", 15547852, "juanmail@hotmail.com");
    let fecha_prestamo = Fecha::new(15, 5, 2024);
    let libro = Libro::new(1234, "Un libro", "Algun Autor", 240, Genero::Tecnico);
    biblioteca.incrementar_copias(libro.isbn);
    biblioteca.realizar_prestamo(&cliente, libro.isbn, fecha_prestamo.clone());
    assert!(biblioteca.devolver_libro(&libro, &cliente, 10, 1, 2024));
    assert_eq!(biblioteca.obtener_cantidad_copias(libro.isbn), Some(1));
}

#[test]
fn test_ver_prestamos_por_vencer() {
    let mut biblioteca = Biblioteca::new("Biblioteca1", "Calle 123");
    let cliente = Cliente::new("juan perez", 15547852, "juanmail@hotmail.com");
    let fecha_prestamo = Fecha::new(15, 5, 2024);
    let fecha_actual = Fecha::new(16, 5, 2024);
    let libro = Libro::new(1234, "Un libro", "Algun Autor", 240, Genero::Tecnico);
    biblioteca.incrementar_copias(libro.isbn);
    biblioteca.realizar_prestamo(&cliente, libro.isbn, fecha_prestamo.clone());
    let prestamos_por_vencer = biblioteca.ver_prestamos_por_vencer(3, fecha_actual.clone());
    assert_eq!(prestamos_por_vencer.len(), 1);
}

#[test]
fn test_ver_prestamos_vencidos() {
    let mut biblioteca = Biblioteca::new("Biblioteca1", "Calle 123");
    let cliente = Cliente::new("juan perez", 15547852, "juanmail@hotmail.com");
    let fecha_prestamo = Fecha::new(15, 5, 2024);
    let fecha_actual = Fecha::new(16, 6, 2024);
    let libro = Libro::new(1234, "Un libro", "Algun Autor", 240, Genero::Tecnico);
    biblioteca.incrementar_copias(libro.isbn);
    biblioteca.realizar_prestamo(&cliente, libro.isbn, fecha_prestamo.clone());
    let prestamos_vencidos = biblioteca.ver_prestamos_vencidos(fecha_actual.clone());
    assert_eq!(prestamos_vencidos.len(), 1);
}

#[test]
fn copias_de_un_isbn_desconocido() {
    let mut biblioteca = Biblioteca::new("B", "D");
    assert_eq!(biblioteca.obtener_cantidad_copias(1), None);
    assert!(!biblioteca.decrementar_copias(1));
    assert_eq!(biblioteca.obtener_cantidad_copias(1), None);
    biblioteca.incrementar_copias(1);
    biblioteca.incrementar_copias(1);
    biblioteca.incrementar_copias(2);
    assert_eq!(biblioteca.obtener_cantidad_copias(1), Some(2));
    assert_eq!(biblioteca.obtener_cantidad_copias(2), Some(1));
    assert!(biblioteca.decrementar_copias(2));
    assert!(!biblioteca.decrementar_copias(2));
    assert_eq!(biblioteca.obtener_cantidad_copias(2), Some(0));
}

#[test]
fn clientes_iguales_y_distintos() {
    let a = Cliente::new("ana", 1, "ana@mail");
    assert!(a == Cliente::new("ana", 1, "ana@mail"));
    assert!(a == a.clone());
    assert!(a != Cliente::new("ana ", 1, "ana@mail"));
    assert!(a != Cliente::new("ana", 2, "ana@mail"));
    assert!(a != Cliente::new("ana", 1, "otra@mail"));
}

#[test]
fn prestamo_nuevo_no_esta_devuelto() {
    let p = Prestamo::new(7, Cliente::new("ana", 1, "m"), Fecha::new(1, 2, 2024), None);
    assert!(!p.fue_devuelto());
    assert!(p.estado == EstadoPrestamo::EnPrestamo);
    let q = p.clone();
    assert_eq!(q.isbn_libro, 7);
    assert_eq!(q.vencimiento, Fecha::new(1, 2, 2024));
    assert_eq!(q.fecha_devolucion, None);
    assert!(q.cliente == p.cliente);
}

#[test]
fn realizar_prestamo_sin_copias_no_cambia_nada() {
    let mut biblioteca = Biblioteca::new("B", "D");
    let cliente = Cliente::new("ana", 1, "m");
    assert!(!biblioteca.realizar_prestamo(&cliente, 5, Fecha::new(1, 1, 2024)));
    assert_eq!(biblioteca.obtener_cantidad_copias(5), None);
    biblioteca.incrementar_copias(5);
    assert!(biblioteca.realizar_prestamo(&cliente, 5, Fecha::new(1, 1, 2024)));
    assert!(!biblioteca.realizar_prestamo(&cliente, 5, Fecha::new(1, 1, 2024)));
    assert_eq!(biblioteca.historial_prestamos.len(), 1);
    assert_eq!(biblioteca.contar_prestamos(&cliente), 1);
}

#[test]
fn realizar_prestamo_con_seis_prestamos_activos_se_niega() {
    let mut biblioteca = Biblioteca::new("B", "D");
    let cliente = Cliente::new("ana", 1, "m");
    let otro = Cliente::new("luis", 2, "l");
    for _ in 0..10 {
        biblioteca.incrementar_copias(5);
    }
    for k in 0..6 {
        assert_eq!(biblioteca.contar_prestamos(&cliente), k);
        assert!(biblioteca.realizar_prestamo(&cliente, 5, Fecha::new(1, 1, 2024)));
    }
    assert_eq!(biblioteca.contar_prestamos(&cliente), 6);
    assert!(!biblioteca.realizar_prestamo(&cliente, 5, Fecha::new(1, 1, 2024)));
    assert_eq!(biblioteca.obtener_cantidad_copias(5), Some(4));
    assert_eq!(biblioteca.historial_prestamos.len(), 6);
    assert_eq!(biblioteca.contar_prestamos(&otro), 0);
    assert!(biblioteca.realizar_prestamo(&otro, 5, Fecha::new(1, 1, 2024)));

    // a returned loan no longer counts
    let libro = Libro::new(5, "t", "a", 1, Genero::Novela);
    assert!(biblioteca.devolver_libro(&libro, &cliente, 2, 1, 2024));
    assert_eq!(biblioteca.contar_prestamos(&cliente), 5);
    assert!(biblioteca.realizar_prestamo(&cliente, 5, Fecha::new(1, 1, 2024)));
}

#[test]
fn devolver_libro_marca_el_primer_prestamo() {
    let mut biblioteca = Biblioteca::new("B", "D");
    let ana = Cliente::new("ana", 1, "m");
    let luis = Cliente::new("luis", 2, "l");
    let libro = Libro::new(5, "t", "a", 1, Genero::Infantil);
    let otro_libro = Libro::new(6, "t", "a", 1, Genero::Otros);
    biblioteca.incrementar_copias(5);
    biblioteca.incrementar_copias(5);
    assert!(biblioteca.realizar_prestamo(&luis, 5, Fecha::new(1, 1, 2024)));
    assert!(biblioteca.realizar_prestamo(&ana, 5, Fecha::new(2, 1, 2024)));

    assert!(!biblioteca.devolver_libro(&otro_libro, &ana, 3, 1, 2024));
    assert_eq!(biblioteca.obtener_cantidad_copias(5), Some(0));
    assert_eq!(biblioteca.obtener_cantidad_copias(6), None);

    assert!(biblioteca.devolver_libro(&libro, &ana, 3, 1, 2024));
    assert!(!biblioteca.historial_prestamos[0].fue_devuelto());
    assert!(biblioteca.historial_prestamos[1].fue_devuelto());
    assert_eq!(biblioteca.historial_prestamos[1].fecha_devolucion, Some(Fecha::new(3, 1, 2024)));
    assert_eq!(biblioteca.historial_prestamos[0].fecha_devolucion, None);
    assert_eq!(biblioteca.obtener_cantidad_copias(5), Some(1));
}

#[test]
fn buscar_prestamo_da_acceso_al_primero() {
    let mut biblioteca = Biblioteca::new("B", "D");
    let ana = Cliente::new("ana", 1, "m");
    let libro = Libro::new(5, "t", "a", 1, Genero::Tecnico);
    assert!(biblioteca.buscar_prestamo(&libro, &ana).is_none());
    biblioteca.agregar_prestamo_historial(&Prestamo::new(4, ana.clone(), Fecha::new(1, 1, 2024), None));
    biblioteca.agregar_prestamo_historial(&Prestamo::new(5, ana.clone(), Fecha::new(2, 1, 2024), None));
    biblioteca.agregar_prestamo_historial(&Prestamo::new(5, ana.clone(), Fecha::new(3, 1, 2024), None));
    {
        let p = biblioteca.buscar_prestamo(&libro, &ana).unwrap();
        assert_eq!(p.vencimiento, Fecha::new(2, 1, 2024));
        p.vencimiento = Fecha::new(9, 9, 2029);
    }
    assert_eq!(biblioteca.historial_prestamos[0].vencimiento, Fecha::new(1, 1, 2024));
    assert_eq!(biblioteca.historial_prestamos[1].vencimiento, Fecha::new(9, 9, 2029));
    assert_eq!(biblioteca.historial_prestamos[2].vencimiento, Fecha::new(3, 1, 2024));
}

#[test]
fn prestamos_vencidos_en_orden() {
    let mut biblioteca = Biblioteca::new("B", "D");
    let ana = Cliente::new("ana", 1, "m");
    for (isbn, dia) in [(1u32, 10u32), (2, 20), (3, 5), (4, 15)] {
        biblioteca.agregar_prestamo_historial(&Prestamo::new(isbn, ana.clone(), Fecha::new(dia, 6, 2024), None));
    }
    let vencidos = biblioteca.ver_prestamos_vencidos(Fecha::new(15, 6, 2024));
    let isbns: Vec<u32> = vencidos.iter().map(|p| p.isbn_libro).collect();
    assert_eq!(isbns, vec![1, 3]);
    assert!(biblioteca.ver_prestamos_vencidos(Fecha::new(5, 6, 2024)).is_empty());
}

#[test]
fn por_vencer_avanza_la_fecha_con_cada_prestamo() {
    let mut biblioteca = Biblioteca::new("B", "D");
    let ana = Cliente::new("ana", 1, "m");
    // every loan is due on 20 June; the date starts on 10 June and moves 4 days per loan
    for isbn in 1u32..=4 {
        biblioteca.agregar_prestamo_historial(&Prestamo::new(isbn, ana.clone(), Fecha::new(20, 6, 2024), None));
    }
    let lista = biblioteca.ver_prestamos_por_vencer(4, Fecha::new(10, 6, 2024));
    // dates held against the loans: 14, 18, 22, 26 June
    let isbns: Vec<u32> = lista.iter().map(|p| p.isbn_libro).collect();
    assert_eq!(isbns, vec![3, 4]);
    assert!(biblioteca.ver_prestamos_por_vencer(0, Fecha::new(20, 6, 2024)).is_empty());
    assert_eq!(biblioteca.ver_prestamos_por_vencer(0, Fecha::new(21, 6, 2024)).len(), 4);
}
