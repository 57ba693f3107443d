use resoluciones::suscripciones::{posicion_del_maximo, MedioDepago, TipoSuscripcion};

#[test]
fn subir_de_nivel() {
    assert_eq!(TipoSuscripcion::Basic.superior(), TipoSuscripcion::Clasic);
    assert_eq!(TipoSuscripcion::Clasic.superior(), TipoSuscripcion::Super);
    assert_eq!(TipoSuscripcion::Super.superior(), TipoSuscripcion::Super);
}

#[test]
fn bajar_de_nivel() {
    assert_eq!(TipoSuscripcion::Super.inferior(), Some(TipoSuscripcion::Clasic));
    assert_eq!(TipoSuscripcion::Clasic.inferior(), Some(TipoSuscripcion::Basic));
    assert_eq!(TipoSuscripcion::Basic.inferior(), None);
}

#[test]
fn bajar_deshace_subir_salvo_en_el_tope() {
    assert_eq!(TipoSuscripcion::Basic.superior().inferior(), Some(TipoSuscripcion::Basic));
    assert_eq!(TipoSuscripcion::Clasic.superior().inferior(), Some(TipoSuscripcion::Clasic));
    assert_eq!(TipoSuscripcion::Super.superior().inferior(), Some(TipoSuscripcion::Clasic));
}

#[test]
fn clones_iguales() {
    assert_eq!(TipoSuscripcion::Clasic.clone(), TipoSuscripcion::Clasic);
    assert_eq!(MedioDepago::Cripto.clone(), MedioDepago::Cripto);
    assert_ne!(MedioDepago::Efectivo.clone(), MedioDepago::MercadoPago);
    assert_ne!(MedioDepago::TarjetaDeCred, MedioDepago::Transferencia);
}

#[test]
fn posicion_del_maximo_elige_el_ultimo_entre_iguales() {
    assert_eq!(posicion_del_maximo(&Vec::new()), None);
    assert_eq!(posicion_del_maximo(&vec![7]), Some(0));
    assert_eq!(posicion_del_maximo(&vec![1, 5, 3]), Some(1));
    assert_eq!(posicion_del_maximo(&vec![5, 1, 5, 2]), Some(2));
    assert_eq!(posicion_del_maximo(&vec![0, 0, 0]), Some(2));
    assert_eq!(posicion_del_maximo(&vec![9, 8, 7]), Some(0));
    assert_eq!(posicion_del_maximo(&vec![1, 2, u32::MAX]), Some(2));
}
