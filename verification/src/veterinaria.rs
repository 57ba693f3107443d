//! A veterinary clinic: the queue of pets waiting to be seen, and the
//! register of the visits made.

use crate::fecha::{fecha_opcional, Fecha, FechaModelo};
use crate::secuencias::{
    es_primera_posicion, lema_primera_posicion_unica, ninguno, primera_posicion,
};
use crate::texto::str_iguales;
use std::collections::VecDeque;
use vstd::prelude::*;

verus! {

broadcast use vstd::std_specs::vecdeque::group_vec_dequeue_axioms;

pub enum TipoAnimal {
    Perro,
    Gato,
    Caballo,
    Otros,
}

/// The label of a kind of animal, in lower case.
pub open spec fn etiqueta_tipo(t: TipoAnimal) -> Seq<char> {
    match t {
        TipoAnimal::Caballo => "caballo"@,
        TipoAnimal::Gato => "gato"@,
        TipoAnimal::Perro => "perro"@,
        TipoAnimal::Otros => "otros"@,
    }
}

/// Two kinds of animal with the same label are the same kind.
pub proof fn lema_etiqueta_tipo_inyectiva(a: TipoAnimal, b: TipoAnimal)
    ensures
        etiqueta_tipo(a) == etiqueta_tipo(b) <==> a == b,
{
    reveal_strlit("caballo");
    reveal_strlit("gato");
    reveal_strlit("perro");
    reveal_strlit("otros");
    if a != b && etiqueta_tipo(a) == etiqueta_tipo(b) {
        assert(etiqueta_tipo(a).len() == etiqueta_tipo(b).len());
        assert(etiqueta_tipo(a)[0] == etiqueta_tipo(b)[0]);
    }
}

/// The mathematical value of a pet's owner.
pub struct DuenioModelo {
    pub nombre: Seq<char>,
    pub direccion: Seq<char>,
    pub telefono: u32,
}

pub struct Duenio {
    pub nombre: String,
    pub direccion: String,
    pub telefono: u32,
}

impl View for Duenio {
    type V = DuenioModelo;

    open spec fn view(&self) -> DuenioModelo {
        DuenioModelo { nombre: self.nombre@, direccion: self.direccion@, telefono: self.telefono }
    }
}

impl Duenio {
    pub fn new(nombre: String, direccion: String, telefono: u32) -> (d: Duenio)
        ensures
            d@ == (DuenioModelo { nombre: nombre@, direccion: direccion@, telefono }),
    {
        Duenio { nombre, direccion, telefono }
    }

    /// Whether both owners have the same name, address and telephone.
    pub fn es_igual(&self, otro_duenio: &Duenio) -> (r: bool)
        ensures
            r == (self@ == otro_duenio@),
    {
        self.nombre == otro_duenio.nombre && self.direccion == otro_duenio.direccion
            && self.telefono == otro_duenio.telefono
    }
}

/// The mathematical value of a pet.
pub struct MascotaModelo {
    pub nombre: Seq<char>,
    pub edad: u32,
    pub tipo: TipoAnimal,
    pub duenio: DuenioModelo,
}

pub struct Mascota {
    pub nombre: String,
    pub edad: u32,
    pub tipo: TipoAnimal,
    pub duenio: Duenio,
}

impl View for Mascota {
    type V = MascotaModelo;

    open spec fn view(&self) -> MascotaModelo {
        MascotaModelo { nombre: self.nombre@, edad: self.edad, tipo: self.tipo, duenio: self.duenio@ }
    }
}

impl Mascota {
    pub fn new(nombre: String, edad: u32, tipo: TipoAnimal, duenio: Duenio) -> (m: Mascota)
        ensures
            m@ == (MascotaModelo { nombre: nombre@, edad, tipo, duenio: duenio@ }),
    {
        Mascota { nombre, edad, tipo, duenio }
    }

    /// Whether both pets have the same name, age, kind and owner.
    pub fn es_igual(&self, otra_mascota: &Mascota) -> (r: bool)
        ensures
            r == (self@ == otra_mascota@),
    {
        proof {
            lema_etiqueta_tipo_inyectiva(self.tipo, otra_mascota.tipo);
        }
        self.nombre == otra_mascota.nombre && self.edad == otra_mascota.edad && str_iguales(
            self.tipo_comparable(),
            otra_mascota.tipo_comparable(),
        ) && self.duenio.es_igual(&otra_mascota.duenio)
    }

    /// The label of the pet's kind.
    pub fn tipo_comparable(&self) -> (r: &str)
        ensures
            r@ == etiqueta_tipo(self.tipo),
    {
        match self.tipo {
            TipoAnimal::Caballo => "caballo",
            TipoAnimal::Gato => "gato",
            TipoAnimal::Perro => "perro",
            TipoAnimal::Otros => "otros",
        }
    }
}

/// The mathematical value of a visit.
pub struct AtencionModelo {
    pub mascota: MascotaModelo,
    pub diagnostico: Seq<char>,
    pub tratamiento: Seq<char>,
    pub prox_visita: Option<FechaModelo>,
}

pub struct Atencion {
    pub mascota: Mascota,
    pub diagnostico: String,
    pub tratamiento: String,
    pub prox_visita: Option<Fecha>,
}

impl View for Atencion {
    type V = AtencionModelo;

    open spec fn view(&self) -> AtencionModelo {
        AtencionModelo {
            mascota: self.mascota@,
            diagnostico: self.diagnostico@,
            tratamiento: self.tratamiento@,
            prox_visita: fecha_opcional(self.prox_visita),
        }
    }
}

impl Atencion {
    pub fn new(mascota: Mascota, diagnostico: String, tratamiento: String, prox_visita: Option<Fecha>) -> (a:
        Self)
        ensures
            a@ == (AtencionModelo {
                mascota: mascota@,
                diagnostico: diagnostico@,
                tratamiento: tratamiento@,
                prox_visita: fecha_opcional(prox_visita),
            }),
    {
        Atencion { mascota, diagnostico, tratamiento, prox_visita }
    }
}

/// The mathematical value of a clinic: the pets waiting, next one first,
/// and the visits registered, oldest first.
pub struct VeterinariaModelo {
    pub nombre: Seq<char>,
    pub direccion: Seq<char>,
    pub id: u32,
    pub cola: Seq<MascotaModelo>,
    pub registro: Seq<AtencionModelo>,
}

pub struct Veterinaria {
    pub nombre: String,
    pub direccion: String,
    pub id: u32,
    pub cola_atencion: VecDeque<Mascota>,
    pub registro_atenciones: Vec<Atencion>,
}

impl View for Veterinaria {
    type V = VeterinariaModelo;

    open spec fn view(&self) -> VeterinariaModelo {
        VeterinariaModelo {
            nombre: self.nombre@,
            direccion: self.direccion@,
            id: self.id,
            cola: self.cola_atencion@.map_values(|m: Mascota| m@),
            registro: self.registro_atenciones@.map_values(|a: Atencion| a@),
        }
    }
}

/// The property of being the pet `m`.
pub open spec fn es_la_mascota(m: MascotaModelo) -> spec_fn(MascotaModelo) -> bool {
    |x: MascotaModelo| x == m
}

/// The property of being a visit of the pet `m`.
pub open spec fn es_atencion_de(m: MascotaModelo) -> spec_fn(AtencionModelo) -> bool {
    |a: AtencionModelo| a.mascota == m
}

/// The property of being a visit of a pet called `nombre_mascota` whose
/// owner is called `nombre_duenio` and has the telephone `tel`.
pub open spec fn es_atencion_con(nombre_mascota: Seq<char>, nombre_duenio: Seq<char>, tel: u32) -> spec_fn(
    AtencionModelo,
) -> bool {
    |a: AtencionModelo|
        a.mascota.nombre == nombre_mascota && a.mascota.duenio.nombre == nombre_duenio
            && a.mascota.duenio.telefono == tel
}

/// The queue without the first pet equal to `m`; the queue itself where
/// there is none.
pub open spec fn eliminar_mascota_spec(cola: Seq<MascotaModelo>, m: MascotaModelo) -> Seq<MascotaModelo> {
    match primera_posicion(cola, es_la_mascota(m)) {
        Some(i) => cola.remove(i),
        None => cola,
    }
}

/// The position in the register of the first visit of the pet `m`.
pub open spec fn posicion_atencion(registro: Seq<AtencionModelo>, m: MascotaModelo) -> Option<int> {
    primera_posicion(registro, es_atencion_de(m))
}

impl Veterinaria {
    /// A clinic with nobody waiting and nothing registered.
    pub fn new(nombre: String, direccion: String, id: u32) -> (v: Veterinaria)
        ensures
            v@ == (VeterinariaModelo {
                nombre: nombre@,
                direccion: direccion@,
                id,
                cola: Seq::empty(),
                registro: Seq::empty(),
            }),
    {
        let v = Veterinaria {
            nombre,
            direccion,
            id,
            cola_atencion: VecDeque::new(),
            registro_atenciones: Vec::new(),
        };
        assert(v@.cola =~= Seq::<MascotaModelo>::empty());
        assert(v@.registro =~= Seq::<AtencionModelo>::empty());
        v
    }

    /// Puts `mascota` at the end of the queue.
    pub fn agregar_mascota(&mut self, mascota: Mascota)
        ensures
            final(self)@ == (VeterinariaModelo { cola: old(self)@.cola.push(mascota@), ..old(self)@ }),
    {
        self.cola_atencion.push_back(mascota);
        assert(self@.cola =~= old(self)@.cola.push(mascota@));
    }

    /// Puts `mascota` at the head of the queue.
    pub fn agregar_mascota_prioritaria(&mut self, mascota: Mascota)
        ensures
            final(self)@ == (VeterinariaModelo {
                cola: seq![mascota@] + old(self)@.cola,
                ..old(self)@
            }),
    {
        self.cola_atencion.push_front(mascota);
        assert(self@.cola =~= seq![mascota@] + old(self)@.cola);
    }

    /// Takes the pet at the head of the queue, if anyone is waiting.
    pub fn atender_proxima(&mut self) -> (r: Option<Mascota>)
        ensures
            match r {
                Some(m) => {
                    &&& old(self)@.cola.len() > 0
                    &&& m@ == old(self)@.cola[0]
                    &&& final(self)@ == (VeterinariaModelo {
                        cola: old(self)@.cola.drop_first(),
                        ..old(self)@
                    })
                },
                None => old(self)@.cola.len() == 0 && final(self)@ == old(self)@,
            },
    {
        let r = self.cola_atencion.pop_front();
        proof {
            if r.is_some() {
                assert(self@.cola =~= old(self)@.cola.drop_first());
            } else {
                assert(self@.cola =~= old(self)@.cola);
            }
        }
        r
    }

    /// Takes the first pet equal to `mascota` out of the queue, if there is one.
    pub fn eliminar_mascota(&mut self, mascota: Mascota)
        ensures
            final(self)@ == (VeterinariaModelo {
                cola: eliminar_mascota_spec(old(self)@.cola, mascota@),
                ..old(self)@
            }),
    {
        let ghost pred = es_la_mascota(mascota@);
        let ghost s = self@.cola;
        let mut i: usize = 0;
        while i < self.cola_atencion.len()
            invariant
                i <= self.cola_atencion.len(),
                *self == *old(self),
                s == self@.cola,
                s.len() == self.cola_atencion.len(),
                pred == es_la_mascota(mascota@),
                forall|j: int| 0 <= j < i ==> !pred(#[trigger] s[j]),
            decreases self.cola_atencion.len() - i,
        {
            assert(s[i as int] == self.cola_atencion@[i as int]@);
            if self.cola_atencion[i].es_igual(&mascota) {
                proof {
                    assert(es_primera_posicion(s, pred, i as int));
                    lema_primera_posicion_unica(s, pred, i as int);
                }
                self.cola_atencion.remove(i);
                assert(self@.cola =~= s.remove(i as int));
                return ;
            }
            i += 1;
        }
        proof {
            assert(ninguno(s, pred));
            lema_primera_posicion_unica(s, pred, 0);
        }
    }

    /// Puts `atencion` at the end of the register.
    pub fn registrar_atencion(&mut self, atencion: Atencion)
        ensures
            final(self)@ == (VeterinariaModelo {
                registro: old(self)@.registro.push(atencion@),
                ..old(self)@
            }),
    {
        self.registro_atenciones.push(atencion);
        assert(self@.registro =~= old(self)@.registro.push(atencion@));
    }

    /// The first visit registered of a pet with that name whose owner has
    /// that name and telephone.
    pub fn buscar_atencion(&self, nombre_mascota: &str, nombre_duenio: &str, tel: u32) -> (r: Option<
        &Atencion,
    >)
        ensures
            match primera_posicion(
                self@.registro,
                es_atencion_con(nombre_mascota@, nombre_duenio@, tel),
            ) {
                Some(i) => r == Some(&self.registro_atenciones@[i]),
                None => r.is_none(),
            },
    {
        let ghost pred = es_atencion_con(nombre_mascota@, nombre_duenio@, tel);
        let ghost s = self@.registro;
        let mut i: usize = 0;
        while i < self.registro_atenciones.len()
            invariant
                i <= self.registro_atenciones.len(),
                s == self@.registro,
                s.len() == self.registro_atenciones.len(),
                pred == es_atencion_con(nombre_mascota@, nombre_duenio@, tel),
                forall|j: int| 0 <= j < i ==> !pred(#[trigger] s[j]),
            decreases self.registro_atenciones.len() - i,
        {
            assert(s[i as int] == self.registro_atenciones@[i as int]@);
            let a = &self.registro_atenciones[i];
            if str_iguales(a.mascota.nombre.as_str(), nombre_mascota) && str_iguales(
                a.mascota.duenio.nombre.as_str(),
                nombre_duenio,
            ) && a.mascota.duenio.telefono == tel {
                proof {
                    assert(es_primera_posicion(s, pred, i as int));
                    lema_primera_posicion_unica(s, pred, i as int);
                }
                return Some(a);
            }
            i += 1;
        }
        proof {
            assert(ninguno(s, pred));
            lema_primera_posicion_unica(s, pred, 0);
        }
        None
    }

    /// The position in the register of the first visit of `mascota`.
    fn posicion_de_atencion(&self, mascota: &Mascota) -> (r: Option<usize>)
        ensures
            match r {
                Some(i) => posicion_atencion(self@.registro, mascota@) == Some(i as int) && i
                    < self.registro_atenciones.len(),
                None => posicion_atencion(self@.registro, mascota@).is_none(),
            },
    {
        let ghost pred = es_atencion_de(mascota@);
        let ghost s = self@.registro;
        let mut i: usize = 0;
        while i < self.registro_atenciones.len()
            invariant
                i <= self.registro_atenciones.len(),
                s == self@.registro,
                s.len() == self.registro_atenciones.len(),
                pred == es_atencion_de(mascota@),
                forall|j: int| 0 <= j < i ==> !pred(#[trigger] s[j]),
            decreases self.registro_atenciones.len() - i,
        {
            assert(s[i as int] == self.registro_atenciones@[i as int]@);
            if self.registro_atenciones[i].mascota.es_igual(mascota) {
                proof {
                    assert(es_primera_posicion(s, pred, i as int));
                    lema_primera_posicion_unica(s, pred, i as int);
                }
                return Some(i);
            }
            i += 1;
        }
        proof {
            assert(ninguno(s, pred));
            lema_primera_posicion_unica(s, pred, 0);
        }
        None
    }

    /// Gives the first visit of `mascota` the diagnosis `nuevo_diagnostico`:
    /// `true` where the register holds such a visit; otherwise nothing changes.
    pub fn modificar_diagnostico(&mut self, mascota: &Mascota, nuevo_diagnostico: String) -> (r: bool)
        ensures
            r == posicion_atencion(old(self)@.registro, mascota@).is_some(),
            final(self)@ == (match posicion_atencion(old(self)@.registro, mascota@) {
                Some(i) => VeterinariaModelo {
                    registro: old(self)@.registro.update(
                        i,
                        AtencionModelo { diagnostico: nuevo_diagnostico@, ..old(self)@.registro[i] },
                    ),
                    ..old(self)@
                },
                None => old(self)@,
            }),
    {
        if let Some(pos) = self.posicion_de_atencion(mascota) {
            self.registro_atenciones[pos].diagnostico = nuevo_diagnostico;
            assert(self@.registro =~= old(self)@.registro.update(
                pos as int,
                AtencionModelo { diagnostico: nuevo_diagnostico@, ..old(self)@.registro[pos as int] },
            ));
            true
        } else {
            false
        }
    }

    /// Gives the first visit of `mascota` the next appointment `nueva_fecha`:
    /// `true` where the register holds such a visit; otherwise nothing changes.
    pub fn modificar_fecha(&mut self, mascota: &Mascota, nueva_fecha: Option<Fecha>) -> (r: bool)
        ensures
            r == posicion_atencion(old(self)@.registro, mascota@).is_some(),
            final(self)@ == (match posicion_atencion(old(self)@.registro, mascota@) {
                Some(i) => VeterinariaModelo {
                    registro: old(self)@.registro.update(
                        i,
                        AtencionModelo {
                            prox_visita: fecha_opcional(nueva_fecha),
                            ..old(self)@.registro[i]
                        },
                    ),
                    ..old(self)@
                },
                None => old(self)@,
            }),
    {
        if let Some(pos) = self.posicion_de_atencion(mascota) {
            self.registro_atenciones[pos].prox_visita = nueva_fecha;
            assert(self@.registro =~= old(self)@.registro.update(
                pos as int,
                AtencionModelo {
                    prox_visita: fecha_opcional(nueva_fecha),
                    ..old(self)@.registro[pos as int]
                },
            ));
            true
        } else {
            false
        }
    }

    /// Takes the first visit of `mascota` out of the register and hands it over.
    pub fn eliminar_atencion(&mut self, mascota: &Mascota) -> (r: Option<Atencion>)
        ensures
            match posicion_atencion(old(self)@.registro, mascota@) {
                Some(i) => {
                    &&& r.is_some()
                    &&& r.unwrap()@ == old(self)@.registro[i]
                    &&& final(self)@ == (VeterinariaModelo {
                        registro: old(self)@.registro.remove(i),
                        ..old(self)@
                    })
                },
                None => r.is_none() && final(self)@ == old(self)@,
            },
    {
        if let Some(pos) = self.posicion_de_atencion(mascota) {
            let a = self.registro_atenciones.remove(pos);
            assert(self@.registro =~= old(self)@.registro.remove(pos as int));
            Some(a)
        } else {
            None
        }
    }
}

} // verus!
