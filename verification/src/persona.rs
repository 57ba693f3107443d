//! A person: name, age and an optional address, with a one-line description.

use crate::texto::{decimal, u32_a_texto};
use vstd::prelude::*;
use vstd::string::StringExecFns;

verus! {

/// The mathematical value of a person.
pub struct PersonaModelo {
    pub nombre: Seq<char>,
    pub edad: u32,
    pub dir: Option<Seq<char>>,
}

pub struct Persona {
    pub nombre: String,
    pub edad: u32,
    pub dir: Option<String>,
}

/// The mathematical value of an optional text.
pub open spec fn texto_opcional(t: Option<String>) -> Option<Seq<char>> {
    match t {
        Some(s) => Some(s@),
        None => None,
    }
}

impl View for Persona {
    type V = PersonaModelo;

    open spec fn view(&self) -> PersonaModelo {
        PersonaModelo { nombre: self.nombre@, edad: self.edad, dir: texto_opcional(self.dir) }
    }
}

/// The address as it is shown: the address itself, or the word for "unknown".
pub open spec fn direccion_mostrada(dir: Option<Seq<char>>) -> Seq<char> {
    match dir {
        Some(d) => d,
        None => "Desconocida"@,
    }
}

/// The one-line description of a person: name, age in decimal, address.
pub open spec fn descripcion(p: PersonaModelo) -> Seq<char> {
    "Nombre: "@ + p.nombre + ". Edad: "@ + decimal(p.edad as nat) + ". Direccion: "@
        + direccion_mostrada(p.dir) + "."@
}

impl Persona {
    pub fn new(nombre: String, edad: u32, dir: Option<String>) -> (p: Persona)
        ensures
            p@ == (PersonaModelo { nombre: nombre@, edad, dir: texto_opcional(dir) }),
    {
        Persona { nombre, edad, dir }
    }

    /// The one-line description of the person.
    pub fn to_string(&self) -> (r: String)
        ensures
            r@ == descripcion(self@),
    {
        let dir = match &self.dir {
            Some(dir) => dir.clone(),
            None => String::from_str("Desconocida"),
        };
        let mut r = String::from_str("Nombre: ");
        r.append(self.nombre.as_str());
        r.append(". Edad: ");
        r.append(u32_a_texto(self.edad).as_str());
        r.append(". Direccion: ");
        r.append(dir.as_str());
        r.append(".");
        r
    }

    pub fn obtener_edad(&self) -> (r: u32)
        ensures
            r == self.edad,
    {
        self.edad
    }

    /// Replaces the address, by another one or by none.
    pub fn actualizar_direccion(&mut self, nueva: Option<String>)
        ensures
            final(self)@ == (PersonaModelo { dir: texto_opcional(nueva), ..old(self)@ }),
    {
        self.dir = nueva;
    }
}

} // verus!
