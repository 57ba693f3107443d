//! A playlist: an ordered list of songs under a name.

use crate::secuencias::{
    es_primera_posicion, lema_primera_posicion, lema_primera_posicion_unica, ninguno,
    primera_posicion,
};
use crate::texto::str_iguales;
use vstd::prelude::*;

verus! {

pub enum Genero {
    Rock,
    Pop,
    Rap,
    Jazz,
    Otros,
}

impl Genero {
    /// Whether both are the same genre.
    pub fn es_igual(&self, otro_genero: &Genero) -> (r: bool)
        ensures
            r == (*self == *otro_genero),
    {
        match (self, otro_genero) {
            (Genero::Jazz, Genero::Jazz) => true,
            (Genero::Pop, Genero::Pop) => true,
            (Genero::Rap, Genero::Rap) => true,
            (Genero::Rock, Genero::Rock) => true,
            (Genero::Otros, Genero::Otros) => true,
            _ => false,
        }
    }
}

/// The label of a genre, in lower case.
pub open spec fn etiqueta_genero(g: Genero) -> Seq<char> {
    match g {
        Genero::Jazz => "jazz"@,
        Genero::Pop => "pop"@,
        Genero::Rap => "rap"@,
        Genero::Rock => "rock"@,
        Genero::Otros => "otros"@,
    }
}

/// Two genres with the same label are the same genre.
pub proof fn lema_etiqueta_genero_inyectiva(a: Genero, b: Genero)
    ensures
        etiqueta_genero(a) == etiqueta_genero(b) <==> a == b,
{
    reveal_strlit("jazz");
    reveal_strlit("pop");
    reveal_strlit("rap");
    reveal_strlit("rock");
    reveal_strlit("otros");
    if a != b && etiqueta_genero(a) == etiqueta_genero(b) {
        assert(etiqueta_genero(a).len() == etiqueta_genero(b).len());
        assert(etiqueta_genero(a)[0] == etiqueta_genero(b)[0]);
    }
}

/// The mathematical value of a song.
pub struct CancionModelo {
    pub titulo: Seq<char>,
    pub artista: Seq<char>,
    pub genero: Genero,
}

pub struct Cancion {
    pub titulo: String,
    pub artista: String,
    pub genero: Genero,
}

impl View for Cancion {
    type V = CancionModelo;

    open spec fn view(&self) -> CancionModelo {
        CancionModelo { titulo: self.titulo@, artista: self.artista@, genero: self.genero }
    }
}

impl Cancion {
    pub fn new(titulo: String, artista: String, genero: Genero) -> (c: Cancion)
        ensures
            c@ == (CancionModelo { titulo: titulo@, artista: artista@, genero }),
    {
        Cancion { titulo, artista, genero }
    }

    /// Whether both songs have the same title, artist and genre.
    pub fn es_igual(&self, otra_cancion: &Cancion) -> (r: bool)
        ensures
            r == (self@ == otra_cancion@),
    {
        proof {
            lema_etiqueta_genero_inyectiva(self.genero, otra_cancion.genero);
        }
        self.titulo == otra_cancion.titulo && self.artista == otra_cancion.artista && str_iguales(
            self.genero_comparable(),
            otra_cancion.genero_comparable(),
        )
    }

    /// The label of the song's genre.
    pub fn genero_comparable(&self) -> (r: &str)
        ensures
            r@ == etiqueta_genero(self.genero),
    {
        match self.genero {
            Genero::Jazz => "jazz",
            Genero::Pop => "pop",
            Genero::Rap => "rap",
            Genero::Rock => "rock",
            Genero::Otros => "otros",
        }
    }
}

/// The mathematical value of a playlist: its songs in order, and its name.
pub struct PlaylistModelo {
    pub canciones: Seq<CancionModelo>,
    pub nombre: Seq<char>,
}

pub struct Playlist {
    pub lista_canciones: Vec<Cancion>,
    pub nombre: String,
}

impl View for Playlist {
    type V = PlaylistModelo;

    open spec fn view(&self) -> PlaylistModelo {
        PlaylistModelo {
            canciones: self.lista_canciones@.map_values(|c: Cancion| c@),
            nombre: self.nombre@,
        }
    }
}

/// The property of being the song `c`.
pub open spec fn es_la_cancion(c: CancionModelo) -> spec_fn(CancionModelo) -> bool {
    |x: CancionModelo| x == c
}

/// The property of having the title `titulo`.
pub open spec fn tiene_titulo(titulo: Seq<char>) -> spec_fn(CancionModelo) -> bool {
    |x: CancionModelo| x.titulo == titulo
}

/// The property of being of the genre `genero`.
pub open spec fn es_del_genero(genero: Genero) -> spec_fn(CancionModelo) -> bool {
    |x: CancionModelo| x.genero == genero
}

/// The property of being by the artist `artista`.
pub open spec fn es_del_artista(artista: Seq<char>) -> spec_fn(CancionModelo) -> bool {
    |x: CancionModelo| x.artista == artista
}

/// The position of the first song of `s` equal to `c`.
pub open spec fn posicion_cancion(s: Seq<CancionModelo>, c: CancionModelo) -> Option<int> {
    primera_posicion(s, es_la_cancion(c))
}

/// `s` without the first song equal to `c`; `s` itself where there is none.
pub open spec fn eliminar_cancion_spec(s: Seq<CancionModelo>, c: CancionModelo) -> Seq<CancionModelo> {
    match posicion_cancion(s, c) {
        Some(i) => s.remove(i),
        None => s,
    }
}

/// `s` with the first song equal to `c` taken out and put back at position
/// `nueva_pos`; `s` itself where there is no such song or `nueva_pos` is not
/// a position of `s`.
pub open spec fn mover_cancion_spec(s: Seq<CancionModelo>, c: CancionModelo, nueva_pos: int) -> Seq<
    CancionModelo,
> {
    match posicion_cancion(s, c) {
        Some(i) => if 0 <= nueva_pos < s.len() {
            s.remove(i).insert(nueva_pos, s[i])
        } else {
            s
        },
        None => s,
    }
}

/// Moving a song keeps the number of songs, and where the song moves it
/// stands at the new position afterwards.
pub proof fn lema_mover_cancion(s: Seq<CancionModelo>, c: CancionModelo, nueva_pos: int)
    ensures
        mover_cancion_spec(s, c, nueva_pos).len() == s.len(),
        posicion_cancion(s, c).is_some() && 0 <= nueva_pos < s.len() ==> mover_cancion_spec(
            s,
            c,
            nueva_pos,
        )[nueva_pos] == c,
{
    lema_primera_posicion(s, es_la_cancion(c));
    match posicion_cancion(s, c) {
        Some(i) => {
            if 0 <= nueva_pos < s.len() {
                s.remove_ensures(i);
                s.remove(i).insert_ensures(nueva_pos, s[i]);
            }
        },
        None => {},
    }
}

impl Playlist {
    /// An empty playlist called `nombre`.
    pub fn new(nombre: String) -> (p: Playlist)
        ensures
            p@.canciones == Seq::<CancionModelo>::empty(),
            p@.nombre == nombre@,
    {
        let p = Playlist { lista_canciones: Vec::new(), nombre };
        assert(p@.canciones =~= Seq::<CancionModelo>::empty());
        p
    }

    /// Puts `cancion` at the end.
    pub fn agregar_cancion(&mut self, cancion: Cancion)
        ensures
            final(self)@.canciones == old(self)@.canciones.push(cancion@),
            final(self)@.nombre == old(self)@.nombre,
    {
        self.lista_canciones.push(cancion);
        assert(self@.canciones =~= old(self)@.canciones.push(cancion@));
    }

    /// The position of the first song equal to `cancion`.
    fn posicion_de(&self, cancion: &Cancion) -> (r: Option<usize>)
        ensures
            match r {
                Some(i) => posicion_cancion(self@.canciones, cancion@) == Some(i as int) && i
                    < self.lista_canciones.len(),
                None => posicion_cancion(self@.canciones, cancion@).is_none(),
            },
    {
        let ghost pred = es_la_cancion(cancion@);
        let ghost s = self@.canciones;
        let mut i: usize = 0;
        while i < self.lista_canciones.len()
            invariant
                i <= self.lista_canciones.len(),
                s == self@.canciones,
                s.len() == self.lista_canciones.len(),
                pred == es_la_cancion(cancion@),
                forall|j: int| 0 <= j < i ==> !pred(#[trigger] s[j]),
            decreases self.lista_canciones.len() - i,
        {
            assert(s[i as int] == self.lista_canciones@[i as int]@);
            if self.lista_canciones[i].es_igual(cancion) {
                proof {
                    assert(es_primera_posicion(s, pred, i as int));
                    lema_primera_posicion_unica(s, pred, i as int);
                }
                return Some(i);
            }
            i += 1;
        }
        proof {
            assert(ninguno(s, pred));
            lema_primera_posicion_unica(s, pred, 0);
        }
        None
    }

    /// Takes out the first song equal to `cancion`, if there is one.
    pub fn eliminar_cancion(&mut self, cancion: &Cancion)
        ensures
            final(self)@.canciones == eliminar_cancion_spec(old(self)@.canciones, cancion@),
            final(self)@.nombre == old(self)@.nombre,
    {
        if let Some(pos) = self.posicion_de(cancion) {
            self.lista_canciones.remove(pos);
            assert(self@.canciones =~= old(self)@.canciones.remove(pos as int));
        }
    }

    /// Moves the first song equal to `cancion` to position `nueva_pos`,
    /// where there is such a song and `nueva_pos` is a position of the list.
    pub fn mover_cancion(&mut self, cancion: &Cancion, nueva_pos: usize)
        ensures
            final(self)@.canciones == mover_cancion_spec(
                old(self)@.canciones,
                cancion@,
                nueva_pos as int,
            ),
            final(self)@.nombre == old(self)@.nombre,
    {
        if let Some(pos_actual) = self.posicion_de(cancion) {
            if nueva_pos < self.lista_canciones.len() {
                let cancion = self.lista_canciones.remove(pos_actual);
                self.lista_canciones.insert(nueva_pos, cancion);
                assert(self@.canciones =~= old(self)@.canciones.remove(pos_actual as int).insert(
                    nueva_pos as int,
                    old(self)@.canciones[pos_actual as int],
                ));
            }
        }
    }

    /// The first song whose title is `nombre`.
    pub fn buscar_cancion_por_nombre(&self, nombre: String) -> (r: Option<&Cancion>)
        ensures
            match primera_posicion(self@.canciones, tiene_titulo(nombre@)) {
                Some(i) => r == Some(&self.lista_canciones@[i]),
                None => r.is_none(),
            },
    {
        let ghost pred = tiene_titulo(nombre@);
        let ghost s = self@.canciones;
        let mut i: usize = 0;
        while i < self.lista_canciones.len()
            invariant
                i <= self.lista_canciones.len(),
                s == self@.canciones,
                s.len() == self.lista_canciones.len(),
                pred == tiene_titulo(nombre@),
                forall|j: int| 0 <= j < i ==> !pred(#[trigger] s[j]),
            decreases self.lista_canciones.len() - i,
        {
            assert(s[i as int] == self.lista_canciones@[i as int]@);
            if self.lista_canciones[i].titulo == nombre {
                proof {
                    assert(es_primera_posicion(s, pred, i as int));
                    lema_primera_posicion_unica(s, pred, i as int);
                }
                return Some(&self.lista_canciones[i]);
            }
            i += 1;
        }
        proof {
            assert(ninguno(s, pred));
            lema_primera_posicion_unica(s, pred, 0);
        }
        None
    }

    /// The songs of the genre `genero`, in the order of the list.
    pub fn obtener_por_genero(&self, genero: Genero) -> (r: Vec<&Cancion>)
        ensures
            r@.map_values(|c: &Cancion| c@) == self@.canciones.filter(es_del_genero(genero)),
    {
        let ghost pred = es_del_genero(genero);
        let ghost s = self@.canciones;
        let mut r: Vec<&Cancion> = Vec::new();
        let mut i: usize = 0;
        proof {
            reveal(Seq::filter);
            assert(s.take(0).len() == 0);
            assert(r@.map_values(|c: &Cancion| c@) =~= s.take(0).filter(pred));
        }
        while i < self.lista_canciones.len()
            invariant
                i <= self.lista_canciones.len(),
                s == self@.canciones,
                s.len() == self.lista_canciones.len(),
                pred == es_del_genero(genero),
                r@.map_values(|c: &Cancion| c@) == s.take(i as int).filter(pred),
            decreases self.lista_canciones.len() - i,
        {
            let ghost antes = r@.map_values(|c: &Cancion| c@);
            proof {
                reveal(Seq::filter);
                assert(s.take(i as int + 1).drop_last() =~= s.take(i as int));
                assert(s.take(i as int + 1).last() == self.lista_canciones@[i as int]@);
            }
            let elem = &self.lista_canciones[i];
            if elem.genero.es_igual(&genero) {
                r.push(elem);
                assert(r@.map_values(|c: &Cancion| c@) =~= antes.push(elem@));
            }
            i += 1;
        }
        proof {
            assert(s.take(i as int) =~= s);
        }
        r
    }

    /// The songs of the artist `artista`, in the order of the list.
    pub fn obtener_por_artista(&self, artista: String) -> (r: Vec<&Cancion>)
        ensures
            r@.map_values(|c: &Cancion| c@) == self@.canciones.filter(es_del_artista(artista@)),
    {
        let ghost pred = es_del_artista(artista@);
        let ghost s = self@.canciones;
        let mut r: Vec<&Cancion> = Vec::new();
        let mut i: usize = 0;
        proof {
            reveal(Seq::filter);
            assert(s.take(0).len() == 0);
            assert(r@.map_values(|c: &Cancion| c@) =~= s.take(0).filter(pred));
        }
        while i < self.lista_canciones.len()
            invariant
                i <= self.lista_canciones.len(),
                s == self@.canciones,
                s.len() == self.lista_canciones.len(),
                pred == es_del_artista(artista@),
                r@.map_values(|c: &Cancion| c@) == s.take(i as int).filter(pred),
            decreases self.lista_canciones.len() - i,
        {
            let ghost antes = r@.map_values(|c: &Cancion| c@);
            proof {
                reveal(Seq::filter);
                assert(s.take(i as int + 1).drop_last() =~= s.take(i as int));
                assert(s.take(i as int + 1).last() == self.lista_canciones@[i as int]@);
            }
            let elem = &self.lista_canciones[i];
            if elem.artista == artista {
                r.push(elem);
                assert(r@.map_values(|c: &Cancion| c@) =~= antes.push(elem@));
            }
            i += 1;
        }
        proof {
            assert(s.take(i as int) =~= s);
        }
        r
    }

    /// Gives the playlist the name `nuevo_nombre`.
    pub fn modificar_titulo(&mut self, nuevo_nombre: String)
        ensures
            final(self)@.nombre == nuevo_nombre@,
            final(self)@.canciones == old(self)@.canciones,
    {
        self.nombre = nuevo_nombre;
    }

    /// Takes every song out.
    pub fn vaciar_playlist(&mut self)
        ensures
            final(self)@.canciones == Seq::<CancionModelo>::empty(),
            final(self)@.nombre == old(self)@.nombre,
    {
        self.lista_canciones.clear();
        assert(self@.canciones =~= Seq::<CancionModelo>::empty());
    }
}

} // verus!
