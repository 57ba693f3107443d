//! A lending library: copies in stock by ISBN, and the history of loans.

use crate::fecha::{
    es_mayor_spec, fecha_opcional, lema_sumar_anio, lema_sumar_compone, lema_sumar_valida,
    sumar_dias_spec, Fecha, FechaModelo,
};
use crate::secuencias::{
    es_primera_posicion, lema_primera_posicion, lema_primera_posicion_unica, ninguno,
    primera_posicion,
};
use crate::texto::str_iguales;
use std::collections::HashMap;
use vstd::prelude::*;
use vstd::std_specs::cmp::PartialEqSpecImpl;

verus! {

broadcast use vstd::std_specs::hash::group_hash_axioms;

pub enum Genero {
    Novela,
    Infantil,
    Tecnico,
    Otros,
}

pub struct Libro<'a> {
    pub isbn: u32,
    pub titulo: &'a str,
    pub autor: &'a str,
    pub paginas: u32,
    pub genero: Genero,
}

impl<'a> Libro<'a> {
    pub fn new(isbn: u32, titulo: &'a str, autor: &'a str, paginas: u32, genero: Genero) -> (l: Libro<'a>)
        ensures
            l == (Libro { isbn, titulo, autor, paginas, genero }),
    {
        Libro { isbn, titulo, autor, paginas, genero }
    }
}

/// The mathematical value of a client: name, telephone and mail.
pub struct ClienteModelo {
    pub nombre: Seq<char>,
    pub tel: u32,
    pub mail: Seq<char>,
}

pub struct Cliente<'a> {
    pub nombre: &'a str,
    pub tel: u32,
    pub mail: &'a str,
}

impl<'a> View for Cliente<'a> {
    type V = ClienteModelo;

    open spec fn view(&self) -> ClienteModelo {
        ClienteModelo { nombre: self.nombre@, tel: self.tel, mail: self.mail@ }
    }
}

impl<'a> Clone for Cliente<'a> {
    fn clone(&self) -> (r: Cliente<'a>)
        ensures
            r@ == self@,
    {
        Cliente { nombre: self.nombre, tel: self.tel, mail: self.mail }
    }
}

impl<'a> PartialEq for Cliente<'a> {
    /// Two clients are equal when name, telephone and mail are.
    fn eq(&self, other: &Cliente<'a>) -> (r: bool) {
        str_iguales(self.nombre, other.nombre) && self.tel == other.tel && str_iguales(
            self.mail,
            other.mail,
        )
    }
}

impl<'a> PartialEqSpecImpl for Cliente<'a> {
    open spec fn obeys_eq_spec() -> bool {
        true
    }

    open spec fn eq_spec(&self, other: &Cliente<'a>) -> bool {
        self@ == other@
    }
}

impl<'a> Cliente<'a> {
    pub fn new(nombre: &'a str, tel: u32, mail: &'a str) -> (c: Cliente<'a>)
        ensures
            c@ == (ClienteModelo { nombre: nombre@, tel, mail: mail@ }),
    {
        Cliente { nombre, tel, mail }
    }
}

#[derive(PartialEq, Eq, Structural)]
pub enum EstadoPrestamo {
    Devuelto,
    EnPrestamo,
}

impl Clone for EstadoPrestamo {
    fn clone(&self) -> (r: EstadoPrestamo)
        ensures
            r == *self,
    {
        match self {
            EstadoPrestamo::Devuelto => EstadoPrestamo::Devuelto,
            EstadoPrestamo::EnPrestamo => EstadoPrestamo::EnPrestamo,
        }
    }
}

/// The mathematical value of a loan.
pub struct PrestamoModelo {
    pub isbn_libro: u32,
    pub cliente: ClienteModelo,
    pub vencimiento: FechaModelo,
    pub fecha_devolucion: Option<FechaModelo>,
    pub devuelto: bool,
}

pub struct Prestamo<'a> {
    pub isbn_libro: u32,
    pub cliente: Cliente<'a>,
    pub vencimiento: Fecha,
    pub fecha_devolucion: Option<Fecha>,
    pub estado: EstadoPrestamo,
}

impl<'a> View for Prestamo<'a> {
    type V = PrestamoModelo;

    open spec fn view(&self) -> PrestamoModelo {
        PrestamoModelo {
            isbn_libro: self.isbn_libro,
            cliente: self.cliente@,
            vencimiento: self.vencimiento@,
            fecha_devolucion: fecha_opcional(self.fecha_devolucion),
            devuelto: self.estado == EstadoPrestamo::Devuelto,
        }
    }
}

impl<'a> Clone for Prestamo<'a> {
    fn clone(&self) -> (r: Prestamo<'a>)
        ensures
            r@ == self@,
    {
        Prestamo {
            isbn_libro: self.isbn_libro,
            cliente: self.cliente.clone(),
            vencimiento: self.vencimiento.clone(),
            fecha_devolucion: match &self.fecha_devolucion {
                Some(f) => Some(f.clone()),
                None => None,
            },
            estado: self.estado.clone(),
        }
    }
}

impl<'a> Prestamo<'a> {
    /// A new loan, not yet returned.
    pub fn new(
        isbn_libro: u32,
        cliente: Cliente<'a>,
        vencimiento: Fecha,
        fecha_devolucion: Option<Fecha>,
    ) -> (p: Prestamo<'a>)
        ensures
            p@ == (PrestamoModelo {
                isbn_libro,
                cliente: cliente@,
                vencimiento: vencimiento@,
                fecha_devolucion: fecha_opcional(fecha_devolucion),
                devuelto: false,
            }),
    {
        Prestamo { isbn_libro, cliente, vencimiento, fecha_devolucion, estado: EstadoPrestamo::EnPrestamo }
    }

    /// Whether the book of this loan has come back.
    pub fn fue_devuelto(&self) -> (r: bool)
        ensures
            r == self@.devuelto,
    {
        match &self.estado {
            EstadoPrestamo::Devuelto => true,
            EstadoPrestamo::EnPrestamo => false,
        }
    }
}

/// The mathematical value of a library: its name and address, the copies
/// in stock of each ISBN it knows, and the loans made so far, oldest first.
pub struct BibliotecaModelo {
    pub nombre: Seq<char>,
    pub direccion: Seq<char>,
    pub stock: Map<u32, u8>,
    pub historial: Seq<PrestamoModelo>,
}

pub struct Biblioteca<'a> {
    pub nombre: &'a str,
    pub direccion: &'a str,
    pub stock_libros: HashMap<u32, u8>,
    pub historial_prestamos: Vec<Prestamo<'a>>,
}

impl<'a> View for Biblioteca<'a> {
    type V = BibliotecaModelo;

    open spec fn view(&self) -> BibliotecaModelo {
        BibliotecaModelo {
            nombre: self.nombre@,
            direccion: self.direccion@,
            stock: self.stock_libros@,
            historial: self.historial_prestamos@.map_values(|p: Prestamo<'a>| p@),
        }
    }
}

/// The property of being a loan of the client `c` that has not come back.
pub open spec fn prestamo_activo_de(c: ClienteModelo) -> spec_fn(PrestamoModelo) -> bool {
    |p: PrestamoModelo| p.cliente == c && !p.devuelto
}

/// How many loans of the client `c` in `h` have not come back.
pub open spec fn contar_prestamos_spec(h: Seq<PrestamoModelo>, c: ClienteModelo) -> nat {
    h.filter(prestamo_activo_de(c)).len()
}

/// The loan that `realizar_prestamo` records.
pub open spec fn prestamo_nuevo(isbn: u32, c: ClienteModelo, vencimiento: FechaModelo) -> PrestamoModelo {
    PrestamoModelo { isbn_libro: isbn, cliente: c, vencimiento, fecha_devolucion: None, devuelto: false }
}

/// The property of being a loan that is due before `fecha`.
pub open spec fn vence_antes_de(fecha: FechaModelo) -> spec_fn(PrestamoModelo) -> bool {
    |p: PrestamoModelo| es_mayor_spec(fecha, p.vencimiento)
}

/// The loans of `h` that are due before `fecha`, in the order of `h`.
pub open spec fn vencidos_spec(h: Seq<PrestamoModelo>, fecha: FechaModelo) -> Seq<PrestamoModelo> {
    h.filter(vence_antes_de(fecha))
}

/// The loans of `h` that `ver_prestamos_por_vencer` reports, in the order of
/// `h`. The date moves on by `dias` for every loan looked at, so the loan at
/// position `k` (from 0) is held against `fecha` plus `(k + 1) * dias` days,
/// and is reported when that date is later than its due date.
pub open spec fn por_vencer_spec(h: Seq<PrestamoModelo>, dias: nat, fecha: FechaModelo) -> Seq<
    PrestamoModelo,
>
    decreases h.len(),
{
    if h.len() == 0 {
        Seq::empty()
    } else {
        let antes = por_vencer_spec(h.drop_last(), dias, fecha);
        if es_mayor_spec(sumar_dias_spec(fecha, h.len() * dias), h.last().vencimiento) {
            antes.push(h.last())
        } else {
            antes
        }
    }
}

/// The property of being a loan of the book `isbn` to the client `c`.
pub open spec fn es_prestamo_de(isbn: u32, c: ClienteModelo) -> spec_fn(PrestamoModelo) -> bool {
    |p: PrestamoModelo| p.isbn_libro == isbn && p.cliente == c
}

/// The position in `h` of the first loan of the book `isbn` to the client
/// `c`, returned or not.
pub open spec fn posicion_prestamo(h: Seq<PrestamoModelo>, isbn: u32, c: ClienteModelo) -> Option<int> {
    primera_posicion(h, es_prestamo_de(isbn, c))
}

/// The loan `p` once it came back on `fecha`.
pub open spec fn prestamo_devuelto(p: PrestamoModelo, fecha: FechaModelo) -> PrestamoModelo {
    PrestamoModelo { fecha_devolucion: Some(fecha), devuelto: true, ..p }
}

/// The active loans counted in a prefix are at most those counted in the whole.
pub proof fn lema_contar_prefijo(h: Seq<PrestamoModelo>, c: ClienteModelo, i: int)
    requires
        0 <= i <= h.len(),
    ensures
        contar_prestamos_spec(h.take(i), c) <= contar_prestamos_spec(h, c),
{
    let pred = prestamo_activo_de(c);
    Seq::filter_distributes_over_add(h.take(i), h.skip(i), pred);
    assert(h.take(i) + h.skip(i) =~= h);
}

/// The stock after one more copy of `isbn` came in.
pub open spec fn stock_incrementado(stock: Map<u32, u8>, isbn: u32) -> Map<u32, u8> {
    if stock.contains_key(isbn) {
        stock.insert(isbn, (stock[isbn] + 1) as u8)
    } else {
        stock.insert(isbn, 1u8)
    }
}

/// Whether a copy of `isbn` can leave the stock.
pub open spec fn hay_copias(stock: Map<u32, u8>, isbn: u32) -> bool {
    stock.contains_key(isbn) && stock[isbn] > 0
}

/// The stock after a copy of `isbn` left, where there was one; the stock
/// itself where there was none.
pub open spec fn stock_decrementado(stock: Map<u32, u8>, isbn: u32) -> Map<u32, u8> {
    if hay_copias(stock, isbn) {
        stock.insert(isbn, (stock[isbn] - 1) as u8)
    } else {
        stock
    }
}

/// A copy that left the stock and came back leaves the stock as it was.
pub proof fn lema_devolver_repone_stock(stock: Map<u32, u8>, isbn: u32)
    requires
        hay_copias(stock, isbn),
    ensures
        stock_incrementado(stock_decrementado(stock, isbn), isbn) == stock,
{
    assert(stock_incrementado(stock_decrementado(stock, isbn), isbn) =~= stock);
}

impl<'a> Biblioteca<'a> {
    /// A library with no stock and no loans.
    pub fn new(nombre: &'a str, direccion: &'a str) -> (b: Biblioteca<'a>)
        ensures
            b@ == (BibliotecaModelo {
                nombre: nombre@,
                direccion: direccion@,
                stock: Map::empty(),
                historial: Seq::empty(),
            }),
    {
        let b = Biblioteca {
            nombre,
            direccion,
            stock_libros: HashMap::new(),
            historial_prestamos: Vec::new(),
        };
        assert(b@.historial =~= Seq::<PrestamoModelo>::empty());
        b
    }

    /// One more copy of `isbn`: the first one if the ISBN was unknown. The
    /// count of copies has to fit in a `u8`.
    pub fn incrementar_copias(&mut self, isbn: u32)
        requires
            old(self)@.stock.contains_key(isbn) ==> old(self)@.stock[isbn] < u8::MAX,
        ensures
            final(self)@ == (BibliotecaModelo {
                stock: stock_incrementado(old(self)@.stock, isbn),
                ..old(self)@
            }),
    {
        let cant: u8 = match self.stock_libros.get(&isbn) {
            Some(c) => *c + 1,
            None => 1,
        };
        self.stock_libros.insert(isbn, cant);
    }

    /// One copy of `isbn` less, where there is one: `true` exactly then.
    pub fn decrementar_copias(&mut self, isbn: u32) -> (r: bool)
        ensures
            r == hay_copias(old(self)@.stock, isbn),
            final(self)@ == (BibliotecaModelo {
                stock: stock_decrementado(old(self)@.stock, isbn),
                ..old(self)@
            }),
    {
        let cant: u8 = match self.stock_libros.get(&isbn) {
            Some(c) => *c,
            None => 0,
        };
        if cant > 0 {
            self.stock_libros.insert(isbn, cant - 1);
            true
        } else {
            false
        }
    }

    /// The copies in stock of `isbn`, or `None` for an ISBN that was never stocked.
    pub fn obtener_cantidad_copias(&self, isbn: u32) -> (r: Option<u8>)
        ensures
            r == if self@.stock.contains_key(isbn) {
                Some(self@.stock[isbn])
            } else {
                None
            },
    {
        if let Some(cant) = self.stock_libros.get(&isbn) {
            return Some(*cant);
        }
        None
    }

    /// How many loans of `cliente` have not come back. The count has to fit in a `u8`.
    pub fn contar_prestamos(&self, cliente: &Cliente<'a>) -> (cant: u8)
        requires
            contar_prestamos_spec(self@.historial, cliente@) <= u8::MAX,
        ensures
            cant as nat == contar_prestamos_spec(self@.historial, cliente@),
    {
        let ghost pred = prestamo_activo_de(cliente@);
        let ghost h = self@.historial;
        let mut cant: u8 = 0;
        let mut i: usize = 0;
        proof {
            reveal(Seq::filter);
            assert(h.take(0).len() == 0);
        }
        while i < self.historial_prestamos.len()
            invariant
                i <= self.historial_prestamos.len(),
                h == self@.historial,
                h.len() == self.historial_prestamos.len(),
                pred == prestamo_activo_de(cliente@),
                cant as nat == h.take(i as int).filter(pred).len(),
                contar_prestamos_spec(h, cliente@) <= u8::MAX,
            decreases self.historial_prestamos.len() - i,
        {
            proof {
                reveal(Seq::filter);
                assert(h.take(i as int + 1).drop_last() =~= h.take(i as int));
                assert(h.take(i as int + 1).last() == self.historial_prestamos@[i as int]@);
                lema_contar_prefijo(h, cliente@, i as int + 1);
            }
            let p = &self.historial_prestamos[i];
            if p.cliente == *cliente {
                if !p.fue_devuelto() {
                    cant += 1;
                }
            }
            i += 1;
        }
        proof {
            assert(h.take(i as int) =~= h);
        }
        cant
    }

    /// Lends a copy of `isbn` to `cliente`, due on `fecha`: where the client
    /// has at most 5 loans that have not come back and a copy is in stock,
    /// the copy leaves the stock and the loan is recorded. Otherwise nothing
    /// changes.
    pub fn realizar_prestamo(&mut self, cliente: &Cliente<'a>, isbn: u32, fecha: Fecha) -> (r: bool)
        requires
            contar_prestamos_spec(old(self)@.historial, cliente@) <= u8::MAX,
        ensures
            r == (contar_prestamos_spec(old(self)@.historial, cliente@) <= 5 && hay_copias(
                old(self)@.stock,
                isbn,
            )),
            r ==> final(self)@ == (BibliotecaModelo {
                stock: stock_decrementado(old(self)@.stock, isbn),
                historial: old(self)@.historial.push(prestamo_nuevo(isbn, cliente@, fecha@)),
                ..old(self)@
            }),
            !r ==> final(self)@ == old(self)@,
    {
        let prestamos = self.contar_prestamos(cliente);
        if prestamos <= 5 {
            let copias: u8 = match self.obtener_cantidad_copias(isbn) {
                Some(c) => c,
                None => 0,
            };
            if copias > 0 {
                let prestamo = Prestamo::new(isbn, cliente.clone(), fecha, None);
                self.decrementar_copias(isbn);
                self.agregar_prestamo_historial(&prestamo);
                return true;
            }
        }
        false
    }

    /// Records a copy of `prestamo` at the end of the history.
    pub fn agregar_prestamo_historial(&mut self, prestamo: &Prestamo<'a>)
        ensures
            final(self)@ == (BibliotecaModelo {
                historial: old(self)@.historial.push(prestamo@),
                ..old(self)@
            }),
    {
        self.historial_prestamos.push(prestamo.clone());
        assert(self@.historial =~= old(self)@.historial.push(prestamo@));
    }

    /// The loans that are due before `fecha_actual`, oldest first.
    pub fn ver_prestamos_vencidos(&self, fecha_actual: Fecha) -> (lista: Vec<Prestamo<'a>>)
        ensures
            lista@.map_values(|p: Prestamo<'a>| p@) == vencidos_spec(self@.historial, fecha_actual@),
    {
        let ghost pred = vence_antes_de(fecha_actual@);
        let ghost h = self@.historial;
        let mut lista: Vec<Prestamo<'a>> = Vec::new();
        let mut i: usize = 0;
        proof {
            reveal(Seq::filter);
            assert(h.take(0).len() == 0);
            assert(lista@.map_values(|p: Prestamo<'a>| p@) =~= h.take(0).filter(pred));
        }
        while i < self.historial_prestamos.len()
            invariant
                i <= self.historial_prestamos.len(),
                h == self@.historial,
                h.len() == self.historial_prestamos.len(),
                pred == vence_antes_de(fecha_actual@),
                lista@.map_values(|p: Prestamo<'a>| p@) == h.take(i as int).filter(pred),
            decreases self.historial_prestamos.len() - i,
        {
            let ghost antes = lista@.map_values(|p: Prestamo<'a>| p@);
            proof {
                reveal(Seq::filter);
                assert(h.take(i as int + 1).drop_last() =~= h.take(i as int));
                assert(h.take(i as int + 1).last() == self.historial_prestamos@[i as int]@);
            }
            let p = &self.historial_prestamos[i];
            if fecha_actual.es_mayor(&p.vencimiento) {
                lista.push(p.clone());
                assert(lista@.map_values(|p: Prestamo<'a>| p@) =~= antes.push(p@));
            }
            i += 1;
        }
        proof {
            assert(h.take(i as int) =~= h);
        }
        lista
    }

    /// The loans that come due within `dias` days of `fecha_actual`, oldest
    /// first; see `por_vencer_spec` for the date each loan is held against.
    ///
    /// The machine limits ask that the date can move on by `dias` once for
    /// every loan in the history.
    pub fn ver_prestamos_por_vencer(&self, dias: u8, fecha_actual: Fecha) -> (lista: Vec<Prestamo<'a>>)
        requires
            self@.historial.len() > 0 && dias > 0 ==> fecha_actual.dia < u32::MAX && fecha_actual.mes
                < u32::MAX,
            sumar_dias_spec(fecha_actual@, self@.historial.len() * (dias as nat)).anio <= u32::MAX,
        ensures
            lista@.map_values(|p: Prestamo<'a>| p@) == por_vencer_spec(
                self@.historial,
                dias as nat,
                fecha_actual@,
            ),
    {
        let ghost h = self@.historial;
        let ghost inicio = fecha_actual@;
        let ghost d = dias as nat;
        let mut fecha = fecha_actual;
        let mut lista: Vec<Prestamo<'a>> = Vec::new();
        let mut i: usize = 0;
        proof {
            assert(h.take(0).len() == 0);
            assert(lista@.map_values(|p: Prestamo<'a>| p@) =~= por_vencer_spec(h.take(0), d, inicio));
            assert(0 * d == 0) by (nonlinear_arith);
        }
        while i < self.historial_prestamos.len()
            invariant
                i <= self.historial_prestamos.len(),
                h == self@.historial,
                h.len() == self.historial_prestamos.len(),
                d == dias as nat,
                fecha@ == sumar_dias_spec(inicio, (i as nat) * d),
                i == 0 ==> fecha@ == inicio,
                h.len() > 0 && dias > 0 ==> inicio.dia < u32::MAX && inicio.mes < u32::MAX,
                inicio.mes >= 0,
                sumar_dias_spec(inicio, h.len() * d).anio <= u32::MAX,
                lista@.map_values(|p: Prestamo<'a>| p@) == por_vencer_spec(h.take(i as int), d, inicio),
            decreases self.historial_prestamos.len() - i,
        {
            let ghost antes = lista@.map_values(|p: Prestamo<'a>| p@);
            proof {
                assert(h.take(i as int + 1).drop_last() =~= h.take(i as int));
                assert(h.take(i as int + 1).last() == self.historial_prestamos@[i as int]@);
                assert((i + 1) * d == i * d + d && h.len() * d == (i + 1) * d + (h.len() - i - 1) * d
                    && (h.len() - i - 1) * d >= 0 && i * d >= 0 && (i > 0 && d > 0 ==> i * d >= 1))
                    by (nonlinear_arith)
                    requires
                        0 <= i < h.len(),
                        d >= 0,
                ;
                lema_sumar_compone(inicio, (i as nat) * d, d);
                lema_sumar_compone(inicio, ((i + 1) as nat) * d, ((h.len() - i - 1) * d) as nat);
                lema_sumar_anio(
                    sumar_dias_spec(inicio, ((i + 1) as nat) * d),
                    ((h.len() - i - 1) * d) as nat,
                );
                if i > 0 && d > 0 {
                    lema_sumar_valida(inicio, (i as nat) * d);
                }
            }
            let p = &self.historial_prestamos[i];
            if fecha.sumar_dias(dias as u32).es_mayor(&p.vencimiento) {
                lista.push(p.clone());
                assert(lista@.map_values(|p: Prestamo<'a>| p@) =~= antes.push(p@));
            }
            i += 1;
        }
        proof {
            assert(h.take(i as int) =~= h);
        }
        lista
    }

    /// The first loan of `libro` to `cliente` in the history, returned or
    /// not, for the caller to change in place.
    pub fn buscar_prestamo<'b>(&'b mut self, libro: &Libro, cliente: &Cliente) -> (r: Option<
        &'b mut Prestamo<'a>,
    >)
        ensures
            match r {
                Some(p) => {
                    &&& posicion_prestamo(old(self)@.historial, libro.isbn, cliente@).is_some()
                    &&& p@ == old(self)@.historial[posicion_prestamo(
                        old(self)@.historial,
                        libro.isbn,
                        cliente@,
                    ).unwrap()]
                    &&& final(self)@.historial == old(self)@.historial.update(
                        posicion_prestamo(old(self)@.historial, libro.isbn, cliente@).unwrap(),
                        final(p)@,
                    )
                },
                None => {
                    &&& posicion_prestamo(old(self)@.historial, libro.isbn, cliente@).is_none()
                    &&& final(self)@.historial == old(self)@.historial
                },
            },
            final(self)@.stock == old(self)@.stock,
            final(self)@.nombre == old(self)@.nombre,
            final(self)@.direccion == old(self)@.direccion,
    {
        let pos = self.posicion_de_prestamo(libro.isbn, cliente);
        match pos {
            Some(i) => Some(&mut self.historial_prestamos[i]),
            None => None,
        }
    }

    /// The position of the first loan of the book `isbn` to `cliente`.
    fn posicion_de_prestamo(&self, isbn: u32, cliente: &Cliente) -> (r: Option<usize>)
        ensures
            match r {
                Some(i) => posicion_prestamo(self@.historial, isbn, cliente@) == Some(i as int) && i
                    < self.historial_prestamos.len(),
                None => posicion_prestamo(self@.historial, isbn, cliente@).is_none(),
            },
    {
        let ghost pred = es_prestamo_de(isbn, cliente@);
        let ghost h = self@.historial;
        let mut i: usize = 0;
        while i < self.historial_prestamos.len()
            invariant
                i <= self.historial_prestamos.len(),
                h == self@.historial,
                h.len() == self.historial_prestamos.len(),
                pred == es_prestamo_de(isbn, cliente@),
                forall|j: int| 0 <= j < i ==> !pred(#[trigger] h[j]),
            decreases self.historial_prestamos.len() - i,
        {
            let p = &self.historial_prestamos[i];
            assert(h[i as int] == p@);
            if p.isbn_libro == isbn && p.cliente == *cliente {
                proof {
                    assert(es_primera_posicion(h, pred, i as int));
                    lema_primera_posicion_unica(h, pred, i as int);
                }
                return Some(i);
            }
            i += 1;
        }
        proof {
            assert(ninguno(h, pred));
            lema_primera_posicion_unica(h, pred, 0);
        }
        None
    }

    /// Takes back the book of the first loan of `libro` to `cliente` in the
    /// history: the loan is marked as returned on the given day, and one
    /// copy goes back into the stock. `false`, and nothing changes, where
    /// the history holds no such loan.
    ///
    /// The count of copies has to fit in a `u8`.
    pub fn devolver_libro(&mut self, libro: &Libro, cliente: &Cliente, dia: u32, mes: u32, anio: u32) -> (r:
        bool)
        requires
            posicion_prestamo(old(self)@.historial, libro.isbn, cliente@).is_some() && old(
                self,
            )@.stock.contains_key(libro.isbn) ==> old(self)@.stock[libro.isbn] < u8::MAX,
        ensures
            r == posicion_prestamo(old(self)@.historial, libro.isbn, cliente@).is_some(),
            final(self)@ == (match posicion_prestamo(old(self)@.historial, libro.isbn, cliente@) {
                Some(i) => BibliotecaModelo {
                    stock: stock_incrementado(old(self)@.stock, libro.isbn),
                    historial: old(self)@.historial.update(
                        i,
                        prestamo_devuelto(
                            old(self)@.historial[i],
                            FechaModelo { dia: dia as int, mes: mes as int, anio: anio as int },
                        ),
                    ),
                    ..old(self)@
                },
                None => old(self)@,
            }),
    {
        proof {
            lema_primera_posicion(old(self)@.historial, es_prestamo_de(libro.isbn, cliente@));
        }
        if let Some(pres) = self.buscar_prestamo(libro, cliente) {
            pres.estado = EstadoPrestamo::Devuelto;
            pres.fecha_devolucion = Some(Fecha::new(dia, mes, anio));
            let isbn = pres.isbn_libro;
            self.incrementar_copias(isbn);
            return true;
        }
        false
    }
}

} // verus!
