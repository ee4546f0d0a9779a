//! The broadcast slot: one current encoded snapshot, overwritten by every
//! publication, and the cursors through which subscribers follow it.

use vstd::prelude::*;

verus! {

/// What a slot holds: the current value and the count of publications.
pub struct RanuraModelo {
    pub valor: Seq<char>,
    pub version: nat,
}

/// The slot before any publication: an empty placeholder.
pub open spec fn ranura_inicial() -> RanuraModelo {
    RanuraModelo { valor: Seq::empty(), version: 0 }
}

/// The slot after one publication: the value is replaced, the version advances.
pub open spec fn tras_publicar(r: RanuraModelo, valor: Seq<char>) -> RanuraModelo {
    RanuraModelo { valor, version: r.version + 1 }
}

/// The slot after a run of publications, in order.
pub open spec fn tras_publicar_todos(r: RanuraModelo, valores: Seq<Seq<char>>) -> RanuraModelo
    decreases valores.len(),
{
    if valores.len() == 0 {
        r
    } else {
        tras_publicar(tras_publicar_todos(r, valores.drop_last()), valores.last())
    }
}

/// Whether the slot has advanced past the version that a cursor last saw.
pub open spec fn cambio_pendiente(vista: nat, r: RanuraModelo) -> bool {
    r.version > vista
}

/// What a cursor reads when it looks at the slot: the current value if the
/// slot has advanced, nothing otherwise.
pub open spec fn valor_tomado(vista: nat, r: RanuraModelo) -> Option<Seq<char>> {
    if cambio_pendiente(vista, r) {
        Some(r.valor)
    } else {
        None
    }
}

/// The version that a cursor has seen after it looked at the slot.
pub open spec fn vista_tras_tomar(vista: nat, r: RanuraModelo) -> nat {
    if cambio_pendiente(vista, r) {
        r.version
    } else {
        vista
    }
}

/// The single-valued, versioned publication point.
pub struct Ranura {
    valor: String,
    version: u64,
}

/// A subscriber's read cursor: the last version of the slot that it has seen.
#[derive(Clone, Copy, Debug)]
pub struct Suscripcion {
    vista: u64,
}

impl View for Ranura {
    type V = RanuraModelo;

    closed spec fn view(&self) -> RanuraModelo {
        RanuraModelo { valor: self.valor@, version: self.version as nat }
    }
}

impl View for Suscripcion {
    type V = nat;

    closed spec fn view(&self) -> nat {
        self.vista as nat
    }
}

impl Ranura {
    /// A slot that holds the empty placeholder.
    pub fn new() -> (r: Ranura)
        ensures
            r@ == ranura_inicial(),
    {
        let r = Ranura { valor: String::new(), version: 0 };
        assert(r@.valor =~= Seq::<char>::empty());
        r
    }

    /// Whether the version counter can still advance.
    pub fn puede_publicar(&self) -> (b: bool)
        ensures
            b == (self@.version < u64::MAX),
    {
        self.version < u64::MAX
    }

    /// Replaces the current value and advances the version.
    pub fn publicar(&mut self, valor: String)
        requires
            old(self)@.version < u64::MAX,
        ensures
            final(self)@ == tras_publicar(old(self)@, valor@),
    {
        self.valor = valor;
        self.version = self.version + 1;
    }

    /// A cursor seeded with the current version: it sees no change until
    /// the next publication.
    pub fn suscribir(&self) -> (s: Suscripcion)
        ensures
            s@ == self@.version,
    {
        Suscripcion { vista: self.version }
    }

    /// The count of publications so far.
    pub fn version(&self) -> (v: u64)
        ensures
            v == self@.version,
    {
        self.version
    }

    /// A copy of the current value.
    pub fn valor(&self) -> (v: String)
        ensures
            v@ == self@.valor,
    {
        self.valor.clone()
    }
}

impl Suscripcion {
    /// The last version that this cursor has seen.
    pub fn vista(&self) -> (v: u64)
        ensures
            v == self@,
    {
        self.vista
    }

    /// Whether the slot has advanced since this cursor last looked.
    pub fn hay_cambio(&self, ranura: &Ranura) -> (b: bool)
        ensures
            b == cambio_pendiente(self@, ranura@),
    {
        ranura.version > self.vista
    }

    /// Looks at the slot. If it has advanced, returns its current value and
    /// moves the cursor to the slot's latest version; otherwise returns
    /// nothing and leaves the cursor where it was.
    pub fn tomar_cambio(&mut self, ranura: &Ranura) -> (r: Option<String>)
        ensures
            r.is_some() == cambio_pendiente(old(self)@, ranura@),
            match r {
                Some(v) => Some(v@) == valor_tomado(old(self)@, ranura@),
                None => valor_tomado(old(self)@, ranura@).is_none(),
            },
            final(self)@ == vista_tras_tomar(old(self)@, ranura@),
    {
        if ranura.version > self.vista {
            self.vista = ranura.version;
            Some(ranura.valor.clone())
        } else {
            None
        }
    }
}

/// A run of publications advances the version by its length.
pub proof fn version_tras_publicar_todos(r: RanuraModelo, valores: Seq<Seq<char>>)
    ensures
        tras_publicar_todos(r, valores).version == r.version + valores.len(),
        valores.len() > 0 ==> tras_publicar_todos(r, valores).valor == valores.last(),
    decreases valores.len(),
{
    if valores.len() > 0 {
        version_tras_publicar_todos(r, valores.drop_last());
    }
}

/// A cursor created after any run of publications sees nothing until the
/// next publication, and then reads exactly the value of that publication.
pub proof fn suscriptor_tardio(previas: Seq<Seq<char>>, siguiente: Seq<char>)
    ensures
        ({
            let r = tras_publicar_todos(ranura_inicial(), previas);
            &&& !cambio_pendiente(r.version, r)
            &&& valor_tomado(r.version, r).is_none()
            &&& vista_tras_tomar(r.version, r) == r.version
            &&& valor_tomado(r.version, tras_publicar(r, siguiente)) == Some(siguiente)
        }),
{
}

/// Delivery keeps only the latest value: a cursor that did not look while
/// one or more publications occurred reads the last of them when it next
/// looks, and has then seen the slot's latest version.
pub proof fn entrega_del_ultimo(r: RanuraModelo, vista: nat, valores: Seq<Seq<char>>)
    requires
        vista <= r.version,
        valores.len() > 0,
    ensures
        valor_tomado(vista, tras_publicar_todos(r, valores)) == Some(valores.last()),
        vista_tras_tomar(vista, tras_publicar_todos(r, valores)) == r.version + valores.len(),
{
    version_tras_publicar_todos(r, valores);
}

/// Cursors converge: any two cursors that look at the same slot after it
/// advanced past both read the same value and end at the same version.
pub proof fn cursores_convergen(r: RanuraModelo, una: nat, otra: nat)
    requires
        una < r.version,
        otra < r.version,
    ensures
        valor_tomado(una, r) == valor_tomado(otra, r),
        vista_tras_tomar(una, r) == vista_tras_tomar(otra, r),
{
}

/// A cursor never goes back: what it has seen after a look is at least what
/// it had seen before, and at most the slot's version. After further
/// publications its next look takes it strictly forward.
pub proof fn observaciones_en_orden(r: RanuraModelo, vista: nat, valores: Seq<Seq<char>>)
    requires
        vista <= r.version,
    ensures
        vista <= vista_tras_tomar(vista, r) <= r.version,
        vista_tras_tomar(vista, r) <= vista_tras_tomar(
            vista_tras_tomar(vista, r),
            tras_publicar_todos(r, valores),
        ),
        valores.len() > 0 ==> vista_tras_tomar(vista, r) < vista_tras_tomar(
            vista_tras_tomar(vista, r),
            tras_publicar_todos(r, valores),
        ),
{
    version_tras_publicar_todos(r, valores);
}

} // verus!
